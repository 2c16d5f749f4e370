//! The cooperative per-tick state machine of the visualizer.
//!
//! The surrounding program owns the event loop, the socket and the window;
//! this module owns every decision. Each platform callback becomes one call
//! here — a present result, an input batch, or a receive outcome — and the
//! returned [`LoopAction`] tells the caller what to do next. At most one
//! frame's worth of network data is consumed and applied per tick, and a
//! redraw triggered by a successful apply is only requested, never performed
//! within the same tick.

use crate::decoder::decode;
use crate::decoder::grid_of;
use crate::dimension::Dimension;
use crate::surface::black_grid;
use crate::surface::rendered_of;
use crate::surface::DisplaySurface;
use vstd::prelude::*;

verus! {

/// Where the loop stands between ticks. `Idle` lasts from creation until the
/// initial all-black presentation has succeeded; `ShuttingDown` is terminal.
#[derive(Clone, Copy, Debug, PartialEq, Eq, Structural)]
pub enum LoopState {
    Idle,
    Polling,
    ShuttingDown,
}

/// What the caller must do after a tick.
#[derive(Clone, Copy, Debug, PartialEq, Eq, Structural)]
pub enum LoopAction {
    /// Nothing; wait for the next platform callback.
    Continue,
    /// Ask the platform to redraw, so the next presentation shows the
    /// current buffer.
    RequestRedraw,
    /// Leave the event loop; `fatal` says whether the process should exit
    /// with failure (a lost presentation surface) or gracefully (the user
    /// closed the window).
    Exit { fatal: bool },
}

/// What one receive attempt on the datagram socket came to. `TimedOut` is
/// expected steady-state behavior, not an error; `TransportError` is any
/// other failure of the transport, non-fatal to the loop.
#[derive(Clone, Copy, Debug, PartialEq, Eq, Structural)]
pub enum ReceiveOutcome {
    Received { size: usize },
    TimedOut,
    TransportError,
}

/// The loop as a mathematical value: its state, its grid size, and the
/// bytes of its presentation buffer.
pub struct LoopModel {
    pub state: LoopState,
    pub dim: Dimension,
    pub buffer: Seq<u8>,
}

/// One polling tick as a pure transition: only a datagram of exactly the
/// frame length changes the buffer — to the rendering of the grid it
/// decodes to — and nothing else changes anything.
pub open spec fn receive_step(m: LoopModel, data: Seq<u8>, outcome: ReceiveOutcome) -> LoopModel {
    match outcome {
        ReceiveOutcome::Received { size } => if size == m.dim.frame_len() {
            LoopModel { buffer: rendered_of(m.dim, grid_of(m.dim, data)), ..m }
        } else {
            m
        },
        ReceiveOutcome::TimedOut => m,
        ReceiveOutcome::TransportError => m,
    }
}

/// `n` consecutive polling ticks on a source that only ever times out.
pub open spec fn run_timed_out(m: LoopModel, n: nat) -> LoopModel
    decreases n,
{
    if n == 0 {
        m
    } else {
        receive_step(run_timed_out(m, (n - 1) as nat), Seq::empty(), ReceiveOutcome::TimedOut)
    }
}

/// Timeout non-fatality: a run of any number of timed-out polling ticks
/// leaves the loop — display buffer included — exactly as it was.
pub proof fn lemma_timed_out_run_identity(m: LoopModel, n: nat)
    ensures
        run_timed_out(m, n) == m,
    decreases n,
{
    if n > 0 {
        lemma_timed_out_run_identity(m, (n - 1) as nat);
    }
}

/// The visualizer's scheduler state: the display surface it feeds, and
/// where the loop stands.
pub struct RenderLoop {
    state: LoopState,
    surface: DisplaySurface,
}

impl RenderLoop {
    /// The loop as a mathematical value.
    pub closed spec fn model(self) -> LoopModel {
        LoopModel { state: self.state, dim: self.surface.spec_dim(), buffer: self.surface@ }
    }

    /// A usable loop: its surface is usable.
    pub open spec fn wf(self) -> bool {
        self.model().dim.wf() && self.model().buffer.len() == self.model().dim.buffer_len()
    }

    /// A fresh loop: idle, over an all-black opaque surface, which the
    /// caller must present once before feeding input.
    pub fn new(dim: Dimension) -> (l: RenderLoop)
        requires
            dim.wf(),
        ensures
            l.wf(),
            l.model() == (LoopModel {
                state: LoopState::Idle,
                dim,
                buffer: rendered_of(dim, black_grid(dim)),
            }),
    {
        RenderLoop { state: LoopState::Idle, surface: DisplaySurface::new(dim) }
    }

    /// The surface, for presentation.
    pub fn surface(&self) -> (s: &DisplaySurface)
        ensures
            s.spec_dim() == self.model().dim,
            s@ == self.model().buffer,
    {
        &self.surface
    }

    /// Where the loop stands.
    pub fn state(&self) -> (st: LoopState)
        ensures
            st == self.model().state,
    {
        self.state
    }

    /// The caller presented the buffer; `ok` says whether the backend took
    /// it. A failed presentation is fatal — there is no recovery from a
    /// broken surface — and a successful one puts the loop into `Polling`.
    pub fn note_present(&mut self, ok: bool) -> (a: LoopAction)
        requires
            old(self).model().state != LoopState::ShuttingDown,
        ensures
            final(self).model().dim == old(self).model().dim,
            final(self).model().buffer == old(self).model().buffer,
            ok ==> final(self).model().state == LoopState::Polling && a == LoopAction::Continue,
            !ok ==> final(self).model().state == LoopState::ShuttingDown && a == (LoopAction::Exit {
                fatal: true,
            }),
    {
        if ok {
            self.state = LoopState::Polling;
            LoopAction::Continue
        } else {
            self.state = LoopState::ShuttingDown;
            LoopAction::Exit { fatal: true }
        }
    }

    /// The caller processed a batch of input events. A close request or the
    /// exit key is the only user-triggered cancellation path and shuts the
    /// loop down gracefully; any other input only asks for a redraw.
    pub fn handle_input(&mut self, close_requested: bool, escape_pressed: bool) -> (a: LoopAction)
        requires
            old(self).model().state != LoopState::ShuttingDown,
        ensures
            final(self).model().dim == old(self).model().dim,
            final(self).model().buffer == old(self).model().buffer,
            (close_requested || escape_pressed) ==> final(self).model().state
                == LoopState::ShuttingDown && a == (LoopAction::Exit { fatal: false }),
            !(close_requested || escape_pressed) ==> *final(self) == *old(self) && a
                == LoopAction::RequestRedraw,
    {
        if close_requested || escape_pressed {
            self.state = LoopState::ShuttingDown;
            LoopAction::Exit { fatal: false }
        } else {
            LoopAction::RequestRedraw
        }
    }

    /// One polling tick: the caller attempted one receive into its own
    /// reused buffer and reports what happened. A timeout is a no-op; a
    /// transport error is non-fatal and a no-op here (the caller may log
    /// it); a datagram is decoded against the expected frame length —
    /// on mismatch it is discarded and the display is left unchanged, on
    /// success the whole surface takes the decoded grid and a redraw is
    /// requested for a later tick.
    pub fn handle_receive(&mut self, buffer: &[u8], outcome: ReceiveOutcome) -> (a: LoopAction)
        requires
            old(self).wf(),
            old(self).model().state != LoopState::ShuttingDown,
            outcome matches ReceiveOutcome::Received { size } ==> size <= buffer@.len(),
        ensures
            final(self).wf(),
            final(self).model() == receive_step(old(self).model(), buffer@, outcome),
            final(self).model().state == old(self).model().state,
            final(self).model().dim == old(self).model().dim,
            match outcome {
                ReceiveOutcome::TimedOut => *final(self) == *old(self) && a == LoopAction::Continue,
                ReceiveOutcome::TransportError => *final(self) == *old(self) && a
                    == LoopAction::Continue,
                ReceiveOutcome::Received { size } => if size == old(self).model().dim.frame_len() {
                    a == LoopAction::RequestRedraw
                } else {
                    *final(self) == *old(self) && a == LoopAction::Continue
                },
            },
    {
        match outcome {
            ReceiveOutcome::TimedOut => LoopAction::Continue,
            ReceiveOutcome::TransportError => LoopAction::Continue,
            ReceiveOutcome::Received { size } => {
                let dim = self.surface.dim();
                let data = &buffer[0..size];
                match decode(data, dim) {
                    Ok(grid) => {
                        proof {
                            lemma_grid_of_prefix(dim, buffer@, size as int);
                        }
                        self.surface.apply(&grid);
                        LoopAction::RequestRedraw
                    },
                    Err(_) => LoopAction::Continue,
                }
            },
        }
    }
}

/// A frame-length prefix decodes to the same grid as the buffer it was cut
/// from: the grid reads only the first `frame_len` bytes.
proof fn lemma_grid_of_prefix(dim: Dimension, whole: Seq<u8>, size: int)
    requires
        dim.wf(),
        size == dim.frame_len(),
        size <= whole.len(),
    ensures
        grid_of(dim, whole.subrange(0, size)) == grid_of(dim, whole),
{
    let prefix = whole.subrange(0, size);
    assert forall|i: int| 0 <= i < dim.cells() implies #[trigger] grid_of(dim, prefix)[i]
        == grid_of(dim, whole)[i] by {
        assert(0 <= 3 * i && 3 * i + 2 < size) by (nonlinear_arith)
            requires
                0 <= i < dim.cells(),
                dim.cells() == dim.width * dim.height,
                size == dim.width * dim.height * 3,
        ;
    }
    assert(grid_of(dim, prefix) =~= grid_of(dim, whole));
}

} // verus!
