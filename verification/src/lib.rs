//! Core of a networked LED-matrix visualizer.
//!
//! A remote peer sends one datagram per frame: `width * height * 3` bytes of
//! red-green-blue triples in row-major order. This library holds the verified
//! parts of the pipeline that turns such datagrams into an RGBA pixel buffer:
//!
//! - [`dimension`]: the fixed grid size and the buffer lengths it induces;
//! - [`decoder`]: exact-length validation and decoding of a raw frame into a
//!   grid of color triples;
//! - [`surface`]: the RGBA presentation buffer, always fully opaque;
//! - [`render_loop`]: the cooperative per-tick state machine that feeds
//!   received datagrams to the decoder and the surface.
//!
//! Binding a socket, receiving datagrams, opening a window and presenting the
//! buffer are I/O and belong to the surrounding program, which calls into this
//! library with plain values.

pub mod decoder;
pub mod dimension;
pub mod render_loop;
pub mod report;
pub mod surface;
