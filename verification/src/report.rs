//! Failure reports.
//!
//! When a presentation call fails, the visualizer logs one line for the
//! failing method and one indented line per further cause in the error's
//! source chain. Composing those lines is pure string work and is done
//! here; handing them to a logger is I/O and stays with the surrounding
//! program.

use vstd::prelude::*;
use vstd::string::StringExecFns;

verus! {

/// The first report line: the failing method, then its error's message.
pub open spec fn failure_line(method_name: Seq<char>, message: Seq<char>) -> Seq<char> {
    method_name + "() failed: "@ + message
}

/// One line for a further cause in the error's source chain.
pub open spec fn cause_line(message: Seq<char>) -> Seq<char> {
    "  Caused by: "@ + message
}

/// Composes the log lines for a failed call: `messages` holds the failing
/// error's own message first, then the message of each further source in
/// its chain. One line comes back per message — the first as the failure
/// line, the rest as cause lines, in order.
pub fn log_error(method_name: &str, messages: &Vec<String>) -> (lines: Vec<String>)
    requires
        messages@.len() >= 1,
    ensures
        lines@.len() == messages@.len(),
        lines@[0]@ == failure_line(method_name@, messages@[0]@),
        forall|i: int| 1 <= i < lines@.len() ==> lines@[i]@ == cause_line(messages@[i]@),
{
    let mut lines: Vec<String> = Vec::new();
    let mut first = method_name.to_owned();
    first.append("() failed: ");
    first.append(messages[0].as_str());
    lines.push(first);
    let mut i: usize = 1;
    while i < messages.len()
        invariant
            1 <= i <= messages@.len(),
            lines@.len() == i,
            lines@[0]@ == failure_line(method_name@, messages@[0]@),
            forall|j: int| 1 <= j < i ==> lines@[j]@ == cause_line(messages@[j]@),
        decreases messages@.len() - i,
    {
        let mut line = "  Caused by: ".to_owned();
        line.append(messages[i].as_str());
        lines.push(line);
        i = i + 1;
    }
    lines
}

} // verus!
