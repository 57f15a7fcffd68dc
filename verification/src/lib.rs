//! A demonstration of the three ways in which a closure captures a variable
//! (by reference, by mutable reference, by value) and of closures handed to
//! functions. Every routine returns the lines it prints and leaves the
//! printing to its caller.

pub mod capture;
pub mod input;
pub mod mode;
pub mod text;

use crate::capture::{capture, capture_output};
use crate::input::{as_input, as_input_output};
use vstd::prelude::*;

verus! {

/// The lines of the whole demonstration, in the order in which they are
/// printed.
pub open spec fn demonstration_output() -> Seq<Seq<char>> {
    seq![
        "`color`: green"@,
        "`color`: green"@,
        "`count`: 1"@,
        "`count`: 2"@,
        "`movable`: 3"@,
        "I said hello."@,
        "Then I screamed goodbye!!!."@,
        "Now I can sleep. zzzzz"@,
        "3 doubled: 6"@,
    ]
}

/// The demonstration prints what `capture` prints, then what `as_input`
/// prints, and nothing else.
pub proof fn lemma_demonstration_output()
    ensures
        demonstration_output() == capture_output() + as_input_output(),
{
    assert(demonstration_output() =~= capture_output() + as_input_output());
}

/// Runs the whole demonstration: the closures of `capture`, then those of
/// `as_input`. Returns the lines printed, in order.
pub fn demonstrate() -> (lines: Vec<String>)
    ensures
        lines.deep_view() == demonstration_output(),
{
    let mut lines = capture();
    let mut rest = as_input();
    let ghost first = lines.deep_view();
    let ghost second = rest.deep_view();
    lines.append(&mut rest);
    proof {
        lemma_demonstration_output();
        assert(lines.deep_view() =~= first + second);
    }
    lines
}

} // verus!
