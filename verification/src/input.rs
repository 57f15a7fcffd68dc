//! Closures as arguments: two functions that take a closure and call it, and
//! a routine that builds the closures to hand to them.

use crate::text::{decimal, to_decimal};
use vstd::prelude::*;

verus! {

/// Calls `f`, once.
///
/// `f` is any closure without arguments or result that can be called at
/// least once. It is moved in and used up by the call, so whatever it does,
/// it has done exactly once when `apply` returns.
pub fn apply<F>(f: F) where F: FnOnce()
    requires
        f.requires(()),
    ensures
        f.ensures((), ()),
{
    f();
}

/// Calls `f` on 3 and returns what it returns.
pub fn apply_to_3<F>(f: F) -> (result: i32) where F: Fn(i32) -> i32
    requires
        f.requires((3,)),
    ensures
        f.ensures((3,), result),
{
    f(3)
}

/// The first line of the diary.
pub open spec fn said_line(greeting: Seq<char>) -> Seq<char> {
    "I said "@ + greeting + "."@
}

/// The second line of the diary.
pub open spec fn screamed_line(farewell: Seq<char>) -> Seq<char> {
    "Then I screamed "@ + farewell + "."@
}

/// The last line of the diary.
pub open spec fn sleep_line() -> Seq<char> {
    "Now I can sleep. zzzzz"@
}

/// The line that shows what doubling 3 gave.
pub open spec fn doubled_line(doubled: int) -> Seq<char> {
    "3 doubled: "@ + decimal(doubled)
}

/// The closure that writes a diary entry. It captures two variables, each
/// in the mode that the body asks of it.
///
/// The body only reads `greeting`, which is therefore held by a shared
/// borrow. It appends to `farewell`, which is therefore held by an exclusive
/// borrow; were the body to release `farewell` as well, the closure would
/// have to own it. As in `Inc`, the borrows are fields and the body is
/// `call`.
pub struct Diary<'a> {
    /// The captured greeting, which the body reads.
    pub greeting: &'a str,
    /// The captured farewell, to which the body appends.
    pub farewell: &'a mut String,
}

impl<'a> Diary<'a> {
    /// Calls the closure: three exclamation marks are appended to
    /// `farewell`, and the three lines of the entry come back. The second of
    /// them shows `farewell` as the call has left it.
    pub fn call(&mut self) -> (lines: Vec<String>)
        ensures
            final(self).greeting@ == old(self).greeting@,
            final(self).farewell@ == old(self).farewell@ + "!!!"@,
            *final(final(self).farewell) == *final(old(self).farewell),
            lines.deep_view() == seq![
                said_line(old(self).greeting@),
                screamed_line(final(self).farewell@),
                sleep_line(),
            ],
    {
        let mut lines: Vec<String> = Vec::new();

        let mut said = String::from_str("I said ");
        said.append(self.greeting);
        said.append(".");
        lines.push(said);

        self.farewell.append("!!!");
        let mut screamed = String::from_str("Then I screamed ");
        screamed.append(self.farewell.as_str());
        screamed.append(".");
        lines.push(screamed);

        lines.push(String::from_str("Now I can sleep. zzzzz"));

        assert(lines.deep_view() =~= seq![
            said_line(old(self).greeting@),
            screamed_line(self.farewell@),
            sleep_line(),
        ]);
        lines
    }
}

/// Writes the line that shows what doubling 3 gave.
pub fn show_doubled(doubled: i32) -> (line: String)
    ensures
        line@ == doubled_line(doubled as int),
{
    let mut line = String::from_str("3 doubled: ");
    let shown = to_decimal(doubled);
    line.append(shown.as_str());
    line
}

/// The lines that `as_input` prints.
pub open spec fn as_input_output() -> Seq<Seq<char>> {
    seq![
        "I said hello."@,
        "Then I screamed goodbye!!!."@,
        "Now I can sleep. zzzzz"@,
        "3 doubled: 6"@,
    ]
}

/// The texts of the lines of `as_input`, as the closures build them.
proof fn lemma_as_input_lines()
    ensures
        said_line("hello"@) == "I said hello."@,
        screamed_line("goodbye"@ + "!!!"@) == "Then I screamed goodbye!!!."@,
        doubled_line(6) == "3 doubled: 6"@,
{
    reveal_strlit("hello");
    reveal_strlit("goodbye");
    reveal_strlit("!!!");
    reveal_strlit(".");
    reveal_strlit("I said ");
    reveal_strlit("Then I screamed ");
    reveal_strlit("3 doubled: ");
    reveal_strlit("I said hello.");
    reveal_strlit("Then I screamed goodbye!!!.");
    reveal_strlit("3 doubled: 6");
    assert(decimal(6) =~= seq!['6']);
    assert(said_line("hello"@) =~= "I said hello."@);
    assert(screamed_line("goodbye"@ + "!!!"@) =~= "Then I screamed goodbye!!!."@);
    assert(doubled_line(6) =~= "3 doubled: 6"@);
}

/// Builds the diary closure over a greeting and a farewell and calls it
/// once, then hands a closure that doubles its argument to `apply_to_3`;
/// returns the lines printed, in order.
pub fn as_input() -> (lines: Vec<String>)
    ensures
        lines.deep_view() == as_input_output(),
{
    let greeting = "hello";
    let mut farewell = "goodbye".to_owned();
    let mut diary = Diary { greeting, farewell: &mut farewell };
    let mut lines = diary.call();
    let ghost entry = lines.deep_view();

    let double = |x: i32| -> (doubled: i32)
        requires
            i32::MIN <= 2 * x <= i32::MAX,
        ensures
            doubled == 2 * x,
    {
        2 * x
    };
    let doubled: i32 = apply_to_3(double);
    lines.push(show_doubled(doubled));

    proof {
        lemma_as_input_lines();
        assert(lines.deep_view() =~= entry.push(doubled_line(6)));
        assert(lines.deep_view() =~= as_input_output());
    }
    lines
}

} // verus!
