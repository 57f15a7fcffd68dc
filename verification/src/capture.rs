//! Three closures, one for each way of capturing a variable: by reference,
//! by mutable reference and by value. Each hands back the line that it
//! prints.

use crate::text::{decimal, labelled, labelled_line, to_decimal};
use vstd::prelude::*;

verus! {

/// The line that shows a colour.
pub open spec fn color_line(color: Seq<char>) -> Seq<char> {
    labelled("color"@, color)
}

/// The line that shows a counter.
pub open spec fn count_line(count: int) -> Seq<char> {
    labelled("count"@, decimal(count))
}

/// The line that shows the number in the box.
pub open spec fn movable_line(movable: int) -> Seq<char> {
    labelled("movable"@, decimal(movable))
}

/// Builds the closure that prints `color`.
///
/// Its body only reads `color`, so it holds a shared borrow and nothing
/// more. It can be called any number of times, every call prints the same
/// line, and `color` stays usable, and unchanged, beside it.
pub fn print_color<'a>(color: &'a str) -> (print: impl Fn() -> String + 'a)
    ensures
        print.requires(()),
        forall|line: String| print.ensures((), line) ==> line@ == color_line(color@),
{
    move || -> (line: String)
        ensures
            line@ == color_line(color@),
    {
        labelled_line("color", color)
    }
}

/// The closure that adds one to `count` and prints it.
///
/// Its body changes `count` in place, so it holds an exclusive borrow: the
/// binding of the closure must be mutable, and nothing else can reach
/// `count` while the closure is alive. Verus does not yet take a closure
/// that captures a mutable borrow, so this one is written out as the value
/// that the compiler would build for it: the borrow in a field, the body in
/// `call`.
pub struct Inc<'a> {
    /// The captured counter.
    pub count: &'a mut i32,
}

impl<'a> Inc<'a> {
    /// Calls the closure: `count` grows by one, and the line shows its new
    /// value. The closure goes on borrowing the same variable.
    pub fn call(&mut self) -> (line: String)
        requires
            *old(self).count < i32::MAX,
        ensures
            inc_call(*old(self).count as int, *final(self).count as int, line@),
            *final(final(self).count) == *final(old(self).count),
    {
        *self.count = *self.count + 1;
        let shown = to_decimal(*self.count);
        labelled_line("count", shown.as_str())
    }
}

/// What one call of the incrementing closure does: the counter after it is
/// one more than before, and the line shows the counter after it.
pub open spec fn inc_call(before: int, after: int, line: Seq<char>) -> bool {
    &&& after == before + 1
    &&& line == count_line(after)
}

/// Successive calls of the incrementing closure on a counter that begins at
/// `start`: `counts[k]` is the counter after call `k`, and `lines[k]` the
/// line that call prints.
pub open spec fn inc_calls(start: int, counts: Seq<int>, lines: Seq<Seq<char>>) -> bool {
    &&& counts.len() == lines.len()
    &&& forall|k: int|
        0 <= k < counts.len() ==> inc_call(
            if k == 0 {
                start
            } else {
                counts[k - 1]
            },
            #[trigger] counts[k],
            lines[k],
        )
}

/// Every call of the incrementing closure adds exactly one: after call `k`
/// (the first is call 0) of a run that began at `start`, the counter is
/// `start + k + 1`, and that is the number printed. A run of `n` calls on a
/// counter that began at zero therefore ends with the counter at `n`.
pub proof fn lemma_inc_calls(start: int, counts: Seq<int>, lines: Seq<Seq<char>>)
    requires
        inc_calls(start, counts, lines),
    ensures
        forall|k: int|
            0 <= k < counts.len() ==> #[trigger] counts[k] == start + k + 1 && lines[k]
                == count_line(start + k + 1),
        counts.len() > 0 ==> counts.last() == start + counts.len(),
    decreases counts.len(),
{
    if counts.len() > 0 {
        let n = counts.len() - 1;
        assert(inc_calls(start, counts.take(n), lines.take(n)));
        lemma_inc_calls(start, counts.take(n), lines.take(n));
        assert(n > 0 ==> counts.take(n)[n - 1] == counts[n - 1]);
        assert(counts[n] == start + n + 1);
        assert forall|k: int| 0 <= k < counts.len() implies #[trigger] counts[k] == start + k + 1
            && lines[k] == count_line(start + k + 1) by {
            if k < n {
                assert(counts.take(n)[k] == counts[k]);
                assert(lines.take(n)[k] == lines[k]);
            }
        }
    }
}

/// Takes ownership of a value and releases it.
///
/// Specifies `core::mem::drop`. Nothing is claimed of it: it returns
/// nothing, and the value it was given is gone.
pub assume_specification<T>[ core::mem::drop ](_x: T);

/// Builds the closure that prints the number in `movable` and then releases
/// the box.
///
/// Its body gives the box away, so the closure owns it: `movable` has moved
/// into the closure, and the caller has lost it. The call uses the closure
/// up, so it can be called once; the compiler refuses a second call.
pub fn consume_movable(movable: Box<i32>) -> (consume: impl FnOnce() -> String)
    ensures
        consume.requires(()),
        forall|line: String| consume.ensures((), line) ==> line@ == movable_line(*movable as int),
{
    move || -> (line: String)
        ensures
            line@ == movable_line(*movable as int),
    {
        let shown = to_decimal(*movable);
        let line = labelled_line("movable", shown.as_str());
        drop(movable);
        line
    }
}

/// The lines that `capture` prints.
pub open spec fn capture_output() -> Seq<Seq<char>> {
    seq![
        "`color`: green"@,
        "`color`: green"@,
        "`count`: 1"@,
        "`count`: 2"@,
        "`movable`: 3"@,
    ]
}

/// The texts of the lines of `capture`, as the closures build them.
proof fn lemma_capture_lines()
    ensures
        color_line("green"@) == "`color`: green"@,
        count_line(1) == "`count`: 1"@,
        count_line(2) == "`count`: 2"@,
        movable_line(3) == "`movable`: 3"@,
{
    reveal_strlit("green");
    reveal_strlit("color");
    reveal_strlit("count");
    reveal_strlit("movable");
    reveal_strlit("`color`: green");
    reveal_strlit("`count`: 1");
    reveal_strlit("`count`: 2");
    reveal_strlit("`movable`: 3");
    assert(decimal(1) =~= seq!['1']);
    assert(decimal(2) =~= seq!['2']);
    assert(decimal(3) =~= seq!['3']);
    assert(color_line("green"@) =~= "`color`: green"@);
    assert(count_line(1) =~= "`count`: 1"@);
    assert(count_line(2) =~= "`count`: 2"@);
    assert(movable_line(3) =~= "`movable`: 3"@);
}

/// Builds each of the three closures over a variable of its own and calls
/// the first two twice and the third once; returns the lines they print, in
/// order.
///
/// `color` is still there after its closure has run, the counter that began
/// at zero stands at two once its closure is gone, and the box has left with
/// the closure that consumed it.
pub fn capture() -> (lines: Vec<String>)
    ensures
        lines.deep_view() == capture_output(),
{
    let mut lines: Vec<String> = Vec::new();

    let color = "green";
    let print = print_color(color);
    lines.push(print());
    lines.push(print());

    let mut count: i32 = 0;
    let mut inc = Inc { count: &mut count };
    lines.push(inc.call());
    lines.push(inc.call());
    // The closure is gone and its borrow with it: `count` can be read again.
    assert(count == 2);

    let movable: Box<i32> = Box::new(3);
    let consume = consume_movable(movable);
    lines.push(consume());

    proof {
        lemma_capture_lines();
        assert(lines.deep_view() =~= capture_output());
    }
    lines
}

} // verus!
