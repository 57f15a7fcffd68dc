//! How a closure captures a variable, inferred from what its body does with
//! it, and what that makes of the closure.

use vstd::prelude::*;

verus! {

/// What a closure's body does with a variable of the enclosing scope.
#[derive(Clone, Copy, Debug, PartialEq, Eq, Structural)]
pub enum Usage {
    /// The body only reads the variable.
    Read,
    /// The body changes the variable in place.
    Mutate,
    /// The body moves the variable away or releases it.
    Consume,
}

/// How a closure holds a captured variable, from the least restrictive mode
/// to the most restrictive.
#[derive(Clone, Copy, Debug, PartialEq, Eq, Structural)]
pub enum CaptureMode {
    /// A shared, read-only borrow.
    ByReference,
    /// An exclusive borrow.
    ByMutableReference,
    /// The closure owns the variable; the enclosing scope has lost it.
    ByValue,
}

/// What a closure is to its callers. It is fixed when the closure is built
/// and never changes afterwards.
#[derive(Clone, Copy, Debug, PartialEq, Eq, Structural)]
pub enum Classification {
    /// Callable any number of times through a shared borrow.
    ReadOnly,
    /// Callable any number of times, through an exclusive borrow: the binding
    /// that holds the closure must itself be mutable.
    ExclusiveMutating,
    /// Callable once: the call uses the closure up.
    Consuming,
}

impl Usage {
    /// The mode that this usage alone demands.
    pub open spec fn demands(self) -> CaptureMode {
        match self {
            Usage::Read => CaptureMode::ByReference,
            Usage::Mutate => CaptureMode::ByMutableReference,
            Usage::Consume => CaptureMode::ByValue,
        }
    }
}

impl CaptureMode {
    /// The place of the mode in the order of restriction.
    pub open spec fn restriction(self) -> nat {
        match self {
            CaptureMode::ByReference => 0,
            CaptureMode::ByMutableReference => 1,
            CaptureMode::ByValue => 2,
        }
    }

    /// Whether a variable held in this mode can be used as `usage` says.
    pub open spec fn permits(self, usage: Usage) -> bool {
        usage.demands().restriction() <= self.restriction()
    }

    /// What a closure that captures one variable, in this mode, is to its
    /// callers.
    pub open spec fn makes(self) -> Classification {
        match self {
            CaptureMode::ByReference => Classification::ReadOnly,
            CaptureMode::ByMutableReference => Classification::ExclusiveMutating,
            CaptureMode::ByValue => Classification::Consuming,
        }
    }
}

impl Classification {
    /// Whether the closure can be called more than once.
    pub open spec fn repeatable(self) -> bool {
        self != Classification::Consuming
    }

    /// Whether the closure can be called more than once.
    pub fn is_repeatable(self) -> (yes: bool)
        ensures
            yes == self.repeatable(),
    {
        match self {
            Classification::ReadOnly => true,
            Classification::ExclusiveMutating => true,
            Classification::Consuming => false,
        }
    }
}

/// The mode in which a variable is captured by a closure whose body uses it
/// as `body` lists: by value if any use consumes it, else by mutable
/// reference if any use changes it, else by reference.
pub open spec fn required_mode(body: Seq<Usage>) -> CaptureMode {
    if body.contains(Usage::Consume) {
        CaptureMode::ByValue
    } else if body.contains(Usage::Mutate) {
        CaptureMode::ByMutableReference
    } else {
        CaptureMode::ByReference
    }
}

/// What a closure is to its callers when it holds its variables in the modes
/// `captures`: consuming if it owns any of them, else exclusive-mutating if
/// it borrows any of them exclusively, else read-only.
pub open spec fn classification(captures: Seq<CaptureMode>) -> Classification {
    if captures.contains(CaptureMode::ByValue) {
        Classification::Consuming
    } else if captures.contains(CaptureMode::ByMutableReference) {
        Classification::ExclusiveMutating
    } else {
        Classification::ReadOnly
    }
}

/// The required mode permits every use in the body, and no less restrictive
/// mode does.
pub proof fn lemma_required_mode_is_least(body: Seq<Usage>, other: CaptureMode)
    ensures
        forall|i: int| 0 <= i < body.len() ==> required_mode(body).permits(#[trigger] body[i]),
        (forall|i: int| 0 <= i < body.len() ==> other.permits(#[trigger] body[i]))
            ==> required_mode(body).restriction() <= other.restriction(),
{
    assert forall|i: int| 0 <= i < body.len() implies required_mode(body).permits(
        #[trigger] body[i],
    ) by {
        assert(body.contains(body[i]));
    }
    if forall|i: int| 0 <= i < body.len() ==> other.permits(#[trigger] body[i]) {
        if body.contains(Usage::Consume) {
            let i = choose|i: int| 0 <= i < body.len() && body[i] == Usage::Consume;
            assert(other.permits(body[i]));
        } else if body.contains(Usage::Mutate) {
            let i = choose|i: int| 0 <= i < body.len() && body[i] == Usage::Mutate;
            assert(other.permits(body[i]));
        }
    }
}

/// One more use in the body never eases the mode: the variable is then
/// captured in the more restrictive of the mode it had and the mode that the
/// new use demands. A release added to the body makes it a capture by value.
pub proof fn lemma_usage_upgrades_mode(body: Seq<Usage>, usage: Usage)
    ensures
        required_mode(body.push(usage)).restriction() >= required_mode(body).restriction(),
        usage.demands().restriction() > required_mode(body).restriction() ==> required_mode(
            body.push(usage),
        ) == usage.demands(),
        usage.demands().restriction() <= required_mode(body).restriction() ==> required_mode(
            body.push(usage),
        ) == required_mode(body),
        required_mode(body.push(Usage::Consume)) == CaptureMode::ByValue,
{
    lemma_contains_push(body, usage, Usage::Consume);
    lemma_contains_push(body, usage, Usage::Mutate);
    lemma_contains_push(body, Usage::Consume, Usage::Consume);
}

/// One more captured variable never eases the classification, and the mode
/// of a single capture carries over to the closure: a closure that owns any
/// of its variables can be called only once.
pub proof fn lemma_capture_upgrades_classification(captures: Seq<CaptureMode>, mode: CaptureMode)
    ensures
        classification(seq![mode]) == mode.makes(),
        classification(captures).repeatable() || !classification(captures.push(mode)).repeatable(),
        classification(captures.push(CaptureMode::ByValue)) == Classification::Consuming,
        classification(captures.push(mode)) == Classification::ReadOnly ==> classification(
            captures,
        ) == Classification::ReadOnly,
{
    lemma_contains_push(captures, mode, CaptureMode::ByValue);
    lemma_contains_push(captures, mode, CaptureMode::ByMutableReference);
    lemma_contains_push(captures, CaptureMode::ByValue, CaptureMode::ByValue);
    let one = seq![mode];
    assert(one[0] == mode);
    assert(one.contains(mode));
}

/// A sequence with one more item at its end contains what it contained
/// before, and that item.
proof fn lemma_contains_push<T>(s: Seq<T>, last: T, item: T)
    ensures
        s.push(last).contains(item) <==> s.contains(item) || item == last,
{
    let t = s.push(last);
    if s.contains(item) {
        let i = choose|i: int| 0 <= i < s.len() && s[i] == item;
        assert(t[i] == item);
    }
    if item == last {
        assert(t[s.len() as int] == item);
    }
    if t.contains(item) {
        let i = choose|i: int| 0 <= i < t.len() && t[i] == item;
        if i < s.len() {
            assert(s[i] == item);
        }
    }
}

/// Infers the mode in which a closure captures a variable that its body
/// uses as `body` lists, in any order.
pub fn capture_mode(body: &[Usage]) -> (mode: CaptureMode)
    ensures
        mode == required_mode(body@),
{
    let mut mode = CaptureMode::ByReference;
    let mut i: usize = 0;
    while i < body.len()
        invariant
            i <= body.len(),
            mode == required_mode(body@.take(i as int)),
        decreases body.len() - i,
    {
        proof {
            assert(body@.take(i + 1) =~= body@.take(i as int).push(body@[i as int]));
            lemma_usage_upgrades_mode(body@.take(i as int), body@[i as int]);
        }
        mode = match (body[i], mode) {
            (Usage::Consume, _) => CaptureMode::ByValue,
            (Usage::Mutate, CaptureMode::ByReference) => CaptureMode::ByMutableReference,
            (_, held) => held,
        };
        i += 1;
    }
    assert(body@.take(i as int) =~= body@);
    mode
}

/// Classifies a closure that holds its variables in the modes `captures`.
pub fn classify(captures: &[CaptureMode]) -> (class: Classification)
    ensures
        class == classification(captures@),
{
    let mut class = Classification::ReadOnly;
    let mut i: usize = 0;
    while i < captures.len()
        invariant
            i <= captures.len(),
            class == classification(captures@.take(i as int)),
        decreases captures.len() - i,
    {
        proof {
            let seen = captures@.take(i as int);
            let mode = captures@[i as int];
            assert(captures@.take(i + 1) =~= seen.push(mode));
            lemma_contains_push(seen, mode, CaptureMode::ByValue);
            lemma_contains_push(seen, mode, CaptureMode::ByMutableReference);
        }
        class = match (captures[i], class) {
            (CaptureMode::ByValue, _) => Classification::Consuming,
            (CaptureMode::ByMutableReference, Classification::ReadOnly) => {
                Classification::ExclusiveMutating
            },
            (_, held) => held,
        };
        i += 1;
    }
    assert(captures@.take(i as int) =~= captures@);
    class
}

} // verus!
