//! The two markers, `foo` and `bar`, and the question `how` that both answer.

use vstd::prelude::*;

verus! {

/// The marker that answers no.
pub struct foo;

/// The marker that answers yes.
pub struct bar;

/// A type whose values can be asked one yes-or-no question.
pub trait foobar {
    /// The answer of `self`, as a mathematical value.
    spec fn answer(self) -> bool;

    /// Asks the marker, which is used up by the question, and returns its
    /// answer: a function of the marker alone, so nothing else is consulted.
    fn how(self) -> (r: bool)
        ensures
            r == self.answer(),
    ;
}

impl foobar for foo {
    /// No, whichever `foo` is asked.
    open spec fn answer(self) -> bool {
        false
    }

    /// Always no.
    fn how(self) -> (r: bool)
        ensures
            !r,
    {
        false
    }
}

impl foobar for bar {
    /// Yes, whichever `bar` is asked.
    open spec fn answer(self) -> bool {
        true
    }

    /// Always yes.
    fn how(self) -> (r: bool)
        ensures
            r,
    {
        true
    }
}

/// Asking a `foo` again changes nothing: whichever two markers of the type
/// are asked, in whichever order and however often, the answers agree.
pub proof fn lemma_foo_answer_is_stable(first: foo, second: foo)
    ensures
        first.answer() == second.answer(),
{
}

/// Asking a `bar` again changes nothing: whichever two markers of the type
/// are asked, in whichever order and however often, the answers agree.
pub proof fn lemma_bar_answer_is_stable(first: bar, second: bar)
    ensures
        first.answer() == second.answer(),
{
}

} // verus!
