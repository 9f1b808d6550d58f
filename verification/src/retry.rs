//! How often a render that gave no image is tried again.
//!
//! The renderer can fail for a moment and succeed a little later. A render
//! is therefore tried again a bounded number of times, with a fixed pause
//! before each further attempt.

use vstd::prelude::*;

verus! {

/// Pause before a further attempt at one render, in milliseconds.
pub const RETRY_BACKOFF_MS: u64 = 100;

/// What follows one attempt at rendering.
#[derive(Clone, Copy, PartialEq, Eq, Structural, Debug)]
pub enum Verdict {
    /// The attempt gave an image.
    Rendered,
    /// The attempt gave none: pause, then try again with so many retries left.
    Retry { retries_left: i32, backoff_ms: u64 },
    /// The attempt gave none and no retry is left.
    Failed,
}

/// The number of retries that a render starts with: a count below zero is none.
pub open spec fn budget(retries: i32) -> i32 {
    if retries > 0 {
        retries
    } else {
        0
    }
}

/// What follows an attempt that was made with `retries_left` retries in hand.
pub open spec fn verdict(retries_left: i32, rendered: bool) -> Verdict {
    if rendered {
        Verdict::Rendered
    } else if retries_left > 0 {
        Verdict::Retry { retries_left: (retries_left - 1) as i32, backoff_ms: RETRY_BACKOFF_MS }
    } else {
        Verdict::Failed
    }
}

/// How a render ends, given what its attempts give one after the other:
/// `Some(true)` with an image, `Some(false)` without, `None` if the attempts
/// listed do not suffice to tell.
pub open spec fn outcome(retries_left: i32, attempts: Seq<bool>) -> Option<bool>
    decreases attempts.len(),
{
    if attempts.len() == 0 {
        None
    } else {
        match verdict(retries_left, attempts[0]) {
            Verdict::Rendered => Some(true),
            Verdict::Failed => Some(false),
            Verdict::Retry { retries_left, .. } => outcome(retries_left, attempts.drop_first()),
        }
    }
}

/// Decides what follows one attempt at rendering.
pub fn judge(retries_left: i32, rendered: bool) -> (next: Verdict)
    ensures
        next == verdict(retries_left, rendered),
{
    if rendered {
        Verdict::Rendered
    } else if retries_left > 0 {
        Verdict::Retry { retries_left: retries_left - 1, backoff_ms: RETRY_BACKOFF_MS }
    } else {
        Verdict::Failed
    }
}

/// A render succeeds exactly if an attempt gives an image after no more
/// failures than there are retries.
///
/// With `failures` failed attempts before the first image: the render ends
/// with that image if `failures` is at most the number of retries, and
/// without one, after one attempt more than there are retries, if not.
pub proof fn lemma_render_succeeds_within_budget(
    retries: i32,
    attempts: Seq<bool>,
    failures: int,
)
    requires
        0 <= failures < attempts.len(),
        attempts[failures],
        forall|i: int| 0 <= i < failures ==> !attempts[i],
    ensures
        failures <= budget(retries) ==> outcome(retries, attempts) == Some(true),
        failures > budget(retries) ==> outcome(retries, attempts) == Some(false),
    decreases attempts.len(),
{
    if failures > 0 && retries > 0 {
        let rest = attempts.drop_first();
        assert(rest[failures - 1] == attempts[failures]);
        assert forall|i: int| 0 <= i < failures - 1 implies !rest[i] by {
            assert(rest[i] == attempts[i + 1]);
        }
        lemma_render_succeeds_within_budget((retries - 1) as i32, rest, failures - 1);
    }
}

/// A render whose attempts all fail ends without an image after one
/// attempt more than there are retries, and is undecided before that.
pub proof fn lemma_render_fails_beyond_budget(retries: i32, attempts: Seq<bool>)
    requires
        forall|i: int| 0 <= i < attempts.len() ==> !attempts[i],
    ensures
        attempts.len() > budget(retries) ==> outcome(retries, attempts) == Some(false),
        attempts.len() <= budget(retries) ==> outcome(retries, attempts) is None,
    decreases attempts.len(),
{
    if attempts.len() > 0 && retries > 0 {
        let rest = attempts.drop_first();
        assert forall|i: int| 0 <= i < rest.len() implies !rest[i] by {
            assert(rest[i] == attempts[i + 1]);
        }
        lemma_render_fails_beyond_budget((retries - 1) as i32, rest);
    }
}

} // verus!
