//! The attaching side: when a failed attempt to open the channel is worth
//! repeating.

use vstd::prelude::*;

verus! {

/// The system's error code `ERROR_PIPE_BUSY`: the channel is there, but
/// every instance of it is taken.
pub const PIPE_BUSY: i32 = 231;

/// The system's error code `ERROR_FILE_NOT_FOUND`: the channel is not there
/// yet, because the server has not bound its name.
pub const FILE_NOT_FOUND: i32 = 2;

/// Pause between two attempts, in milliseconds.
pub const RETRY_INTERVAL_MS: u64 = 50;

/// What the client does after one attempt to open the channel.
#[derive(Clone, Copy, Debug, PartialEq, Eq, Structural)]
pub enum ConnectStep {
    /// The channel is open: start bridging.
    Connected,
    /// The failure will pass: sleep for this many milliseconds, then try
    /// again.
    RetryAfter(u64),
    /// The failure is final: report it, and try no more.
    Fail,
}

/// Whether a failure with this error code passes by itself: the channel is
/// busy, or it is not there yet. A failure without a code does not pass.
pub open spec fn is_transient(code: Option<i32>) -> bool {
    code == Some(PIPE_BUSY) || code == Some(FILE_NOT_FOUND)
}

/// The step that follows an attempt: `None` stands for an open channel,
/// `Some(code)` for a failure with the system's error code, if it has one.
pub open spec fn connect_step(failure: Option<Option<i32>>) -> ConnectStep {
    match failure {
        None => ConnectStep::Connected,
        Some(code) => if is_transient(code) {
            ConnectStep::RetryAfter(RETRY_INTERVAL_MS)
        } else {
            ConnectStep::Fail
        },
    }
}

/// Decides what follows one attempt to open the channel: a channel that is
/// busy or not there yet is tried again after a short pause, every other
/// failure is final.
pub fn next_connect_step(failure: Option<Option<i32>>) -> (step: ConnectStep)
    ensures
        step == connect_step(failure),
{
    match failure {
        None => ConnectStep::Connected,
        Some(Some(code)) => {
            if code == PIPE_BUSY || code == FILE_NOT_FOUND {
                ConnectStep::RetryAfter(RETRY_INTERVAL_MS)
            } else {
                ConnectStep::Fail
            }
        },
        Some(None) => ConnectStep::Fail,
    }
}

/// Whether an attempt came out as a failure that passes.
pub open spec fn will_pass(outcome: Option<Option<i32>>) -> bool {
    outcome matches Some(code) && is_transient(code)
}

/// How many attempts are made when they come out as `outcomes`, one after
/// the other: an attempt follows each failure that passes, and none follows
/// an open channel or a final failure.
pub open spec fn attempts_made(outcomes: Seq<Option<Option<i32>>>) -> nat
    decreases outcomes.len(),
{
    if outcomes.len() == 0 {
        0
    } else if connect_step(outcomes.first()) is RetryAfter {
        1 + attempts_made(outcomes.drop_first())
    } else {
        1
    }
}

/// Let the first `k` attempts fail because the channel is busy or not there
/// yet, and let the next one come out otherwise. Then each of the `k` is
/// followed by the same short pause and a new attempt, and attempt `k + 1`
/// is the last: the bridge starts if the channel is open, and the failure
/// is final if it is any other.
pub proof fn lemma_connect_tries_until_settled(outcomes: Seq<Option<Option<i32>>>, k: int)
    requires
        0 <= k < outcomes.len(),
        forall|i: int| 0 <= i < k ==> will_pass(#[trigger] outcomes[i]),
        !will_pass(outcomes[k]),
    ensures
        forall|i: int|
            0 <= i < k ==> connect_step(#[trigger] outcomes[i]) == ConnectStep::RetryAfter(
                RETRY_INTERVAL_MS,
            ),
        connect_step(outcomes[k]) == if outcomes[k] is None {
            ConnectStep::Connected
        } else {
            ConnectStep::Fail
        },
        attempts_made(outcomes) == k + 1,
    decreases k,
{
    if k > 0 {
        let rest = outcomes.drop_first();
        assert(will_pass(outcomes[0]));
        assert forall|i: int| 0 <= i < k - 1 implies will_pass(#[trigger] rest[i]) by {
            assert(rest[i] == outcomes[i + 1]);
            assert(will_pass(outcomes[i + 1]));
        }
        assert(rest[k - 1] == outcomes[k]);
        lemma_connect_tries_until_settled(rest, k - 1);
    }
}

} // verus!
