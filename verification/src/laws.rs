//! Laws of the library: properties that relate several operations, stated
//! over the same spec functions the operations' contracts use.
use vstd::prelude::*;

use crate::endpoint::advance_cursor;
use crate::response::classifies_success;
use crate::retry::bumped;
use crate::retry::escalates;
use crate::session::step_transition;
use crate::session::Action;
use crate::session::Event;
use crate::session::Session;
use crate::session::StopReason;
use crate::MAX_RETRY_TIMES;

verus! {

/// Failure counter after `k` consecutive retryable failures recorded from a
/// fresh (zero) counter, with no intervening success.
pub open spec fn failures_after(k: nat) -> nat
    decreases k,
{
    if k == 0 {
        0
    } else {
        bumped(failures_after((k - 1) as nat))
    }
}

/// Below the saturation bound, `k` consecutive failures count exactly `k`.
pub proof fn lemma_failure_count(k: nat)
    requires
        k <= u32::MAX,
    ensures
        failures_after(k) == k,
    decreases k,
{
    if k > 0 {
        lemma_failure_count((k - 1) as nat);
    }
}

/// Retry policy threshold: a run of `k` consecutive retryable failures from
/// a fresh counter escalates exactly when `k` reaches
/// `MAX_RETRY_TIMES + 1`; shorter runs continue.  A success resets the
/// counter to zero, so the run after it is again a run from a fresh
/// counter and needs the full threshold anew.
pub proof fn lemma_escalation_threshold(k: nat)
    requires
        1 <= k <= MAX_RETRY_TIMES + 1,
    ensures
        escalates(failures_after(k)) <==> k == MAX_RETRY_TIMES + 1,
{
    lemma_failure_count(k);
}

/// Rotation cursor after `k` rotations over a list of `len` addresses,
/// starting from the unselected state.
pub open spec fn cursor_after(k: nat, len: nat) -> Option<usize>
    decreases k,
{
    if k == 0 {
        None
    } else {
        advance_cursor(cursor_after((k - 1) as nat, len), len)
    }
}

/// Endpoint rotation order: over a list of `len` addresses, the `k`-th
/// rotation from the unselected state selects index `k - 1` — so the first
/// `len` rotations visit each address exactly once, in order.
pub proof fn lemma_rotation_visits_in_order(k: nat, len: nat)
    requires
        1 <= k <= len,
        len <= usize::MAX,
    ensures
        cursor_after(k, len) == Some((k - 1) as usize),
    decreases k,
{
    if k == 1 {
        assert(cursor_after(0, len) is None);
    } else {
        lemma_rotation_visits_in_order((k - 1) as nat, len);
    }
}

/// Endpoint rotation exhaustion: the rotation after the `len`-th leaves the
/// cursor past the last index, so it selects nothing, and so does every
/// rotation after it.
pub proof fn lemma_rotation_exhausts(k: nat, len: nat)
    requires
        1 <= len <= usize::MAX,
        k > len,
    ensures
        cursor_after(k, len) == Some(len as usize),
    decreases k,
{
    if k == len + 1 {
        lemma_rotation_visits_in_order(len, len);
    } else {
        lemma_rotation_exhausts((k - 1) as nat, len);
    }
}

/// Cancellation wins the race: on a cancellation event the engine stops
/// cleanly, and the action issues no further network request.
pub proof fn lemma_cancellation_is_clean(pre: Session, post: Session, a: Action)
    requires
        step_transition(pre, Event::Cancelled, post, a),
    ensures
        post.state is Stopped,
        a matches Action::Stop { reason: StopReason::Cancelled },
        !(a is SendHeartbeat),
        !(a is SendRegister),
{
}

/// Cancellation after a success: when a heartbeat response classifies as a
/// success the engine moves to the interval wait, and a cancellation
/// delivered during that wait stops the loop before any further request —
/// the next iteration never starts.
pub proof fn lemma_cancel_after_success(
    pre: Session,
    resp: crate::response::JsonResponse,
    mid: Session,
    a1: Action,
    post: Session,
    a2: Action,
)
    requires
        pre.state is Heartbeating,
        classifies_success(resp, pre.server_version),
        step_transition(pre, Event::Response { decoded: Some(resp) }, mid, a1),
        step_transition(mid, Event::Cancelled, post, a2),
    ensures
        mid.state is IntervalWait,
        a1 matches Action::Wait { seconds },
        post.state is Stopped,
        a2 matches Action::Stop { reason: StopReason::Cancelled },
        !(a2 is SendHeartbeat),
        !(a2 is SendRegister),
{
}

} // verus!
