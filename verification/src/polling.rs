//! Waiting for something to answer, within a budget.
use vstd::prelude::*;

verus! {

/// A span of milliseconds as Rust prints it for debugging.
pub uninterp spec fn duration_debug(ms: u64) -> Seq<char>;

/// `Debug` of a `std::time::Duration` made from milliseconds. Which unit it
/// chooses is left to the name.
#[verifier::external_body]
pub(crate) fn duration_text(ms: u64) -> (r: String)
    ensures
        r@ == duration_debug(ms),
{
    format!("{:?}", std::time::Duration::from_millis(ms))
}

/// What to do after one attempt.
#[derive(Debug, Clone, Copy, PartialEq, Eq, Structural)]
pub enum PollStep {
    /// It answered.
    Ready,
    /// The budget is spent.
    GiveUp,
    /// Sleep, then try again, with the next backoff.
    Sleep { ms: u64, next_backoff_ms: u64 },
}

/// The smaller of two numbers.
pub open spec fn least(a: int, b: int) -> int {
    if a <= b {
        a
    } else {
        b
    }
}

/// What to do after one attempt: an answer ends the wait, a spent budget
/// gives up, and else the backoff is slept out, though not past the deadline,
/// and doubled up to the cap.
pub open spec fn poll_next(answered: bool, now_ms: u64, deadline_ms: u64, backoff_ms: u64, cap_ms: u64) -> PollStep {
    if answered {
        PollStep::Ready
    } else if now_ms >= deadline_ms {
        PollStep::GiveUp
    } else {
        PollStep::Sleep {
            ms: least(backoff_ms as int, deadline_ms - now_ms) as u64,
            next_backoff_ms: least(backoff_ms * 2, cap_ms as int) as u64,
        }
    }
}

/// What to do after one attempt.
pub fn poll_step(answered: bool, now_ms: u64, deadline_ms: u64, backoff_ms: u64, cap_ms: u64) -> (r: PollStep)
    requires
        backoff_ms * 2 <= u64::MAX,
    ensures
        r == poll_next(answered, now_ms, deadline_ms, backoff_ms, cap_ms),
{
    if answered {
        return PollStep::Ready;
    }
    if now_ms >= deadline_ms {
        return PollStep::GiveUp;
    }
    let remaining: u64 = deadline_ms - now_ms;
    let ms: u64 = if backoff_ms <= remaining {
        backoff_ms
    } else {
        remaining
    };
    let doubled: u64 = backoff_ms * 2;
    let next_backoff_ms: u64 = if doubled <= cap_ms {
        doubled
    } else {
        cap_ms
    };
    PollStep::Sleep { ms, next_backoff_ms }
}

/// The backoff before attempt number `n`, counted from zero.
pub open spec fn backoff_at(start_ms: nat, cap_ms: nat, n: nat) -> nat
    decreases n,
{
    if n == 0 {
        start_ms
    } else {
        least((backoff_at(start_ms, cap_ms, (n - 1) as nat) * 2) as int, cap_ms as int) as nat
    }
}

/// A wait never sleeps past its deadline, and from the second attempt on its
/// backoff never passes the cap.
pub proof fn law_poll_bounded(answered: bool, now_ms: u64, deadline_ms: u64, backoff_ms: u64, cap_ms: u64)
    requires
        backoff_ms * 2 <= u64::MAX,
    ensures
        match poll_next(answered, now_ms, deadline_ms, backoff_ms, cap_ms) {
            PollStep::Sleep { ms, next_backoff_ms } => !answered && now_ms + ms <= deadline_ms && next_backoff_ms <= cap_ms,
            PollStep::GiveUp => !answered && now_ms >= deadline_ms,
            PollStep::Ready => answered,
        },
{
}

/// The backoffs of successive attempts grow: none is below the one before it,
/// as long as the first is not above the cap.
pub proof fn law_backoff_grows(start_ms: nat, cap_ms: nat, n: nat)
    requires
        start_ms <= cap_ms,
    ensures
        backoff_at(start_ms, cap_ms, n) <= backoff_at(start_ms, cap_ms, n + 1) <= cap_ms,
    decreases n,
{
    if n > 0 {
        law_backoff_grows(start_ms, cap_ms, (n - 1) as nat);
    }
}

/// A wait that goes on sleeps out its whole backoff or up to the deadline, so
/// that there is an attempt at the deadline; and the next backoff is twice
/// this one, or the cap.
pub proof fn law_poll_makes_progress(now_ms: u64, deadline_ms: u64, backoff_ms: u64, cap_ms: u64)
    requires
        backoff_ms * 2 <= u64::MAX,
        now_ms < deadline_ms,
    ensures
        poll_next(false, now_ms, deadline_ms, backoff_ms, cap_ms) matches PollStep::Sleep { ms, next_backoff_ms } && {
            &&& ms <= backoff_ms && (ms == backoff_ms || now_ms + ms == deadline_ms)
            &&& next_backoff_ms <= 2 * backoff_ms && (next_backoff_ms == 2 * backoff_ms || next_backoff_ms == cap_ms)
        },
        poll_next(true, now_ms, deadline_ms, backoff_ms, cap_ms) is Ready,
{
}

} // verus!
