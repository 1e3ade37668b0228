//! A guard against rebooting over and over.
use vstd::prelude::*;

verus! {

/// How many reboots a window allows.
pub const MAX_PER_WINDOW: usize = 3;

/// The length of the window in seconds.
pub const WINDOW_SECS: u64 = 3600;

/// When the host was rebooted, in Unix seconds.
#[derive(Debug, Clone)]
pub struct RebootHistory {
    /// One entry per reboot, oldest first.
    pub reboots: Vec<u64>,
}

impl Default for RebootHistory {
    fn default() -> (r: Self)
        ensures
            r.reboots@.len() == 0,
    {
        RebootHistory { reboots: Vec::new() }
    }
}

/// When the window that ends now began.
pub open spec fn cutoff(now: u64) -> int {
    if now >= WINDOW_SECS {
        now - WINDOW_SECS
    } else {
        0
    }
}

/// The reboots that the window still counts.
pub open spec fn counted(reboots: Seq<u64>, now: u64) -> Seq<u64>
    decreases reboots.len(),
{
    if reboots.len() == 0 {
        Seq::empty()
    } else if reboots.last() >= cutoff(now) {
        counted(reboots.drop_last(), now).push(reboots.last())
    } else {
        counted(reboots.drop_last(), now)
    }
}

/// May the host be rebooted now?
pub open spec fn may_reboot(reboots: Seq<u64>, now: u64) -> bool {
    counted(reboots, now).len() < MAX_PER_WINDOW
}

/// The history after a reboot was asked for.
pub open spec fn after_request(reboots: Seq<u64>, now: u64) -> Seq<u64> {
    if may_reboot(reboots, now) {
        counted(reboots, now).push(now)
    } else {
        counted(reboots, now)
    }
}

/// The guard: the history, and the file that it is kept in.
#[derive(Debug)]
pub struct RebootGuard {
    /// Path of the history's file.
    pub path: String,
    /// The history, as it was loaded.
    pub history: RebootHistory,
}

impl RebootGuard {
    /// A guard over the history in the file `path`.
    pub fn new(path: String, history: RebootHistory) -> (r: Self)
        ensures
            r.path == path,
            r.history == history,
    {
        RebootGuard { path, history }
    }

    /// Asks for a reboot at `now`. It is granted, and noted, while fewer than
    /// the allowed number fall into the window; what is older is forgotten
    /// either way. Once the history has been stored or not, `reboot_granted`
    /// says whether the host may be rebooted.
    pub fn try_reboot(&mut self, now: u64) -> (r: bool)
        ensures
            r == may_reboot(old(self).history.reboots@, now),
            final(self).history.reboots@ == after_request(old(self).history.reboots@, now),
            final(self).path == old(self).path,
    {
        let from: u64 = now.saturating_sub(WINDOW_SECS);
        let ghost all = self.history.reboots@;
        let mut kept: Vec<u64> = Vec::new();
        let mut i: usize = 0;
        assert(all.take(0) =~= Seq::empty());
        while i < self.history.reboots.len()
            invariant
                i <= self.history.reboots@.len(),
                all == self.history.reboots@,
                from == cutoff(now),
                kept@ == counted(all.take(i as int), now),
                self.path == old(self).path,
            decreases self.history.reboots@.len() - i,
        {
            let t: u64 = self.history.reboots[i];
            proof {
                assert(all.take(i + 1).drop_last() =~= all.take(i as int));
                assert(all.take(i + 1).last() == t);
            }
            if t >= from {
                kept.push(t);
            }
            i += 1;
        }
        assert(all.take(i as int) =~= all);
        let allowed: bool = kept.len() < MAX_PER_WINDOW;
        if allowed {
            kept.push(now);
        }
        self.history = RebootHistory { reboots: kept };
        allowed
    }
}

/// May the host be rebooted? Only where the guard granted it and the history
/// that notes it was stored: a reboot that is not on record is not carried out.
pub fn reboot_granted(granted: bool, saved: bool) -> (r: bool)
    ensures
        r == (granted && saved),
{
    granted && saved
}

/// A reboot that was granted is noted, and the window then counts no more than
/// it allows, whatever was noted before; a refusal adds nothing to what it
/// counted.
pub proof fn law_reboots_bounded(reboots: Seq<u64>, now: u64)
    ensures
        may_reboot(reboots, now) ==> after_request(reboots, now).last() == now,
        may_reboot(reboots, now) ==> counted(after_request(reboots, now), now).len() <= MAX_PER_WINDOW,
        !may_reboot(reboots, now) ==> counted(after_request(reboots, now), now) == counted(reboots, now),
{
    counted_in_window(reboots, now);
    let c = counted(reboots, now);
    counted_again(c, now);
    if may_reboot(reboots, now) {
        assert(c.push(now).drop_last() =~= c);
    }
}

/// What the window counts is counted again, as long as the time does not run
/// past it.
proof fn counted_again(reboots: Seq<u64>, now: u64)
    requires
        forall|i: int| 0 <= i < reboots.len() ==> cutoff(now) <= #[trigger] reboots[i],
    ensures
        counted(reboots, now) == reboots,
    decreases reboots.len(),
{
    if reboots.len() > 0 {
        assert forall|i: int| 0 <= i < reboots.drop_last().len() implies cutoff(now) <= #[trigger] reboots.drop_last()[i] by {
            assert(reboots.drop_last()[i] == reboots[i]);
        }
        counted_again(reboots.drop_last(), now);
        assert(reboots.drop_last().push(reboots.last()) =~= reboots);
    } else {
        assert(counted(reboots, now) =~= reboots);
    }
}

/// Everything that the window counts lies in it.
proof fn counted_in_window(reboots: Seq<u64>, now: u64)
    ensures
        forall|i: int| 0 <= i < counted(reboots, now).len() ==> cutoff(now) <= #[trigger] counted(reboots, now)[i],
    decreases reboots.len(),
{
    if reboots.len() > 0 {
        counted_in_window(reboots.drop_last(), now);
        let c = counted(reboots, now);
        let d = counted(reboots.drop_last(), now);
        assert forall|i: int| 0 <= i < c.len() implies cutoff(now) <= #[trigger] c[i] by {
            if i < d.len() {
                assert(c[i] == d[i]);
            }
        }
    }
}

/// A guard that refused refuses again at the same moment: asking does not
/// wear it down.
pub proof fn law_refusal_stands(reboots: Seq<u64>, now: u64)
    requires
        !may_reboot(reboots, now),
    ensures
        !may_reboot(after_request(reboots, now), now),
        after_request(after_request(reboots, now), now) == after_request(reboots, now),
{
    counted_in_window(reboots, now);
    counted_again(counted(reboots, now), now);
}

/// Once the window has passed over everything that was noted, a reboot is
/// granted again.
pub proof fn law_window_rolls_off(reboots: Seq<u64>, now: u64)
    requires
        forall|i: int| 0 <= i < reboots.len() ==> #[trigger] reboots[i] + WINDOW_SECS < now,
    ensures
        may_reboot(reboots, now),
        after_request(reboots, now) == seq![now],
    decreases reboots.len(),
{
    none_counted(reboots, now);
    assert(after_request(reboots, now) =~= seq![now]);
}

/// What lies in front of the window is not counted.
proof fn none_counted(reboots: Seq<u64>, now: u64)
    requires
        forall|i: int| 0 <= i < reboots.len() ==> #[trigger] reboots[i] + WINDOW_SECS < now,
    ensures
        counted(reboots, now).len() == 0,
    decreases reboots.len(),
{
    if reboots.len() > 0 {
        assert forall|i: int| 0 <= i < reboots.drop_last().len() implies #[trigger] reboots.drop_last()[i] + WINDOW_SECS < now by {
            assert(reboots.drop_last()[i] == reboots[i]);
        }
        none_counted(reboots.drop_last(), now);
        assert(reboots[reboots.len() - 1] + WINDOW_SECS < now);
    }
}

/// The reboots of the last hour.
pub open spec fn last_hour(reboots: Seq<u64>, now: u64) -> Seq<u64> {
    reboots.filter(|t: u64| t + 3600 >= now)
}

/// A reboot is granted exactly where there were fewer than three in the last
/// hour. Only those of the last hour are remembered, in order, and the one
/// that is granted behind them.
pub proof fn law_three_reboots_an_hour(reboots: Seq<u64>, now: u64)
    ensures
        may_reboot(reboots, now) <==> last_hour(reboots, now).len() < 3,
        after_request(reboots, now) == if last_hour(reboots, now).len() < 3 {
            last_hour(reboots, now).push(now)
        } else {
            last_hour(reboots, now)
        },
{
    counted_is_last_hour(reboots, now);
}

/// What the window counts are the reboots of the last hour.
proof fn counted_is_last_hour(reboots: Seq<u64>, now: u64)
    ensures
        counted(reboots, now) == last_hour(reboots, now),
    decreases reboots.len(),
{
    reveal(Seq::filter);
    if reboots.len() > 0 {
        counted_is_last_hour(reboots.drop_last(), now);
    }
}

} // verus!
