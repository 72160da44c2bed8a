//! The retention sweeper of one storage root: scan every entry, remove those
//! older than the retention window, sleep, and start again, until cancelled.
//!
//! Times are nanoseconds since the Unix epoch (negative before it). The
//! caller walks the tree, removes entries and sleeps; [`Sweeper`] decides.

use vstd::prelude::*;

verus! {

/// Nanoseconds in one second.
pub const NANOS_PER_SEC: i128 = 1000000000;

/// An entry modified at `modified` has outlived a window of `max_save_time`
/// seconds at `now`: `modified + max_save_time < now`.
pub open spec fn expired_at(modified: int, max_save_time: int, now: int) -> bool {
    modified + max_save_time * NANOS_PER_SEC < now
}

/// Whether an entry modified at `modified` has outlived a window of
/// `max_save_time` seconds at `now`.
pub fn is_expired(modified: i128, max_save_time: u64, now: i128) -> (r: bool)
    ensures
        r == expired_at(modified as int, max_save_time as int, now as int),
{
    assert(max_save_time as int * NANOS_PER_SEC <= 18446744073709551615 * 1000000000)
        by (nonlinear_arith)
        requires
            max_save_time <= 18446744073709551615u64,
    ;
    let window: i128 = max_save_time as i128 * NANOS_PER_SEC;
    if modified > i128::MAX - window {
        false
    } else {
        modified + window < now
    }
}

/// The positions, in order, of the scanned entries that have outlived the
/// window; an entry whose modification time could not be read is kept.
pub open spec fn expired_positions(modified: Seq<Option<i128>>, max_save_time: u64, now: i128) -> Seq<
    usize,
>
    decreases modified.len(),
{
    if modified.len() == 0 {
        Seq::empty()
    } else {
        let earlier = expired_positions(modified.drop_last(), max_save_time, now);
        match modified.last() {
            Some(m) => if expired_at(m as int, max_save_time as int, now as int) {
                earlier.push((modified.len() - 1) as usize)
            } else {
                earlier
            },
            None => earlier,
        }
    }
}

/// The positions of the scanned entries to remove.
pub fn expired_entries(modified: &Vec<Option<i128>>, max_save_time: u64, now: i128) -> (r: Vec<
    usize,
>)
    ensures
        r@ == expired_positions(modified@, max_save_time, now),
{
    let mut r: Vec<usize> = Vec::new();
    let mut i: usize = 0;
    while i < modified.len()
        invariant
            i <= modified@.len(),
            r@ == expired_positions(modified@.subrange(0, i as int), max_save_time, now),
        decreases modified@.len() - i,
    {
        let ghost prefix = modified@.subrange(0, i as int + 1);
        assert(prefix.drop_last() =~= modified@.subrange(0, i as int));
        assert(prefix.last() == modified@[i as int]);
        match modified[i] {
            Some(m) => {
                if is_expired(m, max_save_time, now) {
                    r.push(i);
                }
            },
            None => {},
        }
        i += 1;
    }
    assert(modified@.subrange(0, modified@.len() as int) =~= modified@);
    r
}

/// Where a sweeper stands.
#[derive(PartialEq, Eq, Structural, Clone, Copy, Debug)]
pub enum SweepPhase {
    /// Not started yet.
    Idle,
    /// Waiting for the scan of the root.
    Scanning,
    /// Removing the expired entries of the last scan, one at a time.
    Deleting,
    /// Waiting out the interval before the next scan.
    Sleeping,
    /// Cancelled; does nothing more.
    Stopped,
}

/// What the caller observed since the last action.
pub enum SweepEvent {
    /// The sweeper is to begin.
    Start,
    /// The scan is over: the modification time of each entry found (`None`
    /// where it could not be read), and the time of the scan.
    Scanned { modified: Vec<Option<i128>>, now: i128 },
    /// The entry last named was removed.
    Removed,
    /// The entry last named could not be removed.
    RemoveFailed,
    /// The interval is over.
    Woke,
    /// The service is shutting down.
    Cancelled,
}

/// What the caller does next.
#[derive(PartialEq, Eq, Structural, Clone, Copy, Debug)]
pub enum SweepAction {
    /// Walk the root and report every entry's modification time.
    Scan,
    /// Remove the entry at this position of the last scan.
    Remove(usize),
    /// Sleep this many seconds.
    Sleep(u64),
    /// End the task.
    Stop,
    /// Nothing: the event does not apply in this phase.
    Nothing,
}

/// The sweeper of one storage root.
pub struct Sweeper {
    /// The retention window in seconds.
    pub max_save_time: u64,
    /// The pause between two scans in seconds.
    pub sleep_time: u64,
    pub phase: SweepPhase,
    /// Positions in the last scan of the entries to remove.
    pub pending: Vec<usize>,
    /// How many of `pending` have been named for removal, less one.
    pub next: usize,
}

pub ghost struct SweeperView {
    pub max_save_time: u64,
    pub sleep_time: u64,
    pub phase: SweepPhase,
    pub pending: Seq<usize>,
    pub next: nat,
}

impl View for Sweeper {
    type V = SweeperView;

    open spec fn view(&self) -> SweeperView {
        SweeperView {
            max_save_time: self.max_save_time,
            sleep_time: self.sleep_time,
            phase: self.phase,
            pending: self.pending@,
            next: self.next as nat,
        }
    }
}

/// While removing, the entry being removed is one of the pending ones.
pub open spec fn sweeper_wf(s: SweeperView) -> bool {
    s.phase == SweepPhase::Deleting ==> s.next < s.pending.len()
}

/// One transition of a sweeper: the next state and action after an event.
pub open spec fn sweep_step(s: SweeperView, e: &SweepEvent) -> (SweeperView, SweepAction) {
    match (s.phase, e) {
        (SweepPhase::Stopped, _) => (s, SweepAction::Nothing),
        (_, SweepEvent::Cancelled) => (
            SweeperView { phase: SweepPhase::Stopped, ..s },
            SweepAction::Stop,
        ),
        (SweepPhase::Idle, SweepEvent::Start) => (
            SweeperView { phase: SweepPhase::Scanning, ..s },
            SweepAction::Scan,
        ),
        (SweepPhase::Sleeping, SweepEvent::Woke) => (
            SweeperView { phase: SweepPhase::Scanning, ..s },
            SweepAction::Scan,
        ),
        (SweepPhase::Scanning, SweepEvent::Scanned { modified, now }) => {
            let pending = expired_positions(modified@, s.max_save_time, *now);
            if pending.len() == 0 {
                (
                    SweeperView { phase: SweepPhase::Sleeping, pending, next: 0, ..s },
                    SweepAction::Sleep(s.sleep_time),
                )
            } else {
                (
                    SweeperView { phase: SweepPhase::Deleting, pending, next: 0, ..s },
                    SweepAction::Remove(pending[0]),
                )
            }
        },
        (SweepPhase::Deleting, SweepEvent::Removed)
        | (SweepPhase::Deleting, SweepEvent::RemoveFailed) => if s.next + 1 < s.pending.len() {
            (
                SweeperView { next: s.next + 1, ..s },
                SweepAction::Remove(s.pending[s.next + 1 as int]),
            )
        } else {
            (
                SweeperView { phase: SweepPhase::Sleeping, next: s.next + 1, ..s },
                SweepAction::Sleep(s.sleep_time),
            )
        },
        _ => (s, SweepAction::Nothing),
    }
}

impl Sweeper {
    /// A sweeper that has not started, with its window and its pause.
    pub fn new(max_save_time: u64, sleep_time: u64) -> (r: Sweeper)
        ensures
            r@.max_save_time == max_save_time,
            r@.sleep_time == sleep_time,
            r@.phase == SweepPhase::Idle,
            r@.pending.len() == 0,
            r@.next == 0,
            sweeper_wf(r@),
    {
        Sweeper { max_save_time, sleep_time, phase: SweepPhase::Idle, pending: Vec::new(), next: 0 }
    }

    /// Takes what the caller observed and says what to do next.
    pub fn step(&mut self, e: SweepEvent) -> (r: SweepAction)
        requires
            sweeper_wf(old(self)@),
        ensures
            (final(self)@, r) == sweep_step(old(self)@, &e),
            sweeper_wf(final(self)@),
    {
        match (self.phase, e) {
            (SweepPhase::Stopped, _) => SweepAction::Nothing,
            (_, SweepEvent::Cancelled) => {
                self.phase = SweepPhase::Stopped;
                SweepAction::Stop
            },
            (SweepPhase::Idle, SweepEvent::Start) | (SweepPhase::Sleeping, SweepEvent::Woke) => {
                self.phase = SweepPhase::Scanning;
                SweepAction::Scan
            },
            (SweepPhase::Scanning, SweepEvent::Scanned { modified, now }) => {
                self.pending = expired_entries(&modified, self.max_save_time, now);
                self.next = 0;
                if self.pending.len() == 0 {
                    self.phase = SweepPhase::Sleeping;
                    SweepAction::Sleep(self.sleep_time)
                } else {
                    self.phase = SweepPhase::Deleting;
                    SweepAction::Remove(self.pending[0])
                }
            },
            (SweepPhase::Deleting, SweepEvent::Removed)
            | (SweepPhase::Deleting, SweepEvent::RemoveFailed) => {
                let len = self.pending.len();
                self.next = self.next + 1;
                if self.next < len {
                    SweepAction::Remove(self.pending[self.next])
                } else {
                    self.phase = SweepPhase::Sleeping;
                    SweepAction::Sleep(self.sleep_time)
                }
            },
            _ => SweepAction::Nothing,
        }
    }
}

/// The state reached and the actions issued when a sweeper in state `s` sees
/// `events` in order.
pub open spec fn sweep_run(s: SweeperView, events: Seq<SweepEvent>) -> (SweeperView, Seq<SweepAction>)
    decreases events.len(),
{
    if events.len() == 0 {
        (s, Seq::empty())
    } else {
        let (next, action) = sweep_step(s, &events[0]);
        let (last, rest) = sweep_run(next, events.drop_first());
        (last, seq![action] + rest)
    }
}

/// Whether an event reports the outcome of a removal.
pub open spec fn is_removal_outcome(e: &SweepEvent) -> bool {
    e is Removed || e is RemoveFailed
}

/// An entry modified one second before the window ends at `now` is expired;
/// one modified one second after that is not.
pub proof fn lemma_expiry_boundary(now: int, max_save_time: int)
    ensures
        expired_at(now - max_save_time * NANOS_PER_SEC - NANOS_PER_SEC, max_save_time, now),
        !expired_at(now - max_save_time * NANOS_PER_SEC + NANOS_PER_SEC, max_save_time, now),
{
}

/// A failed removal leads to the same next state and action as a successful
/// one: one entry that cannot be removed stops neither the others nor the
/// sweeper.
pub proof fn lemma_removal_failure_isolated(s: SweeperView)
    requires
        s.phase == SweepPhase::Deleting,
    ensures
        sweep_step(s, &SweepEvent::Removed) == sweep_step(s, &SweepEvent::RemoveFailed),
{
}

proof fn lemma_deleting_run(s: SweeperView, outcomes: Seq<SweepEvent>)
    requires
        s.phase == SweepPhase::Deleting,
        s.next < s.pending.len(),
        outcomes.len() == s.pending.len() - s.next,
        forall|i: int| 0 <= i < outcomes.len() ==> is_removal_outcome(#[trigger] &outcomes[i]),
    ensures
        ({
            let (last, actions) = sweep_run(s, outcomes);
            &&& actions.len() == outcomes.len()
            &&& forall|i: int|
                0 <= i < actions.len() - 1 ==> #[trigger] actions[i] == SweepAction::Remove(
                    s.pending[s.next + 1 + i],
                )
            &&& actions.last() == SweepAction::Sleep(s.sleep_time)
            &&& last.phase == SweepPhase::Sleeping
            &&& last.pending == s.pending
        }),
    decreases outcomes.len(),
{
    let (s1, a1) = sweep_step(s, &outcomes[0]);
    let tail = outcomes.drop_first();
    if s.next + 1 < s.pending.len() {
        assert forall|i: int| 0 <= i < tail.len() implies is_removal_outcome(#[trigger] &tail[i]) by {
            assert(tail[i] == outcomes[i + 1]);
        }
        lemma_deleting_run(s1, tail);
        let rest = sweep_run(s1, tail).1;
        let actions = seq![a1] + rest;
        assert forall|i: int| 0 <= i < actions.len() - 1 implies #[trigger] actions[i]
            == SweepAction::Remove(s.pending[s.next + 1 + i]) by {
            if i > 0 {
                assert(actions[i] == rest[i - 1]);
            }
        }
    } else {
        assert(tail =~= Seq::<SweepEvent>::empty());
        assert(sweep_run(s1, tail) == (s1, Seq::<SweepAction>::empty()));
    }
}

/// An entry's position is selected for removal exactly when its modification
/// time was read and it has outlived the window.
pub proof fn lemma_expired_positions_exact(
    modified: Seq<Option<i128>>,
    max_save_time: u64,
    now: i128,
    k: int,
)
    requires
        modified.len() <= usize::MAX,
        0 <= k < modified.len(),
    ensures
        expired_positions(modified, max_save_time, now).contains(k as usize) <==> (
        modified[k] is Some && expired_at(modified[k]->0 as int, max_save_time as int, now as int)),
    decreases modified.len(),
{
    let front = modified.drop_last();
    let earlier = expired_positions(front, max_save_time, now);
    let all = expired_positions(modified, max_save_time, now);
    lemma_expired_positions_below(front, max_save_time, now);
    if k < modified.len() - 1 {
        lemma_expired_positions_exact(front, max_save_time, now, k);
        assert(front[k] == modified[k]);
        if all.contains(k as usize) {
            let j = choose|j: int| 0 <= j < all.len() && all[j] == k as usize;
            if j < earlier.len() {
                assert(all[j] == earlier[j]);
            }
        }
        if earlier.contains(k as usize) {
            let j = choose|j: int| 0 <= j < earlier.len() && earlier[j] == k as usize;
            assert(all[j] == earlier[j]);
        }
    } else {
        if all.contains(k as usize) {
            let j = choose|j: int| 0 <= j < all.len() && all[j] == k as usize;
            if j < earlier.len() {
                assert(all[j] == earlier[j]);
            }
        }
        if modified[k] is Some && expired_at(modified[k]->0 as int, max_save_time as int, now as int) {
            assert(all[all.len() - 1] == k as usize);
        }
    }
}

proof fn lemma_expired_positions_below(modified: Seq<Option<i128>>, max_save_time: u64, now: i128)
    requires
        modified.len() <= usize::MAX,
    ensures
        forall|j: int|
            0 <= j < expired_positions(modified, max_save_time, now).len() ==> (#[trigger] expired_positions(
                modified,
                max_save_time,
                now,
            )[j] as int) < modified.len(),
    decreases modified.len(),
{
    if modified.len() > 0 {
        let front = modified.drop_last();
        lemma_expired_positions_below(front, max_save_time, now);
        let earlier = expired_positions(front, max_save_time, now);
        let all = expired_positions(modified, max_save_time, now);
        assert forall|j: int| 0 <= j < all.len() implies (#[trigger] all[j] as int) < modified.len() by {
            if j < earlier.len() {
                assert(all[j] == earlier[j]);
            } else {
                assert(all[j] == (modified.len() - 1) as usize);
            }
        }
    }
}

/// After a scan, the selected entries (see [`lemma_expired_positions_exact`])
/// are named for removal one after the other, in scan order, whichever
/// removals succeed or fail, and the sweeper then sleeps.
pub proof fn lemma_every_expired_entry_removed(
    s: SweeperView,
    modified: Vec<Option<i128>>,
    now: i128,
    outcomes: Seq<SweepEvent>,
)
    requires
        s.phase == SweepPhase::Scanning,
        outcomes.len() == expired_positions(modified@, s.max_save_time, now).len(),
        forall|i: int| 0 <= i < outcomes.len() ==> is_removal_outcome(#[trigger] &outcomes[i]),
    ensures
        ({
            let expired = expired_positions(modified@, s.max_save_time, now);
            let (last, actions) = sweep_run(
                s,
                seq![SweepEvent::Scanned { modified, now }] + outcomes,
            );
            &&& actions.len() == expired.len() + 1
            &&& forall|i: int| 0 <= i < expired.len() ==> #[trigger] actions[i] == SweepAction::Remove(expired[i])
            &&& actions.last() == SweepAction::Sleep(s.sleep_time)
            &&& last.phase == SweepPhase::Sleeping
        }),
{
    let expired = expired_positions(modified@, s.max_save_time, now);
    let events = seq![SweepEvent::Scanned { modified, now }] + outcomes;
    assert(events.drop_first() =~= outcomes);
    let (s1, a1) = sweep_step(s, &events[0]);
    if expired.len() == 0 {
        assert(outcomes =~= Seq::<SweepEvent>::empty());
        assert(sweep_run(s1, outcomes) == (s1, Seq::<SweepAction>::empty()));
    } else {
        lemma_deleting_run(s1, outcomes);
        let rest = sweep_run(s1, outcomes).1;
        let actions = seq![a1] + rest;
        assert forall|i: int| 0 <= i < expired.len() implies #[trigger] actions[i]
            == SweepAction::Remove(expired[i]) by {
            if i > 0 {
                assert(actions[i] == rest[i - 1]);
            }
        }
    }
}

} // verus!
