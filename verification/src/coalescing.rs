//! Limits on how often repeated window events reach the borders.
//!
//! Times are nanoseconds of a monotonic clock.

use vstd::prelude::*;

use crate::border_registry::WindowIdentity;
use crate::sorted::insert_identity;

verus! {

pub const REORDER_DEBOUNCE_INTERVAL_MS: u64 = 16;

pub const LOCATION_COALESCE_INTERVAL_MS: u64 = 16;

pub const REORDER_DEBOUNCE_INTERVAL_NS: u64 = 16_000_000;

pub const LOCATION_COALESCE_INTERVAL_NS: u64 = 16_000_000;

pub const NANOS_PER_MILLI: u64 = 1_000_000;

/// How long ago `since` was, zero where it lies ahead.
pub open spec fn elapsed_ns(since: u64, now: u64) -> int {
    if now >= since {
        now - since
    } else {
        0
    }
}

/// The delay that a timer is armed with: whole milliseconds, at least one.
pub open spec fn delay_ms(delay_ns: u64) -> u32 {
    if delay_ns < NANOS_PER_MILLI {
        1
    } else if delay_ns / NANOS_PER_MILLI > u32::MAX {
        u32::MAX
    } else {
        (delay_ns / NANOS_PER_MILLI) as u32
    }
}

pub fn timer_delay_ms(delay_ns: u64) -> (delay: u32)
    ensures
        delay == delay_ms(delay_ns),
{
    let whole: u64 = delay_ns / NANOS_PER_MILLI;
    if whole < 1 {
        1
    } else if whole > u32::MAX as u64 {
        u32::MAX
    } else {
        whole as u32
    }
}

#[derive(Debug, Clone, Copy, PartialEq, Eq, Structural)]
pub enum ReorderAction {
    FlushNow,
    /// Flush once this many nanoseconds have passed.
    ArmTimer(u64),
    Coalesced,
}

/// Lets one reorder through per interval and merges the rest into one trailing flush.
#[derive(Debug, Clone, Copy, PartialEq, Eq, Structural)]
pub struct ReorderCoalescer {
    pub last_flush: Option<u64>,
    pub timer_armed: bool,
    pub pending: bool,
}

impl Default for ReorderCoalescer {
    fn default() -> (coalescer: Self)
        ensures
            coalescer == Self::idle(),
    {
        ReorderCoalescer { last_flush: None, timer_armed: false, pending: false }
    }
}

impl ReorderCoalescer {
    pub open spec fn idle() -> Self {
        ReorderCoalescer { last_flush: None, timer_armed: false, pending: false }
    }

    /// A flush is owed exactly while the timer runs that will bring it.
    pub open spec fn wf(self) -> bool {
        self.pending == self.timer_armed
    }

    pub open spec fn after_event(self, now: u64) -> (Self, ReorderAction) {
        if self.timer_armed {
            (ReorderCoalescer { pending: true, ..self }, ReorderAction::Coalesced)
        } else if self.last_flush is Some && elapsed_ns(self.last_flush->0, now)
            < REORDER_DEBOUNCE_INTERVAL_NS {
            (
                ReorderCoalescer { pending: true, timer_armed: true, ..self },
                ReorderAction::ArmTimer(
                    (REORDER_DEBOUNCE_INTERVAL_NS - elapsed_ns(self.last_flush->0, now)) as u64,
                ),
            )
        } else {
            (ReorderCoalescer { last_flush: Some(now), ..self }, ReorderAction::FlushNow)
        }
    }

    pub open spec fn after_timer(self, now: u64) -> (Self, bool) {
        if self.pending {
            (
                ReorderCoalescer { last_flush: Some(now), timer_armed: false, pending: false },
                true,
            )
        } else {
            (ReorderCoalescer { timer_armed: false, ..self }, false)
        }
    }

    pub fn on_event(&mut self, now: u64) -> (action: ReorderAction)
        ensures
            (*final(self), action) == old(self).after_event(now),
            old(self).wf() ==> final(self).wf(),
    {
        if self.timer_armed {
            self.pending = true;
            return ReorderAction::Coalesced;
        }
        if let Some(last_flush) = self.last_flush {
            let elapsed: u64 = now.saturating_sub(last_flush);
            if elapsed < REORDER_DEBOUNCE_INTERVAL_NS {
                self.pending = true;
                self.timer_armed = true;
                return ReorderAction::ArmTimer(REORDER_DEBOUNCE_INTERVAL_NS - elapsed);
            }
        }
        self.last_flush = Some(now);
        ReorderAction::FlushNow
    }

    /// The timer has run out. Says whether a flush is owed.
    pub fn on_timer(&mut self, now: u64) -> (flush: bool)
        ensures
            (*final(self), flush) == old(self).after_timer(now),
            old(self).wf() ==> final(self).wf(),
    {
        self.timer_armed = false;
        if !self.pending {
            return false;
        }
        self.pending = false;
        self.last_flush = Some(now);
        true
    }

    pub fn reset(&mut self)
        ensures
            *final(self) == Self::idle(),
    {
        *self = Self::default();
    }
}

/// Windows for which a location change is on its way to the runtime. Kept in ascending order.
#[derive(Debug)]
pub struct IdentityCommandGate {
    pub pending: Vec<WindowIdentity>,
}

impl View for IdentityCommandGate {
    type V = Set<WindowIdentity>;

    open spec fn view(&self) -> Set<WindowIdentity> {
        self.pending@.to_set()
    }
}

impl Default for IdentityCommandGate {
    fn default() -> (gate: Self)
        ensures
            gate.wf(),
            gate@ == Set::<WindowIdentity>::empty(),
    {
        let gate = IdentityCommandGate { pending: Vec::new() };
        assert(gate@ =~= Set::empty());
        gate
    }
}

/// The place of `identity` in a list, if it is there.
fn position_of(identities: &Vec<WindowIdentity>, identity: WindowIdentity) -> (at: Option<usize>)
    ensures
        match at {
            Some(i) => i < identities@.len() && identities@[i as int] == identity,
            None => !identities@.contains(identity),
        },
{
    for i in 0..identities.len()
        invariant
            forall|j: int| 0 <= j < i ==> identities@[j] != identity,
    {
        if identities[i] == identity {
            return Some(i);
        }
    }
    None
}

impl IdentityCommandGate {
    pub open spec fn wf(&self) -> bool {
        crate::sorted::ascending_identities(self.pending@)
    }

    /// Takes the one slot that `identity` has. Fails where it is taken.
    pub fn acquire(&mut self, identity: WindowIdentity) -> (acquired: bool)
        requires
            old(self).wf(),
        ensures
            final(self).wf(),
            acquired == !old(self)@.contains(identity),
            final(self)@ == old(self)@.insert(identity),
    {
        if position_of(&self.pending, identity).is_some() {
            assert(self@.insert(identity) =~= self@);
            return false;
        }
        insert_identity(&mut self.pending, identity);
        assert(self@ =~= old(self)@.insert(identity));
        true
    }

    pub fn release(&mut self, identity: WindowIdentity)
        requires
            old(self).wf(),
        ensures
            final(self).wf(),
            final(self)@ == old(self)@.remove(identity),
    {
        if let Some(at) = position_of(&self.pending, identity) {
            let ghost before = self.pending@;
            self.pending.remove(at);
            proof {
                let after = self.pending@;
                assert forall|w: WindowIdentity| after.contains(w) == (before.contains(w) && w
                    != identity) by {
                    if before.contains(w) && w != identity {
                        let i = choose|i: int| 0 <= i < before.len() && before[i] == w;
                        assert(after[if i < at { i } else { i - 1 }] == w);
                    }
                    if after.contains(w) {
                        let i = choose|i: int| 0 <= i < after.len() && after[i] == w;
                        assert(before[if i < at { i } else { i + 1 }] == w);
                        assert(before[at as int] == identity);
                    }
                }
            }
        }
        assert(self@ =~= old(self)@.remove(identity));
    }

    pub fn clear(&mut self)
        ensures
            final(self).wf(),
            final(self)@ == Set::<WindowIdentity>::empty(),
    {
        self.pending.clear();
        assert(self@ =~= Set::empty());
    }
}

#[derive(Debug, Clone, Copy, PartialEq, Eq, Structural)]
pub enum LocationAction {
    FlushNow,
    /// Flush once this many nanoseconds have passed.
    ArmTimer(u64),
    Coalesced,
}

/// Lets one location change through per interval and keeps the windows that moved meanwhile for
/// one trailing flush.
#[derive(Debug)]
pub struct LocationCoalescer {
    pub last_flush: Option<u64>,
    pub timer_armed: bool,
    pub dirty: Vec<WindowIdentity>,
}

/// What a `LocationCoalescer` holds.
#[verifier::ext_equal]
pub struct LocationView {
    pub last_flush: Option<u64>,
    pub timer_armed: bool,
    pub dirty: Set<WindowIdentity>,
}

impl LocationView {
    pub open spec fn idle() -> Self {
        LocationView { last_flush: None, timer_armed: false, dirty: Set::empty() }
    }

    pub open spec fn after_event(self, identity: WindowIdentity, now: u64) -> (
        Self,
        LocationAction,
    ) {
        if self.timer_armed {
            (
                LocationView { dirty: self.dirty.insert(identity), ..self },
                LocationAction::Coalesced,
            )
        } else if self.last_flush is Some && elapsed_ns(self.last_flush->0, now)
            < LOCATION_COALESCE_INTERVAL_NS {
            (
                LocationView { dirty: self.dirty.insert(identity), timer_armed: true, ..self },
                LocationAction::ArmTimer(
                    (LOCATION_COALESCE_INTERVAL_NS - elapsed_ns(self.last_flush->0, now)) as u64,
                ),
            )
        } else {
            (LocationView { last_flush: Some(now), ..self }, LocationAction::FlushNow)
        }
    }

    pub open spec fn after_timer(self, now: u64) -> Self {
        LocationView {
            last_flush: if self.dirty == Set::<WindowIdentity>::empty() {
                self.last_flush
            } else {
                Some(now)
            },
            timer_armed: false,
            dirty: Set::empty(),
        }
    }
}

impl View for LocationCoalescer {
    type V = LocationView;

    open spec fn view(&self) -> LocationView {
        LocationView {
            last_flush: self.last_flush,
            timer_armed: self.timer_armed,
            dirty: self.dirty@.to_set(),
        }
    }
}

impl Default for LocationCoalescer {
    fn default() -> (coalescer: Self)
        ensures
            coalescer.wf(),
            coalescer@ == LocationView::idle(),
    {
        let coalescer = LocationCoalescer {
            last_flush: None,
            timer_armed: false,
            dirty: Vec::new(),
        };
        assert(coalescer@ =~= LocationView::idle());
        coalescer
    }
}

/// A set of identities as a list: each once, in ascending order.
pub open spec fn lists_identities(list: Seq<WindowIdentity>, set: Set<WindowIdentity>) -> bool {
    crate::sorted::ascending_identities(list) && list.to_set() == set
}

impl LocationCoalescer {
    /// Windows wait only while the timer runs that will flush them, and at least one does then.
    pub open spec fn wf(&self) -> bool {
        &&& crate::sorted::ascending_identities(self.dirty@)
        &&& self.timer_armed == (self.dirty@.len() > 0)
    }

    pub fn on_event(&mut self, identity: WindowIdentity, now: u64) -> (action: LocationAction)
        requires
            old(self).wf(),
        ensures
            final(self).wf(),
            (final(self)@, action) == old(self)@.after_event(identity, now),
    {
        if self.timer_armed {
            insert_identity(&mut self.dirty, identity);
            proof {
                assert(self.dirty@.contains(identity));
                assert(self@.dirty =~= old(self)@.dirty.insert(identity));
            }
            return LocationAction::Coalesced;
        }
        if let Some(last_flush) = self.last_flush {
            let elapsed: u64 = now.saturating_sub(last_flush);
            if elapsed < LOCATION_COALESCE_INTERVAL_NS {
                insert_identity(&mut self.dirty, identity);
                self.timer_armed = true;
                proof {
                    assert(self.dirty@.contains(identity));
                    assert(self@.dirty =~= old(self)@.dirty.insert(identity));
                }
                return LocationAction::ArmTimer(LOCATION_COALESCE_INTERVAL_NS - elapsed);
            }
        }
        self.last_flush = Some(now);
        LocationAction::FlushNow
    }

    /// The timer has run out. Gives the windows that moved meanwhile.
    pub fn on_timer(&mut self, now: u64) -> (moved: Vec<WindowIdentity>)
        requires
            old(self).wf(),
        ensures
            final(self).wf(),
            final(self)@ == old(self)@.after_timer(now),
            lists_identities(moved@, old(self)@.dirty),
    {
        self.timer_armed = false;
        if self.dirty.len() == 0 {
            assert(old(self)@.dirty =~= Set::empty());
            assert(self@ =~= old(self)@.after_timer(now));
            let moved: Vec<WindowIdentity> = Vec::new();
            assert(moved@ =~= old(self).dirty@);
            return moved;
        }
        assert(old(self)@.dirty.contains(old(self).dirty@[0]));
        self.last_flush = Some(now);
        let mut moved: Vec<WindowIdentity> = Vec::new();
        moved.append(&mut self.dirty);
        assert(moved@ =~= old(self).dirty@);
        assert(self@.dirty =~= Set::empty());
        moved
    }

    pub fn reset(&mut self)
        ensures
            final(self).wf(),
            final(self)@ == LocationView::idle(),
    {
        *self = Self::default();
    }
}

/// An event is flushed directly only once an interval has passed since the last flush, whether an
/// event or the timer brought that one.
pub proof fn law_reorder_flushes_are_spaced(coalescer: ReorderCoalescer, first: u64, second: u64)
    ensures
        coalescer.after_event(first).1 == ReorderAction::FlushNow
            && coalescer.after_event(first).0.after_event(second).1 == ReorderAction::FlushNow
            ==> first + REORDER_DEBOUNCE_INTERVAL_NS <= second,
        coalescer.after_timer(first).1 && coalescer.after_timer(first).0.after_event(second).1
            == ReorderAction::FlushNow ==> first + REORDER_DEBOUNCE_INTERVAL_NS <= second,
{
}

/// An event is never lost: it is flushed at once, or the timer that is running then flushes it.
pub proof fn law_reorder_events_are_not_lost(coalescer: ReorderCoalescer, event: u64, timer: u64)
    ensures
        coalescer.after_event(event).1 == ReorderAction::FlushNow || {
            let waiting = coalescer.after_event(event).0;
            waiting.timer_armed && waiting.after_timer(timer).1
        },
{
}

/// The coalescer after events at these times, in this order.
pub open spec fn after_reorder_events(coalescer: ReorderCoalescer, times: Seq<u64>) -> ReorderCoalescer
    decreases times.len(),
{
    if times.len() == 0 {
        coalescer
    } else {
        after_reorder_events(coalescer, times.drop_last()).after_event(times.last()).0
    }
}

/// However many events come in while the timer runs, each is merged, no second timer is armed, and
/// they cause one flush: the one when the timer has run out. Without a further event the next
/// run-out flushes nothing.
pub proof fn law_reorder_burst_flushes_once(
    coalescer: ReorderCoalescer,
    times: Seq<u64>,
    next: u64,
    timer: u64,
    later: u64,
)
    requires
        coalescer.wf(),
        coalescer.timer_armed,
    ensures
        ({
            let waiting = after_reorder_events(coalescer, times);
            &&& waiting == coalescer
            &&& waiting.after_event(next).1 == ReorderAction::Coalesced
            &&& waiting.after_timer(timer).1
            &&& !waiting.after_timer(timer).0.after_timer(later).1
        }),
    decreases times.len(),
{
    if times.len() > 0 {
        law_reorder_burst_flushes_once(coalescer, times.drop_last(), times.last(), timer, later);
    }
}

/// A location change is flushed directly only once an interval has passed since the last flush,
/// whether an event or the timer brought that one.
pub proof fn law_location_flushes_are_spaced(
    coalescer: LocationView,
    first: (WindowIdentity, u64),
    second: (WindowIdentity, u64),
)
    ensures
        coalescer.after_event(first.0, first.1).1 == LocationAction::FlushNow
            && coalescer.after_event(first.0, first.1).0.after_event(second.0, second.1).1
            == LocationAction::FlushNow ==> first.1 + LOCATION_COALESCE_INTERVAL_NS <= second.1,
        coalescer.dirty != Set::<WindowIdentity>::empty() && coalescer.after_timer(
            first.1,
        ).after_event(second.0, second.1).1 == LocationAction::FlushNow ==> first.1
            + LOCATION_COALESCE_INTERVAL_NS <= second.1,
{
}

/// A moved window is never lost: it is flushed at once, or it waits for the timer that is running
/// then. Windows that wait already go on waiting, and a handle that another window has taken over
/// does not merge the two.
pub proof fn law_location_events_are_not_lost(
    coalescer: LocationView,
    identity: WindowIdentity,
    other: WindowIdentity,
    now: u64,
)
    ensures
        ({
            let (after, action) = coalescer.after_event(identity, now);
            &&& action == LocationAction::FlushNow || (after.timer_armed && after.dirty.contains(
                identity,
            ))
            &&& other != identity ==> after.dirty.contains(other) == coalescer.dirty.contains(other)
            &&& coalescer.dirty.subset_of(after.dirty)
        }),
{
}

/// The coalescer after these windows have moved, in this order.
pub open spec fn after_moves(coalescer: LocationView, moves: Seq<(WindowIdentity, u64)>) -> LocationView
    decreases moves.len(),
{
    if moves.len() == 0 {
        coalescer
    } else {
        after_moves(coalescer, moves.drop_last()).after_event(moves.last().0, moves.last().1).0
    }
}

/// However often windows move while the timer runs, the flush that follows brings exactly the
/// windows that were waiting or moved, each once. The next one brings none.
pub proof fn law_location_burst_flushes_each_window_once(
    coalescer: LocationView,
    moves: Seq<(WindowIdentity, u64)>,
    identity: WindowIdentity,
    timer: u64,
)
    requires
        coalescer.timer_armed,
    ensures
        ({
            let waiting = after_moves(coalescer, moves);
            &&& waiting.timer_armed
            &&& waiting.last_flush == coalescer.last_flush
            &&& waiting.dirty.contains(identity) <==> coalescer.dirty.contains(identity) || exists|
                i: int,
            |
                0 <= i < moves.len() && (#[trigger] moves[i]).0 == identity
            &&& waiting.after_timer(timer).dirty == Set::<WindowIdentity>::empty()
        }),
    decreases moves.len(),
{
    if moves.len() > 0 {
        let shorter = moves.drop_last();
        law_location_burst_flushes_each_window_once(coalescer, shorter, identity, timer);
        assert(moves[moves.len() - 1] == moves.last());
        if coalescer.timer_armed && !coalescer.dirty.contains(identity) {
            assert forall|i: int| 0 <= i < shorter.len() implies #[trigger] shorter[i] == moves[i] by {}
            if exists|i: int| 0 <= i < moves.len() && (#[trigger] moves[i]).0 == identity {
                let i = choose|i: int| 0 <= i < moves.len() && (#[trigger] moves[i]).0 == identity;
                if i < shorter.len() {
                    assert(shorter[i].0 == identity);
                }
            }
            if exists|i: int| 0 <= i < shorter.len() && (#[trigger] shorter[i]).0 == identity {
                let i = choose|i: int|
                    0 <= i < shorter.len() && (#[trigger] shorter[i]).0 == identity;
                assert(moves[i].0 == identity);
            }
        }
    }
}

/// A list in ascending order names nothing twice.
pub proof fn law_ascending_lists_name_nothing_twice(list: Seq<WindowIdentity>)
    requires
        crate::sorted::ascending_identities(list),
    ensures
        list.no_duplicates(),
{
}

/// A reorder that nothing holds back is flushed at once: no timer runs, and sixteen milliseconds have
/// passed since the last flush, if there was one. One that comes sooner arms the timer for the rest
/// of the sixteen milliseconds, no longer and no shorter.
pub proof fn law_reorders_wait_no_longer_than_needed(coalescer: ReorderCoalescer, now: u64)
    ensures
        ({
            let (after, action) = coalescer.after_event(now);
            let last = coalescer.last_flush;
            let rested = last is None || now - last->0 >= 16_000_000;
            &&& action is Coalesced <==> coalescer.timer_armed
            &&& action is FlushNow <==> !coalescer.timer_armed && rested
            &&& action is FlushNow ==> after.last_flush == Some(now) && after.timer_armed
                == coalescer.timer_armed && after.pending == coalescer.pending
            &&& action is ArmTimer <==> !coalescer.timer_armed && !rested
            &&& action matches ReorderAction::ArmTimer(delay) ==> {
                &&& 0 < delay <= 16_000_000
                &&& now >= last->0 ==> now + delay == last->0 + 16_000_000
                &&& now < last->0 ==> delay == 16_000_000
                &&& after.timer_armed
            }
            &&& !(action is FlushNow) ==> after.pending && after.last_flush == last
        }),
{
}

/// Once the timer has run out it runs no longer, and nothing waits for it. What waited is flushed
/// then, and the next sixteen milliseconds are counted from there.
pub proof fn law_reorder_timer_settles(coalescer: ReorderCoalescer, now: u64)
    ensures
        ({
            let (after, flush) = coalescer.after_timer(now);
            &&& !after.timer_armed && !after.pending
            &&& flush <==> coalescer.pending
            &&& flush ==> after.last_flush == Some(now)
            &&& !flush ==> after.last_flush == coalescer.last_flush
        }),
{
}

/// A move that nothing holds back is flushed at once: no timer runs, and sixteen milliseconds have
/// passed since the last flush, if there was one. One that comes sooner arms the timer for the rest
/// of the sixteen milliseconds, no longer and no shorter.
pub proof fn law_moves_wait_no_longer_than_needed(
    coalescer: LocationView,
    identity: WindowIdentity,
    now: u64,
)
    ensures
        ({
            let (after, action) = coalescer.after_event(identity, now);
            let last = coalescer.last_flush;
            let rested = last is None || now - last->0 >= 16_000_000;
            &&& action is Coalesced <==> coalescer.timer_armed
            &&& action is FlushNow <==> !coalescer.timer_armed && rested
            &&& action is FlushNow ==> after.last_flush == Some(now) && after.dirty
                == coalescer.dirty && after.timer_armed == coalescer.timer_armed
            &&& action is ArmTimer <==> !coalescer.timer_armed && !rested
            &&& action matches LocationAction::ArmTimer(delay) ==> {
                &&& 0 < delay <= 16_000_000
                &&& now >= last->0 ==> now + delay == last->0 + 16_000_000
                &&& now < last->0 ==> delay == 16_000_000
            }
            &&& !(action is FlushNow) ==> after.timer_armed && after.last_flush == last
                && after.dirty == coalescer.dirty.insert(identity)
        }),
{
}

/// Once the timer has run out it runs no longer, and nothing waits for it. Where something was
/// flushed, the next sixteen milliseconds are counted from there.
pub proof fn law_location_timer_settles(coalescer: LocationView, now: u64)
    ensures
        ({
            let after = coalescer.after_timer(now);
            &&& !after.timer_armed
            &&& after.dirty == Set::<WindowIdentity>::empty()
            &&& (exists|w: WindowIdentity| coalescer.dirty.contains(w)) ==> after.last_flush == Some(
                now,
            )
            &&& (forall|w: WindowIdentity| !coalescer.dirty.contains(w)) ==> after.last_flush
                == coalescer.last_flush
        }),
{
    if forall|w: WindowIdentity| !coalescer.dirty.contains(w) {
        assert(coalescer.dirty =~= Set::empty());
    }
}

/// Before anything has happened nothing waits, no timer runs, and the first event is flushed at
/// once.
pub proof fn law_idle_coalescers_flush_at_once(identity: WindowIdentity, now: u64)
    ensures
        ReorderCoalescer::idle().after_event(now).1 is FlushNow,
        LocationView::idle().after_event(identity, now).1 is FlushNow,
        !ReorderCoalescer::idle().pending,
        !ReorderCoalescer::idle().timer_armed,
        !LocationView::idle().timer_armed,
        LocationView::idle().dirty == Set::<WindowIdentity>::empty(),
{
}

/// A timer is armed for the whole milliseconds of the delay, for one at least, and never for less
/// time because the delay is longer.
pub proof fn law_timer_delay_is_whole_milliseconds(delay_ns: u64, longer_ns: u64)
    requires
        delay_ns <= longer_ns,
    ensures
        1 <= delay_ms(delay_ns) <= delay_ms(longer_ns),
        delay_ns < 2_000_000 ==> delay_ms(delay_ns) == 1,
        1_000_000 <= delay_ns && delay_ms(delay_ns) < u32::MAX ==> delay_ms(delay_ns) * 1_000_000
            <= delay_ns < (delay_ms(delay_ns) + 1) * 1_000_000,
        delay_ms(delay_ns) == u32::MAX ==> delay_ns >= u32::MAX * 1_000_000,
{
}

/// Time that has passed is never negative: it leads from the earlier moment to the later one, and a
/// moment that lies ahead is no time ago.
pub proof fn law_elapsed_time_leads_to_now(since: u64, now: u64, later: u64)
    requires
        now <= later,
    ensures
        since <= now ==> since + elapsed_ns(since, now) == now,
        now <= since ==> elapsed_ns(since, now) == 0,
        elapsed_ns(since, now) <= elapsed_ns(since, later),
        since <= now ==> elapsed_ns(since, later) == elapsed_ns(since, now) + elapsed_ns(now, later),
{
}

} // verus!
