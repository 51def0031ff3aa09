//! The per-session set of watched signals and its refresh once per tick.

use vstd::prelude::*;
use crate::duration::{nanos_of_frames, Duration};
use crate::watcher::{observe, observe_if_read, Pair, Watcher};

verus! {

/// The lifecycle of the external timer.
#[derive(Clone, Copy, Debug, PartialEq, Eq, Structural)]
pub enum TimerState {
    NotRunning,
    Running,
    Paused,
    Ended,
}

/// The identifier `SLUS_008.98`.
pub open spec fn first_gamecode() -> Seq<u8> {
    seq![0x53u8, 0x4c, 0x55, 0x53, 0x5f, 0x30, 0x30, 0x38, 0x2e, 0x39, 0x38]
}

/// The identifier `SLUS_011.99`.
pub open spec fn second_gamecode() -> Seq<u8> {
    seq![0x53u8, 0x4c, 0x55, 0x53, 0x5f, 0x30, 0x31, 0x31, 0x2e, 0x39, 0x39]
}

/// The identifiers under which the expected game is known.
pub open spec fn is_known_gamecode(code: Seq<u8>) -> bool {
    code == first_gamecode() || code == second_gamecode()
}

/// The item ids of an inventory: the first entry of each slot's record.
pub open spec fn item_ids(records: [[u16; 3]; 12]) -> Seq<u16> {
    Seq::new(12, |i: int| records[i][0])
}

/// An inventory of which every slot holds item id zero.
pub open spec fn no_items() -> Seq<u16> {
    Seq::new(12, |i: int| 0u16)
}

fn same_code(a: &[u8; 11], b: &[u8; 11]) -> (r: bool)
    ensures
        r == (a@ == b@),
{
    let mut i: usize = 0;
    while i < 11
        invariant
            i <= 11,
            forall|j: int| 0 <= j < i ==> a@[j] == b@[j],
        decreases 11 - i,
    {
        if a[i] != b[i] {
            return false;
        }
        i += 1;
    }
    assert(a@ =~= b@);
    true
}

/// Whether `code` identifies the expected game.
pub fn is_recognized(code: &[u8; 11]) -> (r: bool)
    ensures
        r == is_known_gamecode(code@),
{
    let first: [u8; 11] = [0x53, 0x4c, 0x55, 0x53, 0x5f, 0x30, 0x30, 0x38, 0x2e, 0x39, 0x38];
    let second: [u8; 11] = [0x53, 0x4c, 0x55, 0x53, 0x5f, 0x30, 0x31, 0x31, 0x2e, 0x39, 0x39];
    assert(first@ =~= first_gamecode());
    assert(second@ =~= second_gamecode());
    same_code(code, &first) || same_code(code, &second)
}

/// An inventory of which every slot holds item id zero.
pub fn empty_inventory() -> (ids: [u16; 12])
    ensures
        ids@ == no_items(),
{
    let ids: [u16; 12] = [0u16; 12];
    assert(ids@ =~= no_items());
    ids
}

/// Keeps of each inventory record the item id.
pub fn project_item_ids(records: &[[u16; 3]; 12]) -> (ids: [u16; 12])
    ensures
        ids@ == item_ids(*records),
{
    let mut ids: [u16; 12] = [0u16; 12];
    let mut i: usize = 0;
    while i < 12
        invariant
            i <= 12,
            forall|j: int| 0 <= j < i ==> ids@[j] == records@[j]@[0],
        decreases 12 - i,
    {
        ids[i] = records[i][0];
        i += 1;
    }
    assert(ids@ =~= item_ids(*records));
    ids
}

/// What one poll of the game's memory has read. A field that could not be
/// read is `None`.
#[derive(Clone, Copy, Debug, PartialEq, Eq)]
pub struct Sample {
    /// The game identifier.
    pub gamecode: Option<[u8; 11]>,
    /// Health.
    pub hp: Option<u16>,
    /// The in-game clock, in ticks.
    pub igt: Option<u32>,
    /// The id of the current room.
    pub map_id: Option<u16>,
    /// The records of the inventory slots.
    pub inventory: Option<[[u16; 3]; 12]>,
    /// The ending flag.
    pub ending: Option<u16>,
}

impl Sample {
    /// The identifier was read and names the expected game.
    pub open spec fn recognized(self) -> bool {
        self.gamecode matches Some(code) && is_known_gamecode(code@)
    }

    /// The in-game clock that was read, in nanoseconds: zero where it could
    /// not be read.
    pub open spec fn clock_nanos(self) -> int {
        match self.igt {
            Some(frames) => nanos_of_frames(frames as nat) as int,
            None => 0,
        }
    }

    /// The item ids of the inventory that was read: all zero where it could
    /// not be read.
    pub open spec fn items(self) -> Seq<u16> {
        match self.inventory {
            Some(records) => item_ids(records),
            None => no_items(),
        }
    }

    /// The in-game clock that was read, as a span.
    pub fn clock(&self) -> (d: Duration)
        ensures
            d@ == self.clock_nanos(),
    {
        match self.igt {
            Some(frames) => Duration::from_frames(frames as u64),
            None => Duration::zero(),
        }
    }

    /// The item ids of the inventory that was read.
    pub fn item_ids(&self) -> (ids: [u16; 12])
        ensures
            ids@ == self.items(),
    {
        match &self.inventory {
            Some(records) => project_item_ids(records),
            None => empty_inventory(),
        }
    }

    /// Whether the identifier was read and names the expected game.
    pub fn is_recognized(&self) -> (r: bool)
        ensures
            r == self.recognized(),
    {
        match &self.gamecode {
            Some(code) => is_recognized(code),
            None => false,
        }
    }
}

/// The watched signals as mathematical values: times in nanoseconds, the
/// inventory as the sequence of its item ids.
pub struct Snapshot {
    /// Health.
    pub hp: Option<Pair<u16>>,
    /// The in-game clock.
    pub igt: Option<Pair<int>>,
    /// The id of the current room.
    pub map_id: Option<Pair<u16>>,
    /// The item ids of the inventory slots.
    pub inventory: Option<Pair<Seq<u16>>>,
    /// The ending flag.
    pub ending: Option<Pair<u16>>,
    /// In-game time of the segments that ended with a backward jump of the
    /// clock.
    pub accumulated_igt: int,
    /// The clock right after its latest backward jump.
    pub buffer_igt: int,
}

impl Snapshot {
    /// Nothing observed yet, nothing accumulated.
    pub open spec fn empty() -> Snapshot {
        Snapshot {
            hp: None,
            igt: None,
            map_id: None,
            inventory: None,
            ending: None,
            accumulated_igt: 0,
            buffer_igt: 0,
        }
    }

    /// The corrected in-game time: defined once the clock has been observed.
    pub open spec fn game_time(self) -> Option<int> {
        match self.igt {
            Some(p) => Some(p.current + self.accumulated_igt - self.buffer_igt),
            None => None,
        }
    }

    /// Times are not negative, and the clock has not fallen below its value at
    /// the latest backward jump.
    pub open spec fn wf(self) -> bool {
        &&& 0 <= self.accumulated_igt
        &&& 0 <= self.buffer_igt
        &&& match self.igt {
            Some(p) => 0 <= p.old && self.buffer_igt <= p.current,
            None => self.accumulated_igt == 0 && self.buffer_igt == 0,
        }
    }

    /// Every time in the snapshot, the corrected one too, fits the machine
    /// representation.
    pub open spec fn fits(self) -> bool {
        &&& self.accumulated_igt <= u128::MAX
        &&& self.buffer_igt <= u128::MAX
        &&& match self.igt {
            Some(p) => {
                &&& p.old <= u128::MAX
                &&& p.current <= u128::MAX
                &&& p.current + self.accumulated_igt - self.buffer_igt <= u128::MAX
            },
            None => true,
        }
    }

    /// The signals after `sample` has been observed. With the expected game
    /// loaded, a failed read freezes health, room and ending flag, and counts
    /// as zero for the clock and the inventory. With another game loaded every
    /// signal observes zero.
    pub open spec fn observed(self, sample: Sample) -> Snapshot {
        if sample.recognized() {
            Snapshot {
                hp: observe_if_read(self.hp, sample.hp),
                igt: Some(observe(self.igt, sample.clock_nanos())),
                map_id: observe_if_read(self.map_id, sample.map_id),
                inventory: Some(observe(self.inventory, sample.items())),
                ending: observe_if_read(self.ending, sample.ending),
                ..self
            }
        } else {
            Snapshot {
                hp: Some(observe(self.hp, 0u16)),
                igt: Some(observe(self.igt, 0int)),
                map_id: Some(observe(self.map_id, 0u16)),
                inventory: Some(observe(self.inventory, no_items())),
                ending: Some(observe(self.ending, 0u16)),
                ..self
            }
        }
    }

    /// While the timer is not running nothing is carried over from an earlier
    /// run.
    pub open spec fn cleared_if_stopped(self, timer: TimerState) -> Snapshot {
        if timer == TimerState::NotRunning {
            Snapshot { accumulated_igt: 0, buffer_igt: 0, ..self }
        } else {
            self
        }
    }

    /// The clock has just moved backward.
    pub open spec fn jumped_back(self) -> bool {
        self.igt matches Some(p) && p.old > p.current
    }

    /// Folds the segment that a backward jump of the clock has ended into the
    /// accumulated time, and remembers where the clock landed.
    pub open spec fn corrected(self) -> Snapshot {
        match self.igt {
            Some(p) if p.old > p.current => Snapshot {
                accumulated_igt: self.accumulated_igt + (p.old - self.buffer_igt),
                buffer_igt: p.current,
                ..self
            },
            _ => self,
        }
    }

    /// One refresh: observe the sample, clear the accumulators while the timer
    /// is not running, then correct for a backward jump of the clock.
    pub open spec fn refreshed(self, sample: Sample, timer: TimerState) -> Snapshot {
        self.observed(sample).cleared_if_stopped(timer).corrected()
    }

    /// The snapshot after one refresh for each of `ticks`, in order.
    pub open spec fn replayed(self, ticks: Seq<(Sample, TimerState)>) -> Snapshot
        decreases ticks.len(),
    {
        if ticks.len() == 0 {
            self
        } else {
            self.replayed(ticks.drop_last()).refreshed(ticks.last().0, ticks.last().1)
        }
    }

    /// A refresh keeps a well-formed snapshot well-formed, and after it the
    /// clock has been observed.
    pub proof fn lemma_refreshed_wf(self, sample: Sample, timer: TimerState)
        requires
            self.wf(),
        ensures
            self.refreshed(sample, timer).wf(),
            self.refreshed(sample, timer).igt is Some,
    {
    }

    /// While the timer is not stopped, a refresh never lowers the corrected
    /// in-game time, whatever the clock reads: a backward jump of the clock
    /// leaves the corrected time where it was.
    pub proof fn lemma_game_time_monotonic(self, sample: Sample, timer: TimerState)
        requires
            self.wf(),
            self.igt is Some,
            timer != TimerState::NotRunning,
        ensures
            self.refreshed(sample, timer).game_time() is Some,
            self.refreshed(sample, timer).game_time().unwrap() >= self.game_time().unwrap(),
            self.refreshed(sample, timer).jumped_back() ==> self.refreshed(
                sample,
                timer,
            ).game_time() == self.game_time(),
    {
    }

    /// Over any run of ticks through which the timer is not stopped, the
    /// corrected in-game time never falls.
    pub proof fn lemma_game_time_monotonic_over(self, ticks: Seq<(Sample, TimerState)>)
        requires
            self.wf(),
            self.igt is Some,
            forall|i: int|
                0 <= i < ticks.len() ==> (#[trigger] ticks[i]).1 != TimerState::NotRunning,
        ensures
            self.replayed(ticks).wf(),
            self.replayed(ticks).game_time() is Some,
            self.replayed(ticks).game_time().unwrap() >= self.game_time().unwrap(),
        decreases ticks.len(),
    {
        if ticks.len() > 0 {
            let earlier = ticks.drop_last();
            assert forall|i: int| 0 <= i < earlier.len() implies (#[trigger] earlier[i]).1
                != TimerState::NotRunning by {
                assert(earlier[i] == ticks[i]);
            }
            self.lemma_game_time_monotonic_over(earlier);
            let before = self.replayed(earlier);
            before.lemma_refreshed_wf(ticks.last().0, ticks.last().1);
            before.lemma_game_time_monotonic(ticks.last().0, ticks.last().1);
        }
    }

    /// While the timer is not stopped, a refresh never lowers the accumulated
    /// time.
    pub proof fn lemma_accumulated_non_decreasing(self, sample: Sample, timer: TimerState)
        requires
            self.wf(),
            timer != TimerState::NotRunning,
        ensures
            self.refreshed(sample, timer).accumulated_igt >= self.accumulated_igt,
    {
    }

    /// A refresh while the timer is not running forgets what was accumulated:
    /// both accumulators are zero after it, whatever they held, unless the
    /// same refresh sees the clock jump backward.
    pub proof fn lemma_stopped_timer_clears(self, sample: Sample)
        requires
            !self.refreshed(sample, TimerState::NotRunning).jumped_back(),
        ensures
            self.refreshed(sample, TimerState::NotRunning).accumulated_igt == 0,
            self.refreshed(sample, TimerState::NotRunning).buffer_igt == 0,
    {
    }

    /// A refresh while the timer is not running does not depend on what was
    /// accumulated: where the same refresh sees the clock jump backward, the
    /// accumulators hold that one jump.
    pub proof fn lemma_stopped_timer_restarts(self, sample: Sample)
        requires
            self.refreshed(sample, TimerState::NotRunning).jumped_back(),
        ensures
            self.refreshed(sample, TimerState::NotRunning).accumulated_igt == self.refreshed(
                sample,
                TimerState::NotRunning,
            ).igt.unwrap().old,
            self.refreshed(sample, TimerState::NotRunning).buffer_igt == self.refreshed(
                sample,
                TimerState::NotRunning,
            ).igt.unwrap().current,
    {
    }

    /// With another game loaded every signal observes zero, whatever was read.
    pub proof fn lemma_unrecognized_observes_zero(self, sample: Sample, timer: TimerState)
        requires
            !sample.recognized(),
        ensures
            ({
                let after = self.refreshed(sample, timer);
                &&& after.hp == Some(observe(self.hp, 0u16))
                &&& after.igt == Some(observe(self.igt, 0int))
                &&& after.map_id == Some(observe(self.map_id, 0u16))
                &&& after.inventory == Some(observe(self.inventory, no_items()))
                &&& after.ending == Some(observe(self.ending, 0u16))
            }),
    {
    }
}

/// The watched signals of one session with the game.
#[derive(Clone, Copy, Debug)]
pub struct Watchers {
    hp: Watcher<u16>,
    igt: Watcher<Duration>,
    map_id: Watcher<u16>,
    inventory: Watcher<[u16; 12]>,
    ending: Watcher<u16>,
    accumulated_igt: Duration,
    buffer_igt: Duration,
}

/// A pair of times as nanoseconds.
pub open spec fn nanos_pair(pair: Option<Pair<Duration>>) -> Option<Pair<int>> {
    match pair {
        Some(p) => Some(Pair { old: p.old@ as int, current: p.current@ as int }),
        None => None,
    }
}

/// A pair of inventories as sequences of item ids.
pub open spec fn ids_pair(pair: Option<Pair<[u16; 12]>>) -> Option<Pair<Seq<u16>>> {
    match pair {
        Some(p) => Some(Pair { old: p.old@, current: p.current@ }),
        None => None,
    }
}

impl View for Watchers {
    type V = Snapshot;

    closed spec fn view(&self) -> Snapshot {
        Snapshot {
            hp: self.hp.pair,
            igt: nanos_pair(self.igt.pair),
            map_id: self.map_id.pair,
            inventory: ids_pair(self.inventory.pair),
            ending: self.ending.pair,
            accumulated_igt: self.accumulated_igt@ as int,
            buffer_igt: self.buffer_igt@ as int,
        }
    }
}

impl Watchers {
    #[verifier::type_invariant]
    pub(crate) open spec fn inv(self) -> bool {
        self@.wf() && self@.fits()
    }

    /// The watchers of a fresh session: no signal has been observed.
    pub fn new() -> (w: Self)
        ensures
            w@ == Snapshot::empty(),
            w@.wf(),
            w@.fits(),
    {
        Watchers {
            hp: Watcher::new(),
            igt: Watcher::new(),
            map_id: Watcher::new(),
            inventory: Watcher::new(),
            ending: Watcher::new(),
            accumulated_igt: Duration::zero(),
            buffer_igt: Duration::zero(),
        }
    }
}

impl Default for Watchers {
    fn default() -> (w: Self)
        ensures
            w@ == Snapshot::empty(),
    {
        Watchers::new()
    }
}

impl Watchers {
    /// The last two observations of health.
    pub fn hp(&self) -> (pair: Option<Pair<u16>>)
        ensures
            pair == self@.hp,
    {
        self.hp.pair
    }

    /// The last two observations of the in-game clock.
    pub fn igt(&self) -> (pair: Option<Pair<Duration>>)
        ensures
            nanos_pair(pair) == self@.igt,
    {
        self.igt.pair
    }

    /// The last two observations of the room id.
    pub fn map_id(&self) -> (pair: Option<Pair<u16>>)
        ensures
            pair == self@.map_id,
    {
        self.map_id.pair
    }

    /// The last two observations of the inventory's item ids.
    pub fn inventory(&self) -> (pair: Option<Pair<[u16; 12]>>)
        ensures
            ids_pair(pair) == self@.inventory,
    {
        self.inventory.pair
    }

    /// The last two observations of the ending flag.
    pub fn ending(&self) -> (pair: Option<Pair<u16>>)
        ensures
            pair == self@.ending,
    {
        self.ending.pair
    }

    /// In-game time of the segments that a backward jump of the clock ended.
    pub fn accumulated_igt(&self) -> (d: Duration)
        ensures
            d@ == self@.accumulated_igt,
    {
        self.accumulated_igt
    }

    /// The clock right after its latest backward jump.
    pub fn buffer_igt(&self) -> (d: Duration)
        ensures
            d@ == self@.buffer_igt,
    {
        self.buffer_igt
    }
}

impl Watchers {
    /// Whether the times after a refresh from `sample` fit the machine
    /// representation, which [`update_loop`] asks for. They do unless the
    /// corrected in-game time has grown past 2^128 nanoseconds.
    pub fn can_update(&self, sample: &Sample, timer_state: TimerState) -> (r: bool)
        ensures
            r == self@.refreshed(*sample, timer_state).fits(),
    {
        proof {
            use_type_invariant(self);
        }
        let reading = if sample.is_recognized() {
            sample.clock()
        } else {
            Duration::zero()
        };
        let jumps_back = match self.igt.pair {
            Some(p) => p.current.as_nanos() > reading.as_nanos(),
            None => false,
        };
        proof {
            reading.lemma_bounded();
        }
        if timer_state == TimerState::NotRunning || jumps_back {
            true
        } else {
            let since_jump = Duration::from_nanos(reading.as_nanos() - self.buffer_igt.as_nanos());
            since_jump.checked_add(self.accumulated_igt).is_some()
        }
    }
}

/// Refreshes the watchers from one sample of the game's memory: observes the
/// sample, clears the accumulators while the timer is not running, and
/// corrects for a backward jump of the in-game clock.
///
/// After it the corrected in-game time is defined. Unless the timer is not
/// running, that time has not fallen; if the timer is not running, both
/// accumulators are zero, but for a backward jump seen by this very refresh.
///
/// The times after the refresh must fit the machine representation;
/// [`Watchers::can_update`] tells whether they do.
pub fn update_loop(sample: &Sample, timer_state: TimerState, watchers: &mut Watchers)
    requires
        old(watchers)@.refreshed(*sample, timer_state).fits(),
    ensures
        final(watchers)@ == old(watchers)@.refreshed(*sample, timer_state),
        final(watchers)@.wf(),
        final(watchers)@.game_time() is Some,
        timer_state != TimerState::NotRunning && old(watchers)@.game_time() is Some
            ==> final(watchers)@.game_time().unwrap() >= old(watchers)@.game_time().unwrap(),
        timer_state == TimerState::NotRunning && !final(watchers)@.jumped_back()
            ==> final(watchers)@.accumulated_igt == 0 && final(watchers)@.buffer_igt == 0,
{
    proof {
        use_type_invariant(&*watchers);
        watchers@.lemma_refreshed_wf(*sample, timer_state);
        if timer_state != TimerState::NotRunning && watchers@.igt is Some {
            watchers@.lemma_game_time_monotonic(*sample, timer_state);
        }
    }
    let mut hp = watchers.hp;
    let mut igt = watchers.igt;
    let mut map_id = watchers.map_id;
    let mut inventory = watchers.inventory;
    let mut ending = watchers.ending;
    if sample.is_recognized() {
        hp.update(sample.hp);
        igt.update_infallible(sample.clock());
        map_id.update(sample.map_id);
        inventory.update_infallible(sample.item_ids());
        ending.update(sample.ending);
    } else {
        hp.update_infallible(0);
        igt.update_infallible(Duration::zero());
        map_id.update_infallible(0);
        inventory.update_infallible(empty_inventory());
        ending.update_infallible(0);
    }
    let mut accumulated_igt = watchers.accumulated_igt;
    let mut buffer_igt = watchers.buffer_igt;
    if timer_state == TimerState::NotRunning {
        accumulated_igt = Duration::zero();
        buffer_igt = Duration::zero();
    }
    if let Some(p) = igt.pair {
        if p.old.as_nanos() > p.current.as_nanos() {
            accumulated_igt = Duration::from_nanos(
                accumulated_igt.as_nanos() + (p.old.as_nanos() - buffer_igt.as_nanos()),
            );
            buffer_igt = p.current;
        }
    }
    *watchers = Watchers { hp, igt, map_id, inventory, ending, accumulated_igt, buffer_igt };
}

} // verus!
