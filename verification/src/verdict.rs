//! The verdicts of a tick: start, split, reset, loading, and the corrected
//! in-game time. Each is a function of the watchers and the settings alone.

use vstd::prelude::*;
use crate::duration::Duration;
use crate::settings::Settings;
use crate::snapshot::{no_items, Sample, Snapshot, TimerState, Watchers};
use crate::watcher::Pair;

verus! {

/// The value of the ending flag once the ending has been reached.
pub const ENDING_REACHED: u16 = 0xFFFF;

/// The room of the good ending.
pub const GOOD_END_ROOM: u16 = 123;

/// The room of the bad ending.
pub const BAD_END_ROOM: u16 = 110;

/// A run starts when automatic start is on and the in-game clock has just
/// left zero.
pub open spec fn start_verdict(w: Snapshot, s: Settings) -> bool {
    s.start && (w.igt matches Some(p) && p.has_changed_from(0int))
}

/// The room has just changed.
pub open spec fn room_changed(w: Snapshot) -> bool {
    w.map_id matches Some(p) && p.has_changed()
}

/// Door splits are on and the room has just changed.
pub open spec fn door_split(w: Snapshot, s: Settings) -> bool {
    s.door_split && room_changed(w)
}

/// The ending split is on, the ending flag has just been raised, and the room
/// has just changed to one of the two ending rooms.
pub open spec fn ending_split(w: Snapshot, s: Settings) -> bool {
    &&& s.end
    &&& w.ending matches Some(e) && e.has_changed_to(ENDING_REACHED)
    &&& w.map_id matches Some(m) && m.has_changed() && (m.current == GOOD_END_ROOM || m.current
        == BAD_END_ROOM)
}

/// The item `item` is in the current inventory and was not in the previous
/// one.
pub open spec fn picked_up(inventory: Pair<Seq<u16>>, item: u16) -> bool {
    inventory.current.contains(item) && !inventory.old.contains(item)
}

/// Some item whose switch is on is in the current inventory and was not in
/// the previous one.
pub open spec fn any_enabled_item_picked_up(inventory: Pair<Seq<u16>>, s: Settings) -> bool {
    exists|item: u16| s.splits_on(item) && #[trigger] picked_up(inventory, item)
}

/// An item whose switch is on has just been picked up.
pub open spec fn item_split(w: Snapshot, s: Settings) -> bool {
    w.inventory matches Some(inventory) && any_enabled_item_picked_up(inventory, s)
}

/// The corrected in-game time as a span, once the clock has been observed.
pub open spec fn game_time_verdict(w: Snapshot) -> Option<Duration> {
    match w.game_time() {
        Some(nanos) => Some(Duration::lasting(nanos)),
        None => None,
    }
}

/// No condition resets the timer.
pub open spec fn reset_verdict(w: Snapshot, s: Settings) -> bool {
    false
}

/// The game always counts as loading, so that the timer's own game clock
/// stays paused and shows only the time it is handed.
pub open spec fn loading_verdict(w: Snapshot, s: Settings) -> Option<bool> {
    Some(true)
}

/// A segment is split on a door, else on the ending, else on an item.
pub open spec fn split_verdict(w: Snapshot, s: Settings) -> bool {
    door_split(w, s) || ending_split(w, s) || item_split(w, s)
}

/// Whether a slot of the inventory holds `item`.
pub fn has_item(slots: &[u16; 12], item: u16) -> (r: bool)
    ensures
        r == slots@.contains(item),
{
    let mut i: usize = 0;
    while i < 12
        invariant
            i <= 12,
            forall|j: int| 0 <= j < i ==> slots@[j] != item,
        decreases 12 - i,
    {
        if slots[i] == item {
            return true;
        }
        i += 1;
    }
    false
}

/// Whether `item` has just appeared in the inventory.
pub fn item_acquired(inventory: &Pair<[u16; 12]>, item: u16) -> (r: bool)
    ensures
        r == picked_up(Pair { old: inventory.old@, current: inventory.current@ }, item),
{
    inventory.check(|slots: &[u16; 12]| -> (held: bool)
        ensures held == slots@.contains(item),
        { has_item(slots, item) })
}

/// Whether the timer is to be started.
pub fn start(watchers: &Watchers, settings: &Settings) -> (r: bool)
    ensures
        r == start_verdict(watchers@, *settings),
{
    if !settings.start {
        return false;
    }
    match watchers.igt() {
        Some(pair) => {
            let zero = Duration::zero();
            proof {
                Duration::lemma_obeys_concrete_eq();
                Duration::lemma_view_injective(pair.old, zero);
                Duration::lemma_view_injective(pair.current, zero);
            }
            pair.changed_from(&zero)
        },
        None => false,
    }
}

/// Whether the room has just changed.
fn map_id_changed(map_id: &Option<Pair<u16>>) -> (r: bool)
    ensures
        r == (*map_id matches Some(p) && p.has_changed()),
{
    match map_id {
        Some(pair) => pair.changed(),
        None => false,
    }
}

/// Whether the ending flag has just been raised.
fn ending_reached(ending: &Option<Pair<u16>>) -> (r: bool)
    ensures
        r == (*ending matches Some(p) && p.has_changed_to(ENDING_REACHED)),
{
    match ending {
        Some(pair) => pair.changed_to(&ENDING_REACHED),
        None => false,
    }
}

/// Whether the room has just changed to one of the two ending rooms.
fn entered_ending_room(map_id: &Option<Pair<u16>>) -> (r: bool)
    ensures
        r == (*map_id matches Some(p) && p.has_changed() && (p.current == GOOD_END_ROOM
            || p.current == BAD_END_ROOM)),
{
    match map_id {
        Some(pair) => pair.changed() && (pair.current == GOOD_END_ROOM || pair.current
            == BAD_END_ROOM),
        None => false,
    }
}

/// Whether an item whose switch is on has just appeared in the inventory.
///
/// Only an item that a slot holds now can have appeared, so the slots are
/// walked and each item that the settings name is looked for among the
/// previous slots.
pub fn enabled_item_acquired(inventory: &Pair<[u16; 12]>, settings: &Settings) -> (r: bool)
    ensures
        r == any_enabled_item_picked_up(
            Pair { old: inventory.old@, current: inventory.current@ },
            *settings,
        ),
{
    let ghost ids = Pair { old: inventory.old@, current: inventory.current@ };
    let mut i: usize = 0;
    while i < 12
        invariant
            i <= 12,
            ids == (Pair { old: inventory.old@, current: inventory.current@ }),
            forall|j: int|
                0 <= j < i ==> !(settings.splits_on(inventory.current@[j]) && picked_up(
                    ids,
                    #[trigger] inventory.current@[j],
                )),
        decreases 12 - i,
    {
        let item = inventory.current[i];
        if settings.is_split_item(item) && item_acquired(inventory, item) {
            return true;
        }
        i += 1;
    }
    proof {
        assert forall|item: u16| !(settings.splits_on(item) && #[trigger] picked_up(
            ids,
            item,
        )) by {
            if settings.splits_on(item) && ids.current.contains(item) {
                let j = choose|j: int| 0 <= j < ids.current.len() && ids.current[j] == item;
                assert(inventory.current@[j] == item);
            }
        }
    }
    false
}

/// Whether a segment is to be split. A door split is tried first, then the
/// ending split, then the items; whichever holds, the verdict is one split.
pub fn split(watchers: &Watchers, settings: &Settings) -> (r: bool)
    ensures
        r == split_verdict(watchers@, *settings),
{
    let map_id = watchers.map_id();
    if settings.door_split && map_id_changed(&map_id) {
        true
    } else if settings.end && ending_reached(&watchers.ending()) && entered_ending_room(&map_id) {
        true
    } else {
        match watchers.inventory() {
            Some(inventory) => enabled_item_acquired(&inventory, settings),
            None => false,
        }
    }
}

/// Whether the timer is to be reset: never.
pub fn reset(watchers: &Watchers, settings: &Settings) -> (r: bool)
    ensures
        r == reset_verdict(watchers@, *settings),
        !r,
{
    false
}

/// Whether the game is loading, for the purpose of pausing the timer's game
/// clock: always.
pub fn is_loading(watchers: &Watchers, settings: &Settings) -> (r: Option<bool>)
    ensures
        r == loading_verdict(watchers@, *settings),
        r == Some(true),
{
    Some(true)
}

/// The corrected in-game time: the clock, plus what was accumulated over its
/// backward jumps, minus where it landed after the latest one.
pub fn game_time(watchers: &Watchers, settings: &Settings) -> (r: Option<Duration>)
    ensures
        r == game_time_verdict(watchers@),
        match r {
            Some(d) => watchers@.game_time() == Some(d@ as int),
            None => watchers@.game_time() is None,
        },
{
    proof {
        use_type_invariant(watchers);
    }
    match watchers.igt() {
        Some(pair) => {
            let corrected = Duration::from_nanos(
                pair.current.as_nanos() - watchers.buffer_igt().as_nanos()
                    + watchers.accumulated_igt().as_nanos(),
            );
            proof {
                corrected.lemma_lasting();
            }
            Some(corrected)
        },
        None => None,
    }
}

/// With another game loaded a tick gives no start, no ending split and no item
/// split, whatever the watchers held; a door split it gives only if the room
/// id was not zero before. A second such tick in a row gives no verdict at
/// all.
pub proof fn lemma_unrecognized_game_is_inert(
    w: Snapshot,
    first: Sample,
    second: Sample,
    timer: TimerState,
    later: TimerState,
    s: Settings,
)
    requires
        !first.recognized(),
        !second.recognized(),
    ensures
        !start_verdict(w.refreshed(first, timer), s),
        !ending_split(w.refreshed(first, timer), s),
        !item_split(w.refreshed(first, timer), s),
        !start_verdict(w.refreshed(first, timer).refreshed(second, later), s),
        !split_verdict(w.refreshed(first, timer).refreshed(second, later), s),
{
    let once = w.refreshed(first, timer);
    let twice = once.refreshed(second, later);
    assert forall|item: u16| s.splits_on(item) implies !no_items().contains(item) by {
        if no_items().contains(item) {
            let i = choose|i: int| 0 <= i < no_items().len() && no_items()[i] == item;
            assert(item == 0);
        }
    }
    assert(once.inventory.unwrap().current == no_items());
    assert(twice.inventory.unwrap().current == no_items());
}

} // verus!
