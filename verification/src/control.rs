//! What the timer is told in one tick, in the order in which it is told.

use vstd::prelude::*;
use crate::duration::Duration;
use crate::settings::Settings;
use crate::snapshot::{update_loop, Sample, Snapshot, TimerState, Watchers};
use crate::verdict::{
    door_split, game_time, game_time_verdict, is_loading, loading_verdict, reset, reset_verdict,
    split, split_verdict, start, start_verdict,
};

verus! {

/// One call of the external timer.
#[derive(Clone, Copy, Debug, PartialEq, Eq)]
pub enum TimerAction {
    Start,
    Split,
    Reset,
    PauseGameTime,
    ResumeGameTime,
    SetGameTime(Duration),
}

/// The timer's game clock is paused while the game loads and resumed while it
/// does not; with no verdict it is left alone.
pub open spec fn clock_actions(loading: Option<bool>) -> Seq<TimerAction> {
    match loading {
        Some(true) => seq![TimerAction::PauseGameTime],
        Some(false) => seq![TimerAction::ResumeGameTime],
        None => seq![],
    }
}

/// The timer is handed the corrected in-game time once there is one.
pub open spec fn time_actions(time: Option<Duration>) -> Seq<TimerAction> {
    match time {
        Some(d) => seq![TimerAction::SetGameTime(d)],
        None => seq![],
    }
}

/// A reset comes before a split: a tick that resets does not split.
pub open spec fn segment_actions(reset: bool, split: bool) -> Seq<TimerAction> {
    if reset {
        seq![TimerAction::Reset]
    } else if split {
        seq![TimerAction::Split]
    } else {
        seq![]
    }
}

/// The calls of one tick. While the timer runs or is paused: the game clock,
/// the game time, then a reset or else a split. While it is not running: on a
/// start, the start, a pause of the game clock, and the game clock once more.
/// Once it has ended: nothing.
pub open spec fn tick_actions(timer: TimerState, w: Snapshot, s: Settings) -> Seq<TimerAction> {
    match timer {
        TimerState::Running | TimerState::Paused => clock_actions(loading_verdict(w, s))
            + time_actions(game_time_verdict(w)) + segment_actions(
            reset_verdict(w, s),
            split_verdict(w, s),
        ),
        TimerState::NotRunning => if start_verdict(w, s) {
            seq![TimerAction::Start, TimerAction::PauseGameTime] + clock_actions(
                loading_verdict(w, s),
            )
        } else {
            seq![]
        },
        TimerState::Ended => seq![],
    }
}

/// `action` does not occur twice among `actions`.
pub open spec fn at_most_once(actions: Seq<TimerAction>, action: TimerAction) -> bool {
    forall|i: int, j: int|
        0 <= i < actions.len() && 0 <= j < actions.len() && actions[i] == action && actions[j]
            == action ==> i == j
}

/// Once door splits are on and the room has changed, the verdict is a split
/// whatever else the tick shows: putting any inventory and any ending flag in
/// place of the observed ones does not change it.
pub proof fn lemma_door_split_decides(w: Snapshot, other: Snapshot, s: Settings)
    requires
        door_split(w, s),
        other.map_id == w.map_id,
    ensures
        split_verdict(w, s),
        split_verdict(other, s),
{
}

/// However many conditions for a split hold in a tick, the timer is told to
/// split at most once. While it runs or is paused it is told so exactly when
/// one of them holds, as the last call of the tick; otherwise never.
pub proof fn lemma_single_split(timer: TimerState, w: Snapshot, s: Settings)
    ensures
        at_most_once(tick_actions(timer, w, s), TimerAction::Split),
        tick_actions(timer, w, s).contains(TimerAction::Split) <==> (timer == TimerState::Running
            || timer == TimerState::Paused) && split_verdict(w, s),
        tick_actions(timer, w, s).contains(TimerAction::Split) ==> tick_actions(
            timer,
            w,
            s,
        ).last() == TimerAction::Split,
{
    let actions = tick_actions(timer, w, s);
    if (timer == TimerState::Running || timer == TimerState::Paused) && split_verdict(w, s) {
        assert(actions[actions.len() - 1] == TimerAction::Split);
    }
}

fn push_clock_action(actions: &mut Vec<TimerAction>, loading: Option<bool>)
    ensures
        final(actions)@ == old(actions)@ + clock_actions(loading),
{
    match loading {
        Some(true) => actions.push(TimerAction::PauseGameTime),
        Some(false) => actions.push(TimerAction::ResumeGameTime),
        None => {},
    }
}

/// The calls to make on the external timer after the watchers have been
/// refreshed, in order.
pub fn tick(timer_state: TimerState, watchers: &Watchers, settings: &Settings) -> (actions: Vec<
    TimerAction,
>)
    ensures
        actions@ == tick_actions(timer_state, watchers@, *settings),
{
    let mut actions: Vec<TimerAction> = Vec::new();
    match timer_state {
        TimerState::Running | TimerState::Paused => {
            push_clock_action(&mut actions, is_loading(watchers, settings));
            match game_time(watchers, settings) {
                Some(time) => actions.push(TimerAction::SetGameTime(time)),
                None => {},
            }
            if reset(watchers, settings) {
                actions.push(TimerAction::Reset);
            } else if split(watchers, settings) {
                actions.push(TimerAction::Split);
            }
        },
        TimerState::NotRunning => {
            if start(watchers, settings) {
                actions.push(TimerAction::Start);
                actions.push(TimerAction::PauseGameTime);
                push_clock_action(&mut actions, is_loading(watchers, settings));
            }
        },
        TimerState::Ended => {},
    }
    actions
}

/// One whole tick: the watchers are refreshed from `sample` first, and the
/// calls on the timer are decided from the refreshed watchers.
///
/// The times after the refresh must fit the machine representation, as for
/// [`update_loop`].
pub fn on_tick(
    sample: &Sample,
    timer_state: TimerState,
    watchers: &mut Watchers,
    settings: &Settings,
) -> (actions: Vec<TimerAction>)
    requires
        old(watchers)@.refreshed(*sample, timer_state).fits(),
    ensures
        final(watchers)@ == old(watchers)@.refreshed(*sample, timer_state),
        actions@ == tick_actions(timer_state, final(watchers)@, *settings),
{
    update_loop(sample, timer_state, watchers);
    tick(timer_state, watchers, settings)
}

} // verus!
