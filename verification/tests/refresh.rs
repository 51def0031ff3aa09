use autosplitter::duration::Duration;
use autosplitter::offsets::Offsets;
use autosplitter::settings::Settings;
use autosplitter::snapshot::{
    empty_inventory, is_recognized, project_item_ids, update_loop, Sample, TimerState, Watchers,
};
use autosplitter::verdict::game_time;
use autosplitter::watcher::Pair;

fn code(text: &str) -> [u8; 11] {
    let mut out = [0u8; 11];
    out.copy_from_slice(text.as_bytes());
    out
}

fn records(ids: [u16; 12]) -> [[u16; 3]; 12] {
    let mut out = [[0u16; 3]; 12];
    for i in 0..12 {
        out[i] = [ids[i], 7, 9];
    }
    out
}

fn sample(igt: u32) -> Sample {
    Sample {
        gamecode: Some(code("SLUS_008.98")),
        hp: Some(100),
        igt: Some(igt),
        map_id: Some(12),
        inventory: Some(records([0; 12])),
        ending: Some(0),
    }
}

fn frames(n: u64) -> Duration {
    Duration::from_frames(n)
}

fn time(w: &Watchers) -> Option<Duration> {
    game_time(w, &Settings::default())
}

#[test]
fn offsets_of_the_supported_game() {
    let o = Offsets::new();
    assert_eq!(o.gamecode_ntsc, 0x93DC);
    assert_eq!(o.hp, 0xB3F2E);
    assert_eq!(o.igt, 0xB3EFC);
    assert_eq!(o.map_id, 0xB3EF2);
    assert_eq!(o.item_1, 0xB3F42);
    assert_eq!(o.ending, 0xB3F28);
}

#[test]
fn both_identifiers_are_recognized() {
    assert!(is_recognized(&code("SLUS_008.98")));
    assert!(is_recognized(&code("SLUS_011.99")));
}

#[test]
fn other_identifiers_are_not_recognized() {
    assert!(!is_recognized(&code("SLUS_008.99")));
    assert!(!is_recognized(&code("SLUS_011.98")));
    assert!(!is_recognized(&code("SLES_008.98")));
    assert!(!is_recognized(&[0u8; 11]));
    assert!(sample(0).is_recognized());
    let unread = Sample { gamecode: None, ..sample(0) };
    assert!(!unread.is_recognized());
}

#[test]
fn item_ids_are_the_first_entry_of_each_record() {
    let ids = [309, 0, 303, 1, 2, 3, 4, 5, 6, 7, 8, 430];
    assert_eq!(project_item_ids(&records(ids)), ids);
    let mut mixed = [[0u16; 3]; 12];
    mixed[4] = [1, 2, 3];
    let mut want = [0u16; 12];
    want[4] = 1;
    assert_eq!(project_item_ids(&mixed), want);
}

#[test]
fn a_sample_shows_its_clock_and_items() {
    let s = Sample { inventory: Some(records([5; 12])), ..sample(45) };
    assert_eq!(s.clock(), Duration::from_nanos(1_500_000_000));
    assert_eq!(s.item_ids(), [5; 12]);
    let unread = Sample { igt: None, inventory: None, ..s };
    assert_eq!(unread.clock(), Duration::zero());
    assert_eq!(unread.item_ids(), [0; 12]);
}

#[test]
fn empty_inventory_is_all_zero() {
    assert_eq!(empty_inventory(), [0u16; 12]);
}

#[test]
fn fresh_watchers_hold_nothing() {
    let w = Watchers::new();
    assert_eq!(w.hp(), None);
    assert_eq!(w.igt(), None);
    assert_eq!(w.map_id(), None);
    assert_eq!(w.inventory(), None);
    assert_eq!(w.ending(), None);
    assert_eq!(w.accumulated_igt(), Duration::zero());
    assert_eq!(w.buffer_igt(), Duration::zero());
    assert_eq!(time(&w), None);
}

#[test]
fn first_refresh_observes_every_signal() {
    let mut w = Watchers::new();
    let s = Sample {
        gamecode: Some(code("SLUS_011.99")),
        hp: Some(80),
        igt: Some(60),
        map_id: Some(5),
        inventory: Some(records([1, 2, 3, 4, 5, 6, 7, 8, 9, 10, 11, 12])),
        ending: Some(1),
    };
    assert!(w.can_update(&s, TimerState::NotRunning));
    update_loop(&s, TimerState::NotRunning, &mut w);
    assert_eq!(w.hp(), Some(Pair { old: 80, current: 80 }));
    assert_eq!(w.igt(), Some(Pair { old: frames(60), current: frames(60) }));
    assert_eq!(w.map_id(), Some(Pair { old: 5, current: 5 }));
    let ids = [1, 2, 3, 4, 5, 6, 7, 8, 9, 10, 11, 12];
    assert_eq!(w.inventory(), Some(Pair { old: ids, current: ids }));
    assert_eq!(w.ending(), Some(Pair { old: 1, current: 1 }));
    assert_eq!(time(&w), Some(Duration::from_nanos(2_000_000_000)));
}

#[test]
fn failed_reads_freeze_or_count_as_zero() {
    let mut w = Watchers::new();
    let first = Sample {
        gamecode: Some(code("SLUS_008.98")),
        hp: Some(80),
        igt: Some(60),
        map_id: Some(5),
        inventory: Some(records([309; 12])),
        ending: Some(1),
    };
    update_loop(&first, TimerState::Running, &mut w);
    update_loop(&Sample { hp: Some(70), map_id: Some(6), ending: Some(2), ..first }, TimerState::Running, &mut w);
    let failed = Sample {
        gamecode: Some(code("SLUS_008.98")),
        hp: None,
        igt: None,
        map_id: None,
        inventory: None,
        ending: None,
    };
    update_loop(&failed, TimerState::Running, &mut w);
    assert_eq!(w.hp(), Some(Pair { old: 80, current: 70 }));
    assert_eq!(w.map_id(), Some(Pair { old: 5, current: 6 }));
    assert_eq!(w.ending(), Some(Pair { old: 1, current: 2 }));
    assert_eq!(w.igt(), Some(Pair { old: frames(60), current: Duration::zero() }));
    assert_eq!(w.inventory(), Some(Pair { old: [309; 12], current: [0; 12] }));
}

#[test]
fn wrong_title_observes_zero_everywhere() {
    let mut w = Watchers::new();
    let s = Sample {
        gamecode: Some(code("SLUS_008.98")),
        hp: Some(80),
        igt: Some(60),
        map_id: Some(5),
        inventory: Some(records([309; 12])),
        ending: Some(0xFFFF),
    };
    update_loop(&s, TimerState::NotRunning, &mut w);
    let wrong = Sample { gamecode: Some(code("SCUS_944.91")), ..s };
    update_loop(&wrong, TimerState::NotRunning, &mut w);
    assert_eq!(w.hp(), Some(Pair { old: 80, current: 0 }));
    assert_eq!(w.igt(), Some(Pair { old: frames(60), current: Duration::zero() }));
    assert_eq!(w.map_id(), Some(Pair { old: 5, current: 0 }));
    assert_eq!(w.inventory(), Some(Pair { old: [309; 12], current: [0; 12] }));
    assert_eq!(w.ending(), Some(Pair { old: 0xFFFF, current: 0 }));
    update_loop(&Sample { gamecode: None, ..s }, TimerState::NotRunning, &mut w);
    assert_eq!(w.hp(), Some(Pair { old: 0, current: 0 }));
    assert_eq!(w.igt(), Some(Pair { old: Duration::zero(), current: Duration::zero() }));
    assert_eq!(w.map_id(), Some(Pair { old: 0, current: 0 }));
    assert_eq!(w.inventory(), Some(Pair { old: [0; 12], current: [0; 12] }));
    assert_eq!(w.ending(), Some(Pair { old: 0, current: 0 }));
}

#[test]
fn wrong_title_on_fresh_watchers_observes_zero() {
    let mut w = Watchers::new();
    update_loop(&Sample { gamecode: Some([b'x'; 11]), ..sample(90) }, TimerState::Running, &mut w);
    assert_eq!(w.hp(), Some(Pair { old: 0, current: 0 }));
    assert_eq!(w.igt(), Some(Pair { old: Duration::zero(), current: Duration::zero() }));
    assert_eq!(w.inventory(), Some(Pair { old: [0; 12], current: [0; 12] }));
    assert_eq!(time(&w), Some(Duration::zero()));
}

#[test]
fn backward_jump_is_folded_into_the_accumulator() {
    let mut w = Watchers::new();
    update_loop(&sample(0), TimerState::Running, &mut w);
    update_loop(&sample(300), TimerState::Running, &mut w);
    assert_eq!(w.accumulated_igt(), Duration::zero());
    assert_eq!(w.buffer_igt(), Duration::zero());
    assert_eq!(time(&w), Some(frames(300)));
    update_loop(&sample(90), TimerState::Running, &mut w);
    assert_eq!(w.accumulated_igt(), frames(300));
    assert_eq!(w.buffer_igt(), frames(90));
    assert_eq!(time(&w), Some(frames(300)));
    update_loop(&sample(150), TimerState::Running, &mut w);
    assert_eq!(w.accumulated_igt(), frames(300));
    assert_eq!(w.buffer_igt(), frames(90));
    assert_eq!(time(&w), Some(frames(360)));
}

#[test]
fn second_jump_uses_the_buffer_of_the_first() {
    let mut w = Watchers::new();
    for igt in [0, 300, 90, 150] {
        update_loop(&sample(igt), TimerState::Paused, &mut w);
    }
    update_loop(&sample(30), TimerState::Paused, &mut w);
    assert_eq!(w.accumulated_igt(), frames(360));
    assert_eq!(w.buffer_igt(), frames(30));
    assert_eq!(time(&w), Some(frames(360)));
    update_loop(&sample(31), TimerState::Paused, &mut w);
    assert_eq!(time(&w), Some(Duration::from_nanos(12_033_333_333)));
}

#[test]
fn game_time_never_falls_while_the_timer_runs() {
    let mut w = Watchers::new();
    update_loop(&sample(10), TimerState::Running, &mut w);
    let readings: [u32; 12] = [10, 500, 499, 0, 0, 7, 1000, 3, 2, 1, 4_000_000_000, 5];
    let states = [TimerState::Running, TimerState::Paused, TimerState::Ended];
    let mut last = time(&w).unwrap().as_nanos();
    for (i, r) in readings.iter().enumerate() {
        let state = states[i % 3];
        assert!(w.can_update(&sample(*r), state));
        update_loop(&sample(*r), state, &mut w);
        let now = time(&w).unwrap().as_nanos();
        assert!(now >= last);
        last = now;
    }
}

#[test]
fn game_time_stays_over_a_wrong_title() {
    let mut w = Watchers::new();
    update_loop(&sample(0), TimerState::Running, &mut w);
    update_loop(&sample(300), TimerState::Running, &mut w);
    update_loop(&Sample { gamecode: None, ..sample(400) }, TimerState::Running, &mut w);
    assert_eq!(time(&w), Some(frames(300)));
    assert_eq!(w.accumulated_igt(), frames(300));
    assert_eq!(w.buffer_igt(), Duration::zero());
}

#[test]
fn stopped_timer_clears_the_accumulators() {
    let mut w = Watchers::new();
    for igt in [0, 300, 90, 150] {
        update_loop(&sample(igt), TimerState::Running, &mut w);
    }
    assert_eq!(w.accumulated_igt(), frames(300));
    update_loop(&sample(160), TimerState::NotRunning, &mut w);
    assert_eq!(w.accumulated_igt(), Duration::zero());
    assert_eq!(w.buffer_igt(), Duration::zero());
    assert_eq!(time(&w), Some(frames(160)));
}

#[test]
fn stopped_timer_with_a_jump_keeps_only_that_jump() {
    let mut w = Watchers::new();
    for igt in [0, 300, 90, 150] {
        update_loop(&sample(igt), TimerState::Running, &mut w);
    }
    update_loop(&sample(30), TimerState::NotRunning, &mut w);
    assert_eq!(w.accumulated_igt(), frames(150));
    assert_eq!(w.buffer_igt(), frames(30));
    assert_eq!(time(&w), Some(frames(150)));
}

#[test]
fn ended_timer_keeps_the_accumulators() {
    let mut w = Watchers::new();
    for igt in [0, 300, 90] {
        update_loop(&sample(igt), TimerState::Running, &mut w);
    }
    update_loop(&sample(100), TimerState::Ended, &mut w);
    assert_eq!(w.accumulated_igt(), frames(300));
    assert_eq!(w.buffer_igt(), frames(90));
}

#[test]
fn watchers_are_copied() {
    let mut w = Watchers::new();
    update_loop(&sample(10), TimerState::Running, &mut w);
    let kept = w;
    update_loop(&sample(20), TimerState::Running, &mut w);
    assert_eq!(kept.igt(), Some(Pair { old: frames(10), current: frames(10) }));
    assert_eq!(w.igt(), Some(Pair { old: frames(10), current: frames(20) }));
}

#[test]
fn the_crate_root_offers_the_engine() {
    let mut w = autosplitter::Watchers::default();
    let s = autosplitter::Settings::default();
    autosplitter::update_loop(&sample(0), autosplitter::TimerState::NotRunning, &mut w);
    let actions = autosplitter::on_tick(&sample(30), autosplitter::TimerState::NotRunning, &mut w, &s);
    assert_eq!(
        actions,
        vec![
            autosplitter::TimerAction::Start,
            autosplitter::TimerAction::PauseGameTime,
            autosplitter::TimerAction::PauseGameTime
        ]
    );
    assert_eq!(autosplitter::game_time(&w, &s), Some(frames(30)));
    assert!(autosplitter::start(&w, &s));
    assert!(!autosplitter::split(&w, &s));
    assert!(!autosplitter::reset(&w, &s));
    assert_eq!(autosplitter::is_loading(&w, &s), Some(true));
    assert_eq!(autosplitter::Offsets::new().igt, 0xB3EFC);
}

#[test]
fn on_tick_refreshes_before_it_decides() {
    let mut w = Watchers::new();
    let s = Settings { door_split: true, ..Settings::default() };
    let first = autosplitter::on_tick(&sample(30), TimerState::Running, &mut w, &s);
    assert_eq!(
        first,
        vec![
            autosplitter::TimerAction::PauseGameTime,
            autosplitter::TimerAction::SetGameTime(Duration::from_nanos(1_000_000_000))
        ]
    );
    let moved = Sample { map_id: Some(13), ..sample(60) };
    let second = autosplitter::on_tick(&moved, TimerState::Running, &mut w, &s);
    assert_eq!(
        second,
        vec![
            autosplitter::TimerAction::PauseGameTime,
            autosplitter::TimerAction::SetGameTime(Duration::from_nanos(2_000_000_000)),
            autosplitter::TimerAction::Split
        ]
    );
    assert_eq!(w.map_id(), Some(Pair { old: 12, current: 13 }));
}
