use std::collections::HashMap;

use deadlocked::sounds::{App, PlayerSound, SoundType, RING_CYCLE_NANOS};

const SEC: u64 = 1_000_000_000;
const TOTAL: u64 = 2 * SEC;

fn report(id: u64, sound: Option<SoundType>) -> PlayerSound {
    PlayerSound { steam_id: id, sound }
}

#[test]
fn new_tracker_is_empty() {
    assert!(App::new().player_sounds.is_empty());
}

#[test]
fn first_sound_is_recorded() {
    let mut s = App::new();
    s.update_player_sounds(&vec![report(1, Some(SoundType::Footstep)), report(2, None)], 10 * SEC, TOTAL);
    assert_eq!(s.player_sounds.len(), 1);
    assert_eq!(s.player_sounds[&1], (10 * SEC, SoundType::Footstep));
}

#[test]
fn continuing_sound_keeps_its_start_within_a_ring_cycle() {
    let mut s = App::new();
    s.update_player_sounds(&vec![report(1, Some(SoundType::Footstep))], 10 * SEC, TOTAL);
    let later = 10 * SEC + RING_CYCLE_NANOS - 1;
    s.update_player_sounds(&vec![report(1, Some(SoundType::Footstep))], later, TOTAL);
    assert_eq!(s.player_sounds[&1], (10 * SEC, SoundType::Footstep));
    // once the cycle has passed, the event restarts
    let restart = 10 * SEC + RING_CYCLE_NANOS;
    s.update_player_sounds(&vec![report(1, Some(SoundType::Footstep))], restart, TOTAL);
    assert_eq!(s.player_sounds[&1], (restart, SoundType::Footstep));
}

#[test]
fn new_kind_of_sound_restarts_event() {
    let mut s = App::new();
    s.update_player_sounds(&vec![report(1, Some(SoundType::Footstep))], 10 * SEC, TOTAL);
    s.update_player_sounds(&vec![report(1, Some(SoundType::Gunshot))], 10 * SEC + 1, TOTAL);
    assert_eq!(s.player_sounds[&1], (10 * SEC + 1, SoundType::Gunshot));
}

#[test]
fn old_events_are_forgotten() {
    let mut s = App::new();
    s.update_player_sounds(&vec![report(1, Some(SoundType::Weapon)), report(2, Some(SoundType::Footstep))], 10 * SEC, TOTAL);
    // player 2 keeps walking, player 1 goes silent
    s.update_player_sounds(&vec![report(1, None), report(2, Some(SoundType::Footstep))], 12 * SEC, TOTAL);
    assert!(!s.player_sounds.contains_key(&1));
    assert_eq!(s.player_sounds[&2], (12 * SEC, SoundType::Footstep));
}

#[test]
fn last_report_of_a_player_wins() {
    let mut s = App::new();
    s.update_player_sounds(
        &vec![report(3, Some(SoundType::Footstep)), report(3, Some(SoundType::Gunshot)), report(3, None)],
        SEC,
        TOTAL,
    );
    assert_eq!(s.player_sounds[&3], (SEC, SoundType::Gunshot));
}

#[test]
fn zero_duration_shows_nothing() {
    let mut s = App::new();
    s.update_player_sounds(&vec![report(1, Some(SoundType::Footstep))], SEC, 0);
    assert!(s.player_sounds.is_empty());
}

#[test]
fn clock_before_event_counts_as_no_time_passed() {
    let mut s = App { player_sounds: HashMap::new() };
    s.player_sounds.insert(4, (5 * SEC, SoundType::Footstep));
    s.update_player_sounds(&vec![report(4, Some(SoundType::Footstep))], 3 * SEC, TOTAL);
    assert_eq!(s.player_sounds[&4], (5 * SEC, SoundType::Footstep));
}
