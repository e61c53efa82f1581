use deadlocked::aim::{AimContext, AimbotConfig};
use deadlocked::aimbot::{AimGate, Aimbot};
use deadlocked::config::{F32Bits, KeyMode, Vec2Bits};
use deadlocked::cs2::{HotkeyState, CS2};
use deadlocked::rcs::Recoil;
use deadlocked::triggerbot::Triggerbot;

fn moving() -> Vec2Bits {
    Vec2Bits { x: F32Bits(3.0f32.to_bits()), y: F32Bits((-1.5f32).to_bits()) }
}

fn zero() -> Vec2Bits {
    Vec2Bits { x: F32Bits(0), y: F32Bits(0) }
}

fn game_tracking(pawn: u64) -> CS2 {
    CS2 {
        trigger: Triggerbot::default(),
        aim: Aimbot { active: false, velocity: moving(), unaccounted: moving(), previous_target_pawn: Some(pawn) },
        recoil: Recoil::default(),
    }
}

const HELD: HotkeyState = HotkeyState { pressed: true, just_pressed: false };
const UP: HotkeyState = HotkeyState { pressed: false, just_pressed: false };
const CLEAR: AimContext = AimContext { flashed: false, target_visible: true, shots_fired: 0 };

#[test]
fn aimbot_default_state() {
    let a = Aimbot::default();
    assert!(!a.active);
    assert_eq!(a.velocity, zero());
    assert_eq!(a.previous_target_pawn, None);
}

#[test]
fn disabled_aimbot_clears_everything() {
    let mut cfg = AimbotConfig::default();
    cfg.enabled = false;
    let mut g = game_tracking(7);
    assert_eq!(g.aimbot_gate(&cfg, HELD, Some(7), true, true, CLEAR), AimGate::Stop);
    assert_eq!(g.aim.velocity, zero());
    assert_eq!(g.aim.unaccounted, zero());
    assert_eq!(g.aim.previous_target_pawn, None);
}

#[test]
fn released_key_decays() {
    let cfg = AimbotConfig::default();
    let mut g = game_tracking(7);
    assert_eq!(g.aimbot_gate(&cfg, UP, Some(7), true, true, CLEAR), AimGate::Decay);
    // the velocity is left for the caller to decay
    assert_eq!(g.aim.velocity, moving());
    assert_eq!(g.aim.unaccounted, zero());
    assert_eq!(g.aim.previous_target_pawn, None);
}

#[test]
fn same_target_keeps_motion_new_target_clears_it() {
    let cfg = AimbotConfig::default();
    let mut g = game_tracking(7);
    assert_eq!(
        g.aimbot_gate(&cfg, HELD, Some(7), true, true, CLEAR),
        AimGate::Proceed { target_pawn: 7, target_changed: false }
    );
    assert_eq!(g.aim.velocity, moving());
    let mut g = game_tracking(7);
    assert_eq!(
        g.aimbot_gate(&cfg, HELD, Some(8), true, true, CLEAR),
        AimGate::Proceed { target_pawn: 8, target_changed: true }
    );
    assert_eq!(g.aim.velocity, zero());
    assert_eq!(g.aim.unaccounted, zero());
    // the new target counts once it was aimed at
    g.aimbot_lock(8);
    assert_eq!(g.aim.previous_target_pawn, Some(8));
}

#[test]
fn blocked_frames() {
    let cfg = AimbotConfig::default();
    let mut g = game_tracking(7);
    assert_eq!(g.aimbot_gate(&cfg, HELD, None, true, true, CLEAR), AimGate::Stop);
    assert_eq!(g.aim.velocity, zero());
    assert_eq!(g.aim.previous_target_pawn, None);

    let mut g = game_tracking(7);
    assert_eq!(g.aimbot_gate(&cfg, HELD, Some(7), false, true, CLEAR), AimGate::Stop);
    assert_eq!(g.aim.velocity, zero());
    assert_eq!(g.aim.unaccounted, moving());
    assert_eq!(g.aim.previous_target_pawn, Some(7));

    let mut g = game_tracking(7);
    assert_eq!(g.aimbot_gate(&cfg, HELD, Some(7), true, false, CLEAR), AimGate::Stop);
    assert_eq!(g.aim.velocity, moving());

    let mut g = game_tracking(7);
    let flashed = AimContext { flashed: true, ..CLEAR };
    assert_eq!(g.aimbot_gate(&cfg, HELD, Some(7), true, true, flashed), AimGate::Stop);
}

#[test]
fn toggle_and_always_modes() {
    let mut cfg = AimbotConfig::default();
    cfg.mode = KeyMode::Toggle;
    let mut g = game_tracking(7);
    let press = HotkeyState { pressed: true, just_pressed: true };
    assert!(matches!(g.aimbot_gate(&cfg, press, Some(7), true, true, CLEAR), AimGate::Proceed { .. }));
    assert!(g.aim.active);
    assert!(matches!(g.aimbot_gate(&cfg, UP, Some(7), true, true, CLEAR), AimGate::Proceed { .. }));
    assert_eq!(g.aimbot_gate(&cfg, press, Some(7), true, true, CLEAR), AimGate::Decay);
    assert!(!g.aim.active);
    cfg.mode = KeyMode::Always;
    assert!(matches!(g.aimbot_gate(&cfg, UP, Some(7), true, true, CLEAR), AimGate::Proceed { .. }));
}
