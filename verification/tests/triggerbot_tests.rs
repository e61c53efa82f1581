use deadlocked::aim::TriggerbotConfig;
use deadlocked::aimbot::Aimbot;
use deadlocked::config::KeyMode;
use deadlocked::cs2::{key_active, HotkeyState, CS2};
use deadlocked::rcs::Recoil;
use deadlocked::triggerbot::{
    shot_allowed, ShotActions, ShotContext, Triggerbot, AUTO_FIRE_DELAY_MS, AUTO_FIRE_DURATION_MS,
    NANOS_PER_MILLI,
};

const MS: u64 = NANOS_PER_MILLI;

fn idle() -> Triggerbot {
    Triggerbot::default()
}

fn game(trigger: Triggerbot) -> CS2 {
    CS2 { trigger, aim: Aimbot::default(), recoil: Recoil::default() }
}

#[test]
fn default_is_idle() {
    let t = idle();
    assert_eq!(t, Triggerbot { shot_start: None, shot_end: None, active: false });
    assert!(!t.pending());
    let mut g = game(t);
    assert_eq!(g.triggerbot_shoot(u64::MAX), ShotActions { press: false, release: false });
    assert_eq!(g.trigger, t);
}

#[test]
fn hotkey_modes() {
    let mut active = false;
    assert!(key_active(KeyMode::Hold, true, false, &mut active));
    assert!(!key_active(KeyMode::Hold, false, true, &mut active));
    assert!(!active);
    assert!(key_active(KeyMode::Always, false, false, &mut active));
    assert!(!active);
    // toggle: a fresh press switches on, holding does not switch again
    assert!(key_active(KeyMode::Toggle, true, true, &mut active));
    assert!(active);
    assert!(key_active(KeyMode::Toggle, true, false, &mut active));
    // the second fresh press switches off again
    assert!(!key_active(KeyMode::Toggle, true, true, &mut active));
    assert!(!active);
}

#[test]
fn ready_requires_enabled_key_and_no_pending_shot() {
    let mut t = idle();
    assert!(!t.ready(false, KeyMode::Always, true, true));
    assert!(!t.ready(false, KeyMode::Toggle, true, true));
    assert!(!t.active, "a disabled triggerbot ignores its hotkey");
    assert!(t.ready(true, KeyMode::Hold, true, false));
    assert!(!t.ready(true, KeyMode::Hold, false, false));
    assert!(t.ready(true, KeyMode::Toggle, true, true));
    assert!(t.active);
    t.schedule_shot(0, 100, 200);
    assert!(!t.ready(true, KeyMode::Always, false, false));
}

#[test]
fn scheduled_shot_timeline() {
    let mut t = idle();
    let now = 5 * MS;
    t.schedule_shot(now, 100, 200);
    assert_eq!(t.shot_start, Some(now + 100 * MS));
    assert_eq!(t.shot_end, Some(now + 300 * MS));
    let mut g = game(t);
    // before the delay: nothing
    assert_eq!(g.triggerbot_shoot(now + 99 * MS), ShotActions { press: false, release: false });
    // at the start time: press
    assert_eq!(g.triggerbot_shoot(now + 100 * MS), ShotActions { press: true, release: false });
    assert_eq!(g.trigger.shot_start, None);
    assert!(g.trigger.pending());
    // nothing more until the end
    assert_eq!(g.triggerbot_shoot(now + 299 * MS), ShotActions { press: false, release: false });
    assert_eq!(g.triggerbot_shoot(now + 300 * MS), ShotActions { press: false, release: true });
    assert!(!g.trigger.pending());
    assert_eq!(g.triggerbot_shoot(now + 400 * MS), ShotActions { press: false, release: false });
}

#[test]
fn late_frame_presses_and_releases_together() {
    let mut t = idle();
    t.schedule_shot(0, 10, 20);
    let mut g = game(t);
    assert_eq!(g.triggerbot_shoot(1_000 * MS), ShotActions { press: true, release: true });
    assert!(!g.trigger.pending());
}

#[test]
fn zero_delay_and_duration() {
    let mut t = idle();
    t.schedule_shot(7, 0, 0);
    assert_eq!(t.shot_start, Some(7));
    assert_eq!(t.shot_end, Some(7));
    assert_eq!(game(t).triggerbot_shoot(7), ShotActions { press: true, release: true });
}

#[test]
fn auto_fire_only_in_always_mode() {
    let mut t = idle();
    assert!(!t.auto_fire(KeyMode::Hold, true, 0));
    assert!(!t.auto_fire(KeyMode::Always, false, 0));
    assert!(!t.pending());
    assert!(t.auto_fire(KeyMode::Always, true, 1_000));
    assert_eq!(t.shot_start, Some(1_000 + AUTO_FIRE_DELAY_MS * MS));
    assert_eq!(t.shot_end, Some(1_000 + (AUTO_FIRE_DELAY_MS + AUTO_FIRE_DURATION_MS) * MS));
    // a pending shot is not replaced
    let before = t;
    assert!(!t.auto_fire(KeyMode::Always, true, 2_000));
    assert_eq!(t, before);
}

#[test]
fn shot_rules() {
    let cfg = TriggerbotConfig::default();
    let clear = ShotContext {
        flashed: false,
        sniper: false,
        scoped: false,
        too_fast: false,
        has_target: true,
        ffa: false,
        same_team: false,
        off_head: true,
    };
    assert!(shot_allowed(&cfg, clear));
    assert!(!shot_allowed(&cfg, ShotContext { flashed: true, ..clear }));
    assert!(!shot_allowed(&cfg, ShotContext { sniper: true, ..clear }));
    assert!(shot_allowed(&cfg, ShotContext { sniper: true, scoped: true, ..clear }));
    assert!(!shot_allowed(&cfg, ShotContext { too_fast: true, ..clear }));
    assert!(!shot_allowed(&cfg, ShotContext { has_target: false, ..clear }));
    assert!(!shot_allowed(&cfg, ShotContext { same_team: true, ..clear }));
    assert!(shot_allowed(&cfg, ShotContext { same_team: true, ffa: true, ..clear }));
    let mut head = cfg;
    head.head_only = true;
    assert!(!shot_allowed(&head, clear));
    assert!(shot_allowed(&head, ShotContext { off_head: false, ..clear }));
    let mut lax = cfg;
    lax.flash_check = false;
    lax.scope_check = false;
    lax.velocity_check = false;
    assert!(shot_allowed(&lax, ShotContext { flashed: true, sniper: true, too_fast: true, ..clear }));
}

#[test]
fn triggerbot_frame_decision() {
    let mut cfg = TriggerbotConfig::default();
    let ctx = ShotContext {
        flashed: false,
        sniper: false,
        scoped: false,
        too_fast: false,
        has_target: true,
        ffa: false,
        same_team: false,
        off_head: false,
    };
    let held = HotkeyState { pressed: true, just_pressed: false };
    let mut g = game(idle());
    // disabled by default
    assert!(!g.triggerbot(&cfg, held, Some(ctx)));
    cfg.enabled = true;
    assert!(g.triggerbot(&cfg, held, Some(ctx)));
    assert!(!g.triggerbot(&cfg, HotkeyState { pressed: false, just_pressed: false }, Some(ctx)));
    assert!(!g.triggerbot(&cfg, held, None));
    assert!(!g.triggerbot(&cfg, held, Some(ShotContext { flashed: true, ..ctx })));
    // a pending shot blocks the next one
    g.trigger.schedule_shot(0, 100, 200);
    assert!(!g.triggerbot(&cfg, held, Some(ctx)));
    // toggle mode switches on a fresh press even while a shot is pending
    cfg.mode = KeyMode::Toggle;
    assert!(!g.triggerbot(&cfg, HotkeyState { pressed: true, just_pressed: true }, Some(ctx)));
    assert!(g.trigger.active);
}

#[test]
fn scheduled_shot_presses_and_releases_once() {
    let mut g = game(idle());
    g.trigger.schedule_shot(1_000, 100, 200);
    let times = [1_000u64, 50_000_000, 101_000_000, 150_000_000, 301_000_000, 400_000_000];
    let mut presses = 0;
    let mut releases = 0;
    let mut pressed_at = None;
    let mut released_at = None;
    for (i, &t) in times.iter().enumerate() {
        let acts = g.triggerbot_shoot(t);
        if acts.press {
            presses += 1;
            pressed_at = Some(i);
        }
        if acts.release {
            releases += 1;
            released_at = Some(i);
        }
    }
    assert_eq!(presses, 1);
    assert_eq!(releases, 1);
    assert_eq!(pressed_at, Some(2));
    assert_eq!(released_at, Some(4));
    assert!(!g.trigger.pending());
}

