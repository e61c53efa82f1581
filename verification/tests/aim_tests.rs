use deadlocked::aim::{AimContext, AimbotConfig, MillisRange, RcsConfig, TriggerbotConfig, WeaponConfig};
use deadlocked::body_picker::Bones;
use deadlocked::config::{KeyMode, RcsMode, TargetingMode};

fn f(bits: deadlocked::config::F32Bits) -> f32 {
    f32::from_bits(bits.0)
}

#[test]
fn aimbot_defaults() {
    let a = AimbotConfig::default();
    assert!(!a.enable_override);
    assert!(a.enabled);
    assert_eq!(a.mode, KeyMode::Hold);
    assert!(!a.target_friendlies);
    assert!(a.distance_adjusted_fov);
    assert_eq!(a.start_bullet, 0);
    assert!(a.visibility_check && a.flash_check);
    assert_eq!(f(a.fov), 2.5);
    assert_eq!(f(a.smooth), 5.0);
    assert_eq!(
        a.bones,
        vec![Bones::Head, Bones::Neck, Bones::Spine4, Bones::Spine3, Bones::Spine2, Bones::Spine1, Bones::Hip]
    );
    assert_eq!(a.targeting_mode, TargetingMode::Fov);
}

#[test]
fn rcs_and_triggerbot_defaults() {
    let r = RcsConfig::default();
    assert!(!r.enabled && !r.enable_override);
    assert_eq!(r.mode, RcsMode::Standalone);
    assert_eq!((f(r.strength.x), f(r.strength.y)), (0.5, 0.5));
    assert_eq!(f(r.smoothing), 0.0);
    let t = TriggerbotConfig::default();
    assert!(!t.enabled && !t.enable_override);
    assert_eq!(t.delay, MillisRange { start: 100, end: 200 });
    assert_eq!(t.shot_duration, 200);
    assert_eq!(t.mode, KeyMode::Hold);
    assert!(t.flash_check && t.scope_check && t.velocity_check);
    assert_eq!(f(t.velocity_threshold), 100.0);
    assert!(!t.head_only && !t.wallbang);
}

#[test]
fn weapon_config_enabled_sets_override() {
    let w = WeaponConfig::enabled(true);
    assert!(w.aimbot.enable_override);
    assert!(w.aimbot.enabled);
    let w = WeaponConfig::enabled(false);
    assert!(!w.aimbot.enable_override);
    assert_eq!(w.rcs, RcsConfig::default());
    assert_eq!(w.triggerbot, TriggerbotConfig::default());
}

#[test]
fn weapon_reset_turns_everything_off() {
    let w = WeaponConfig::reset();
    assert!(!w.aimbot.enable_override && !w.aimbot.enabled);
    assert!(!w.rcs.enable_override && !w.rcs.enabled);
    assert!(!w.triggerbot.enable_override && !w.triggerbot.enabled);
    assert!(!w.any_enabled());
    assert_eq!(f(w.aimbot.fov), 2.5);
    // the derived default has the aimbot on
    assert!(WeaponConfig::default().any_enabled());
}

#[test]
fn legit_preset_aim_is_off() {
    let w = WeaponConfig::legit();
    assert!(!w.any_enabled());
    assert!(!w.aimbot.enable_override);
    assert_eq!(f(w.aimbot.fov), 3.0);
    assert_eq!(f(w.aimbot.smooth), 10.0);
    assert_eq!(w.aimbot.start_bullet, 1);
    assert_eq!(w.aimbot.bones, vec![Bones::Head, Bones::Neck]);
    assert_eq!(w.rcs, RcsConfig::default());
    assert_eq!(w.triggerbot, TriggerbotConfig::default());
}

#[test]
fn aim_checks() {
    let a = AimbotConfig::default();
    let ok = AimContext { flashed: false, target_visible: true, shots_fired: 0 };
    assert!(a.allows_aim(ok));
    assert!(!a.allows_aim(AimContext { flashed: true, ..ok }));
    assert!(!a.allows_aim(AimContext { target_visible: false, ..ok }));
    let mut b = AimbotConfig::default();
    b.flash_check = false;
    b.visibility_check = false;
    b.start_bullet = 2;
    assert!(!b.allows_aim(AimContext { flashed: true, target_visible: false, shots_fired: 1 }));
    assert!(b.allows_aim(AimContext { flashed: true, target_visible: false, shots_fired: 2 }));
}
