use deadlocked::aim::WeaponConfig;
use deadlocked::color::Rgba;
use deadlocked::gui::{navigate, ActiveFeatures, AimbotTab, Tab};
use deadlocked::hud::{CrosshairConfig, HudConfig, RadarConfig, UnsafeConfig};

fn f(bits: deadlocked::config::F32Bits) -> f32 {
    f32::from_bits(bits.0)
}

#[test]
fn tabs_in_navbar_order() {
    assert_eq!(
        Tab::all(),
        vec![Tab::Aimbot, Tab::Visuals, Tab::Grenades, Tab::Unsafe, Tab::Config, Tab::Application]
    );
    assert_ne!(AimbotTab::Global, AimbotTab::Weapon);
}

#[test]
fn last_clicked_tab_wins() {
    let none = vec![false; 6];
    assert_eq!(navigate(Tab::Config, &none), Tab::Config);
    assert_eq!(navigate(Tab::Config, &vec![false, true, false, false, false, false]), Tab::Visuals);
    assert_eq!(navigate(Tab::Aimbot, &vec![true, false, false, true, false, true]), Tab::Application);
}

#[test]
fn tab_dots() {
    let f = ActiveFeatures { aim: true, visuals: false, hud: true, memory_writes: false };
    assert!(Tab::Aimbot.indicator(f));
    assert!(!Tab::Visuals.indicator(f));
    assert!(Tab::Grenades.indicator(f));
    assert!(!Tab::Unsafe.indicator(f));
    let all = ActiveFeatures { aim: true, visuals: true, hud: true, memory_writes: true };
    assert!(!Tab::Config.indicator(all));
    assert!(!Tab::Application.indicator(all));
}

#[test]
fn active_features_from_defaults() {
    let reset = WeaponConfig::reset();
    let f = ActiveFeatures::from_settings(&reset, true, &HudConfig::default(), &UnsafeConfig::default());
    assert_eq!(f, ActiveFeatures { aim: false, visuals: true, hud: true, memory_writes: false });
    let mut misc = UnsafeConfig::default();
    misc.radar_hack = true;
    let f = ActiveFeatures::from_settings(&WeaponConfig::default(), false, &HudConfig::legit(), &misc);
    assert_eq!(f, ActiveFeatures { aim: true, visuals: false, hud: true, memory_writes: true });
}

#[test]
fn hud_defaults() {
    let h = HudConfig::default();
    assert!(h.bomb_timer && !h.fov_circle && h.dropped_weapons && h.grenade_trails);
    assert!(!h.keybind_list && !h.spectator_list && h.text_outline && !h.debug);
    assert_eq!(h.smoke_trail_color, Rgba { r: 220, g: 220, b: 220, a: 255 });
    assert_eq!(h.molotov_trail_color, Rgba { r: 255, g: 0, b: 0, a: 255 });
    assert_eq!(h.incendiary_trail_color, Rgba { r: 255, g: 165, b: 0, a: 255 });
    assert_eq!(h.flash_trail_color, Rgba { r: 255, g: 255, b: 255, a: 255 });
    assert_eq!(h.he_trail_color, Rgba { r: 96, g: 96, b: 96, a: 255 });
    assert_eq!(h.decoy_trail_color, Rgba { r: 128, g: 0, b: 128, a: 255 });
    assert_eq!(h.text_color, Rgba { r: 238, g: 240, b: 248, a: 255 });
    assert_eq!((f(h.line_width), f(h.font_size), f(h.icon_size)), (2.0, 16.0, 20.0));
    assert_eq!(h.sniper_crosshair, CrosshairConfig::default());
    assert_eq!(h.radar, RadarConfig::default());
}

#[test]
fn hud_legit_preset() {
    let h = HudConfig::legit();
    assert!(h.bomb_timer && h.spectator_list && h.dropped_weapons);
    assert!(!h.keybind_list && !h.fov_circle && !h.grenade_trails);
    assert!(h.any_enabled());
    assert_eq!(h.radar, RadarConfig::default());
}

#[test]
fn crosshair_radar_and_unsafe_defaults() {
    let c = CrosshairConfig::default();
    assert!(c.enabled);
    assert_eq!(c.color, Rgba { r: 255, g: 255, b: 255, a: 255 });
    assert_eq!((f(c.line_length), f(c.line_width), f(c.gap)), (50.0, 2.0, 20.0));
    let r = RadarConfig::default();
    assert!(!r.enabled && r.rotate_with_player && !r.show_names);
    assert_eq!(r.background_alpha, 160);
    assert_eq!((f(r.size), f(r.zoom), f(r.pos_x), f(r.pos_y)), (200.0, 0.1, 10.0, 10.0));
    let u = UnsafeConfig::default();
    assert!(!u.no_flash && !u.fov_changer && !u.no_smoke && !u.change_smoke_color && !u.radar_hack);
    assert!(!u.any_enabled());
    assert_eq!(f(u.max_flash_alpha), 127.0);
    assert_eq!(u.desired_fov, 90);
    assert_eq!(u.smoke_color, Rgba { r: 255, g: 0, b: 0, a: 255 });
}
