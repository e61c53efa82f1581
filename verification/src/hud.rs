//! Settings of the overlay's HUD elements and of the features that write
//! to game memory.

use vstd::prelude::*;

use crate::color::{
    egui_dark_gray, egui_light_gray, egui_orange, egui_purple, egui_red, egui_white,
    egui_color_value, palette_value, Colors, EguiColor, Palette, Rgba,
};
use crate::config::F32Bits;

verus! {

/// The crosshair drawn while scoped with a sniper rifle.
#[derive(Clone, Copy, Debug, PartialEq, Eq, Structural)]
pub struct CrosshairConfig {
    pub enabled: bool,
    pub color: Rgba,
    pub line_length: F32Bits,
    pub line_width: F32Bits,
    pub gap: F32Bits,
}

impl CrosshairConfig {
    /// On, white, lines of 50 and width 2, gap 20.
    pub open spec fn spec_default() -> CrosshairConfig {
        CrosshairConfig {
            enabled: true,
            color: egui_color_value(EguiColor::White),
            line_length: F32Bits(0x4248_0000),
            line_width: F32Bits(0x4000_0000),
            gap: F32Bits(0x41a0_0000),
        }
    }
}

impl Default for CrosshairConfig {
    fn default() -> (c: Self)
        ensures
            c == CrosshairConfig::spec_default(),
    {
        CrosshairConfig {
            enabled: true,
            color: egui_white(),
            line_length: F32Bits(0x4248_0000),
            line_width: F32Bits(0x4000_0000),
            gap: F32Bits(0x41a0_0000),
        }
    }
}

/// The radar drawn on the overlay.
#[derive(Clone, Copy, Debug, PartialEq, Eq, Structural)]
pub struct RadarConfig {
    pub enabled: bool,
    pub size: F32Bits,
    pub zoom: F32Bits,
    pub rotate_with_player: bool,
    pub show_names: bool,
    pub background_alpha: u8,
    pub pos_x: F32Bits,
    pub pos_y: F32Bits,
}

impl RadarConfig {
    /// Off, 200 wide, zoom 0.1, rotating with the player, no names,
    /// background alpha 160, at (10, 10).
    pub open spec fn spec_default() -> RadarConfig {
        RadarConfig {
            enabled: false,
            size: F32Bits(0x4348_0000),
            zoom: F32Bits(0x3dcc_cccd),
            rotate_with_player: true,
            show_names: false,
            background_alpha: 160,
            pos_x: F32Bits(0x4120_0000),
            pos_y: F32Bits(0x4120_0000),
        }
    }
}

impl Default for RadarConfig {
    fn default() -> (c: Self)
        ensures
            c == RadarConfig::spec_default(),
    {
        RadarConfig {
            enabled: false,
            size: F32Bits(0x4348_0000),
            zoom: F32Bits(0x3dcc_cccd),
            rotate_with_player: true,
            show_names: false,
            background_alpha: 160,
            pos_x: F32Bits(0x4120_0000),
            pos_y: F32Bits(0x4120_0000),
        }
    }
}

/// HUD settings.
#[derive(Clone, Copy, Debug, PartialEq, Eq, Structural)]
pub struct HudConfig {
    pub bomb_timer: bool,
    pub fov_circle: bool,
    pub sniper_crosshair: CrosshairConfig,
    pub dropped_weapons: bool,
    pub keybind_list: bool,
    pub spectator_list: bool,
    pub grenade_trails: bool,
    pub smoke_trail_color: Rgba,
    pub molotov_trail_color: Rgba,
    pub incendiary_trail_color: Rgba,
    pub flash_trail_color: Rgba,
    pub he_trail_color: Rgba,
    pub decoy_trail_color: Rgba,
    pub text_outline: bool,
    pub text_color: Rgba,
    pub line_width: F32Bits,
    pub font_size: F32Bits,
    pub icon_size: F32Bits,
    pub debug: bool,
    pub radar: RadarConfig,
}

impl HudConfig {
    /// Bomb timer, dropped weapons and grenade trails on; fov circle,
    /// keybind and spectator lists off; egui's light gray, red, orange,
    /// white, dark gray and purple for the trails of smokes, molotovs,
    /// incendiaries, flashes, HE grenades and decoys; outlined text in the
    /// palette's text colour; line width 2, font size 16, icon size 20; no
    /// debug output; the default crosshair and radar.
    pub open spec fn spec_default() -> HudConfig {
        HudConfig {
            bomb_timer: true,
            fov_circle: false,
            sniper_crosshair: CrosshairConfig::spec_default(),
            dropped_weapons: true,
            keybind_list: false,
            spectator_list: false,
            grenade_trails: true,
            smoke_trail_color: egui_color_value(EguiColor::LightGray),
            molotov_trail_color: egui_color_value(EguiColor::Red),
            incendiary_trail_color: egui_color_value(EguiColor::Orange),
            flash_trail_color: egui_color_value(EguiColor::White),
            he_trail_color: egui_color_value(EguiColor::DarkGray),
            decoy_trail_color: egui_color_value(EguiColor::Purple),
            text_outline: true,
            text_color: palette_value(Palette::Text),
            line_width: F32Bits(0x4000_0000),
            font_size: F32Bits(0x4180_0000),
            icon_size: F32Bits(0x41a0_0000),
            debug: false,
            radar: RadarConfig::spec_default(),
        }
    }

    /// The HUD of the "legit" preset: bomb timer, spectator list and dropped
    /// weapons on; keybind list, fov circle and grenade trails off; the rest
    /// as by default.
    pub fn legit() -> (c: Self)
        ensures
            c == (HudConfig {
                bomb_timer: true,
                spectator_list: true,
                dropped_weapons: true,
                keybind_list: false,
                fov_circle: false,
                grenade_trails: false,
                ..HudConfig::spec_default()
            }),
    {
        let mut c = HudConfig::default();
        c.bomb_timer = true;
        c.spectator_list = true;
        c.dropped_weapons = true;
        c.keybind_list = false;
        c.fov_circle = false;
        c.grenade_trails = false;
        c
    }

    /// Whether a HUD feature with a tab indicator is on: grenade trails,
    /// the bomb timer or the fov circle.
    pub fn any_enabled(&self) -> (b: bool)
        ensures
            b == (self.grenade_trails || self.bomb_timer || self.fov_circle),
    {
        self.grenade_trails || self.bomb_timer || self.fov_circle
    }
}

impl Default for HudConfig {
    fn default() -> (c: Self)
        ensures
            c == HudConfig::spec_default(),
    {
        HudConfig {
            bomb_timer: true,
            fov_circle: false,
            sniper_crosshair: CrosshairConfig::default(),
            dropped_weapons: true,
            keybind_list: false,
            spectator_list: false,
            grenade_trails: true,
            smoke_trail_color: egui_light_gray(),
            molotov_trail_color: egui_red(),
            incendiary_trail_color: egui_orange(),
            flash_trail_color: egui_white(),
            he_trail_color: egui_dark_gray(),
            decoy_trail_color: egui_purple(),
            text_outline: true,
            text_color: Colors::palette(Palette::Text),
            line_width: F32Bits(0x4000_0000),
            font_size: F32Bits(0x4180_0000),
            icon_size: F32Bits(0x41a0_0000),
            debug: false,
            radar: RadarConfig::default(),
        }
    }
}

/// Settings of the features that write to game memory.
#[derive(Clone, Copy, Debug, PartialEq, Eq, Structural)]
pub struct UnsafeConfig {
    pub no_flash: bool,
    pub max_flash_alpha: F32Bits,
    pub fov_changer: bool,
    pub desired_fov: u32,
    pub no_smoke: bool,
    pub change_smoke_color: bool,
    pub smoke_color: Rgba,
    pub radar_hack: bool,
}

impl UnsafeConfig {
    /// Every feature off; flash alpha limit 127, fov 90, red smoke colour.
    pub open spec fn spec_default() -> UnsafeConfig {
        UnsafeConfig {
            no_flash: false,
            max_flash_alpha: F32Bits(0x42fe_0000),
            fov_changer: false,
            desired_fov: 90,
            no_smoke: false,
            change_smoke_color: false,
            smoke_color: egui_color_value(EguiColor::Red),
            radar_hack: false,
        }
    }

    /// Whether a feature with a tab indicator is on: no-flash, the fov
    /// changer, no-smoke or the radar.
    pub fn any_enabled(&self) -> (b: bool)
        ensures
            b == (self.no_flash || self.fov_changer || self.no_smoke || self.radar_hack),
    {
        self.no_flash || self.fov_changer || self.no_smoke || self.radar_hack
    }
}

impl Default for UnsafeConfig {
    fn default() -> (c: Self)
        ensures
            c == UnsafeConfig::spec_default(),
    {
        UnsafeConfig {
            no_flash: false,
            max_flash_alpha: F32Bits(0x42fe_0000),
            fov_changer: false,
            desired_fov: 90,
            no_smoke: false,
            change_smoke_color: false,
            smoke_color: egui_red(),
            radar_hack: false,
        }
    }
}

} // verus!
