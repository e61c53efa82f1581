//! Player ESP settings: what is drawn of each player, and the sound
//! indicators.

use vstd::prelude::*;

use crate::color::{egui_color_value, egui_red, egui_white, EguiColor, Rgba};
use crate::config::{BoxMode, DrawMode, F32Bits};

verus! {

/// Sound ESP settings. Diameters are in world units, times in seconds.
#[derive(Clone, Copy, Debug, PartialEq, Eq, Structural)]
pub struct SoundConfig {
    pub enabled: bool,
    pub footstep_diameter: F32Bits,
    pub gunshot_diameter: F32Bits,
    pub weapon_diameter: F32Bits,
    /// How long a sound shows at full strength.
    pub fadeout_start: F32Bits,
    /// How long it then takes to fade out.
    pub fadeout_duration: F32Bits,
    /// Also show the sounds of visible players.
    pub show_visible: bool,
}

/// The bit pattern of `1.0f32`.
pub const ONE_F32_BITS: u32 = 0x3f80_0000;

impl SoundConfig {
    /// Sound ESP off with the given indicator diameters, full strength for
    /// one second and a fade of one second, visible players included.
    pub open spec fn spec_with_diameters(
        footstep: F32Bits,
        gunshot: F32Bits,
        weapon: F32Bits,
    ) -> SoundConfig {
        SoundConfig {
            enabled: false,
            footstep_diameter: footstep,
            gunshot_diameter: gunshot,
            weapon_diameter: weapon,
            fadeout_start: F32Bits(ONE_F32_BITS),
            fadeout_duration: F32Bits(ONE_F32_BITS),
            show_visible: true,
        }
    }

    /// The default sound settings for the given indicator diameters (see
    /// `spec_with_diameters`).
    pub fn with_diameters(footstep: F32Bits, gunshot: F32Bits, weapon: F32Bits) -> (c: SoundConfig)
        ensures
            c == SoundConfig::spec_with_diameters(footstep, gunshot, weapon),
    {
        SoundConfig {
            enabled: false,
            footstep_diameter: footstep,
            gunshot_diameter: gunshot,
            weapon_diameter: weapon,
            fadeout_start: F32Bits(ONE_F32_BITS),
            fadeout_duration: F32Bits(ONE_F32_BITS),
            show_visible: true,
        }
    }
}

/// Player ESP settings.
#[derive(Clone, Debug)]
pub struct PlayerConfig {
    pub enabled: bool,
    /// The name of the key that switches the ESP.
    pub esp_hotkey: String,
    pub show_friendlies: bool,
    pub draw_box: DrawMode,
    pub box_mode: BoxMode,
    pub box_visible_color: Rgba,
    pub box_invisible_color: Rgba,
    pub draw_skeleton: DrawMode,
    pub skeleton_color: Rgba,
    pub head_circle: bool,
    pub health_bar: bool,
    pub armor_bar: bool,
    pub player_name: bool,
    pub name_color: Rgba,
    pub weapon_icon: bool,
    pub weapon_icon_color: Rgba,
    pub tags: bool,
    pub tag_color: Rgba,
    pub visible_only: bool,
    pub sound: SoundConfig,
}

impl PlayerConfig {
    /// The settings both presets share: ESP on its `X` key, enemies only,
    /// gapped boxes white when visible and red when not, health and armor
    /// bars, names and weapon icons, all other colours white, hidden
    /// players shown too, and the given sound settings. What the presets
    /// differ in is given as arguments.
    pub open spec fn shares_presets(
        self,
        sound: SoundConfig,
        draw_box: DrawMode,
        draw_skeleton: DrawMode,
        extras: bool,
    ) -> bool {
        let white = egui_color_value(EguiColor::White);
        &&& self.enabled
        &&& self.esp_hotkey@ == "X"@
        &&& !self.show_friendlies
        &&& self.draw_box == draw_box
        &&& self.box_mode == BoxMode::Gap
        &&& self.box_visible_color == white
        &&& self.box_invisible_color == egui_color_value(EguiColor::Red)
        &&& self.draw_skeleton == draw_skeleton
        &&& self.skeleton_color == white
        &&& self.head_circle == extras
        &&& self.health_bar
        &&& self.armor_bar
        &&& self.player_name
        &&& self.name_color == white
        &&& self.weapon_icon
        &&& self.weapon_icon_color == white
        &&& self.tags == extras
        &&& self.tag_color == white
        &&& !self.visible_only
        &&& self.sound == sound
    }

    /// The default player settings: boxes coloured by team colour,
    /// skeletons by health, head circles and tags on (see
    /// `shares_presets`).
    pub fn with_sound(sound: SoundConfig) -> (c: PlayerConfig)
        ensures
            c.shares_presets(sound, DrawMode::Color, DrawMode::Health, true),
    {
        PlayerConfig::preset(sound, DrawMode::Color, DrawMode::Health, true)
    }

    /// The player settings of the "legit" preset: boxes coloured by health,
    /// no skeleton, no head circles and no tags (see `shares_presets`).
    pub fn legit(sound: SoundConfig) -> (c: PlayerConfig)
        ensures
            c.shares_presets(sound, DrawMode::Health, DrawMode::Off, false),
    {
        PlayerConfig::preset(sound, DrawMode::Health, DrawMode::Off, false)
    }

    /// The colour of a player's box: by team colour, the visible or the
    /// hidden colour; otherwise (by health, or no box) `health_color`.
    pub open spec fn spec_box_color(self, visible: bool, health_color: Rgba) -> Rgba {
        match self.draw_box {
            DrawMode::Color => if visible {
                self.box_visible_color
            } else {
                self.box_invisible_color
            },
            DrawMode::Health | DrawMode::Off => health_color,
        }
    }

    /// The colour of a player's box (see `spec_box_color`).
    pub fn box_color(&self, visible: bool, health_color: Rgba) -> (c: Rgba)
        ensures
            c == self.spec_box_color(visible, health_color),
            self.draw_box != DrawMode::Color ==> c == health_color,
            self.draw_box == DrawMode::Color && visible ==> c == self.box_visible_color,
            self.draw_box == DrawMode::Color && !visible ==> c == self.box_invisible_color,
    {
        match self.draw_box {
            DrawMode::Color => if visible {
                self.box_visible_color
            } else {
                self.box_invisible_color
            },
            DrawMode::Health | DrawMode::Off => health_color,
        }
    }

    fn preset(sound: SoundConfig, draw_box: DrawMode, draw_skeleton: DrawMode, extras: bool) -> (c:
        PlayerConfig)
        ensures
            c.shares_presets(sound, draw_box, draw_skeleton, extras),
    {
        let white = egui_white();
        PlayerConfig {
            enabled: true,
            esp_hotkey: "X".to_owned(),
            show_friendlies: false,
            draw_box,
            box_mode: BoxMode::Gap,
            box_visible_color: white,
            box_invisible_color: egui_red(),
            draw_skeleton,
            skeleton_color: white,
            head_circle: extras,
            health_bar: true,
            armor_bar: true,
            player_name: true,
            name_color: white,
            weapon_icon: true,
            weapon_icon_color: white,
            tags: extras,
            tag_color: white,
            visible_only: false,
            sound,
        }
    }
}

/// A box is coloured by health whenever it is not coloured by team colour,
/// whether the player is visible or not; by team colour, visibility picks
/// between the two configured colours and the health plays no part.
pub proof fn lemma_box_color_by_mode(p: PlayerConfig, visible: bool, health: Rgba, other: Rgba)
    ensures
        p.draw_box != DrawMode::Color ==> p.spec_box_color(visible, health) == health
            && p.spec_box_color(!visible, health) == health,
        p.draw_box == DrawMode::Color ==> p.spec_box_color(visible, health) == p.spec_box_color(
            visible,
            other,
        ),
        p.draw_box == DrawMode::Color ==> p.spec_box_color(true, health) == p.box_visible_color
            && p.spec_box_color(false, health) == p.box_invisible_color,
{
}

} // verus!
