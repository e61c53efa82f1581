//! The aim settings of one weapon (or of all weapons): aimbot, recoil
//! control and triggerbot.

use std::collections::HashMap;

use vstd::prelude::*;

use crate::body_picker::Bones;
use crate::config::{F32Bits, KeyMode, RcsMode, TargetingMode, Vec2Bits};
use crate::gui::AimbotTab;

verus! {

/// Aimbot settings.
#[derive(Clone, Debug)]
pub struct AimbotConfig {
    /// The weapon's own settings replace the global ones.
    pub enable_override: bool,
    pub enabled: bool,
    pub mode: KeyMode,
    pub target_friendlies: bool,
    pub distance_adjusted_fov: bool,
    /// Shots to fire before the aimbot engages.
    pub start_bullet: i32,
    pub visibility_check: bool,
    pub flash_check: bool,
    /// Degrees.
    pub fov: F32Bits,
    pub smooth: F32Bits,
    /// The bones aimed at.
    pub bones: Vec<Bones>,
    pub targeting_mode: TargetingMode,
}

/// The bones the aimbot aims at by default: head, neck, the spine from top
/// to bottom, hip.
pub open spec fn default_aim_bones() -> Seq<Bones> {
    seq![
        Bones::Head,
        Bones::Neck,
        Bones::Spine4,
        Bones::Spine3,
        Bones::Spine2,
        Bones::Spine1,
        Bones::Hip,
    ]
}

impl AimbotConfig {
    /// The default aimbot settings: enabled, not overriding, held with its
    /// key, checking visibility and flashes, 2.5 degrees of fov, smoothing 5,
    /// aiming at the default bones by fov.
    pub open spec fn is_default(self) -> bool {
        &&& !self.enable_override
        &&& self.enabled
        &&& self.mode == KeyMode::Hold
        &&& !self.target_friendlies
        &&& self.distance_adjusted_fov
        &&& self.start_bullet == 0
        &&& self.visibility_check
        &&& self.flash_check
        &&& self.fov == F32Bits(0x4020_0000)
        &&& self.smooth == F32Bits(0x40a0_0000)
        &&& self.bones@ == default_aim_bones()
        &&& self.targeting_mode == TargetingMode::Fov
    }
}

/// What the game shows when the aimbot considers moving the aim.
#[derive(Clone, Copy, Debug, PartialEq, Eq, Structural)]
pub struct AimContext {
    /// The local player is flashed.
    pub flashed: bool,
    /// The target is visible from the local player.
    pub target_visible: bool,
    /// Shots fired in the current spray.
    pub shots_fired: i32,
}

impl AimbotConfig {
    /// The aimbot's checks before aiming: not flashed (when checked), the
    /// target visible (when checked), and at least `start_bullet` shots
    /// fired.
    pub open spec fn spec_allows_aim(self, c: AimContext) -> bool {
        &&& !(self.flash_check && c.flashed)
        &&& !(self.visibility_check && !c.target_visible)
        &&& c.shots_fired >= self.start_bullet
    }

    /// Whether the checks before aiming pass (see `spec_allows_aim`).
    pub fn allows_aim(&self, c: AimContext) -> (b: bool)
        ensures
            b == self.spec_allows_aim(c),
            self.flash_check && c.flashed ==> !b,
            self.visibility_check && !c.target_visible ==> !b,
            c.shots_fired < self.start_bullet ==> !b,
            !c.flashed && c.target_visible && c.shots_fired >= self.start_bullet ==> b,
            !self.flash_check && !self.visibility_check ==> (b <==> c.shots_fired
                >= self.start_bullet),
    {
        if self.flash_check && c.flashed {
            return false;
        }
        if self.visibility_check && !c.target_visible {
            return false;
        }
        c.shots_fired >= self.start_bullet
    }
}

impl Default for AimbotConfig {
    fn default() -> (c: Self)
        ensures
            c.is_default(),
    {
        let bones = vec![
            Bones::Head,
            Bones::Neck,
            Bones::Spine4,
            Bones::Spine3,
            Bones::Spine2,
            Bones::Spine1,
            Bones::Hip,
        ];
        assert(bones@ =~= default_aim_bones());
        AimbotConfig {
            enable_override: false,
            enabled: true,
            mode: KeyMode::Hold,
            target_friendlies: false,
            distance_adjusted_fov: true,
            start_bullet: 0,
            visibility_check: true,
            flash_check: true,
            fov: F32Bits(0x4020_0000),
            smooth: F32Bits(0x40a0_0000),
            bones,
            targeting_mode: TargetingMode::Fov,
        }
    }
}

/// Recoil control settings.
#[derive(Clone, Copy, Debug, PartialEq, Eq, Structural)]
pub struct RcsConfig {
    pub enable_override: bool,
    pub enabled: bool,
    pub mode: RcsMode,
    /// Share of the recoil compensated on each axis.
    pub strength: Vec2Bits,
    /// Smoothing factor, from 0 (instant) to 0.95 (heavy).
    pub smoothing: F32Bits,
}

impl RcsConfig {
    /// Off, not overriding, standalone, half strength on both axes, no
    /// smoothing.
    pub open spec fn spec_default() -> RcsConfig {
        RcsConfig {
            enable_override: false,
            enabled: false,
            mode: RcsMode::Standalone,
            strength: Vec2Bits { x: F32Bits(0x3f00_0000), y: F32Bits(0x3f00_0000) },
            smoothing: F32Bits(0),
        }
    }
}

impl Default for RcsConfig {
    fn default() -> (c: Self)
        ensures
            c == RcsConfig::spec_default(),
    {
        RcsConfig {
            enable_override: false,
            enabled: false,
            mode: RcsMode::Standalone,
            strength: Vec2Bits { x: F32Bits(0x3f00_0000), y: F32Bits(0x3f00_0000) },
            smoothing: F32Bits(0),
        }
    }
}

/// A range of milliseconds, both ends included.
#[derive(Clone, Copy, Debug, PartialEq, Eq, Structural)]
pub struct MillisRange {
    pub start: u64,
    pub end: u64,
}

/// Triggerbot settings.
#[derive(Clone, Copy, Debug, PartialEq, Eq, Structural)]
pub struct TriggerbotConfig {
    pub enable_override: bool,
    pub enabled: bool,
    /// The delay before a shot is drawn around the middle of this range.
    pub delay: MillisRange,
    /// How long the button is held, in milliseconds.
    pub shot_duration: u64,
    pub mode: KeyMode,
    pub flash_check: bool,
    pub scope_check: bool,
    pub velocity_check: bool,
    pub velocity_threshold: F32Bits,
    pub head_only: bool,
    /// Fire when an enemy lies along the aim ray behind a wall.
    pub wallbang: bool,
}

impl TriggerbotConfig {
    /// Off, not overriding, 100 to 200 ms of delay, 200 ms shots, held with
    /// its key, all checks on with a velocity limit of 100, body shots
    /// allowed, no wallbangs.
    pub open spec fn spec_default() -> TriggerbotConfig {
        TriggerbotConfig {
            enable_override: false,
            enabled: false,
            delay: MillisRange { start: 100, end: 200 },
            shot_duration: 200,
            mode: KeyMode::Hold,
            flash_check: true,
            scope_check: true,
            velocity_check: true,
            velocity_threshold: F32Bits(0x42c8_0000),
            head_only: false,
            wallbang: false,
        }
    }
}

impl Default for TriggerbotConfig {
    fn default() -> (c: Self)
        ensures
            c == TriggerbotConfig::spec_default(),
    {
        TriggerbotConfig {
            enable_override: false,
            enabled: false,
            delay: MillisRange { start: 100, end: 200 },
            shot_duration: 200,
            mode: KeyMode::Hold,
            flash_check: true,
            scope_check: true,
            velocity_check: true,
            velocity_threshold: F32Bits(0x42c8_0000),
            head_only: false,
            wallbang: false,
        }
    }
}

/// The aim settings of a weapon, or the global ones.
#[derive(Clone, Debug)]
pub struct WeaponConfig {
    pub aimbot: AimbotConfig,
    pub rcs: RcsConfig,
    pub triggerbot: TriggerbotConfig,
}

impl WeaponConfig {
    /// No override is set and no feature is on.
    pub open spec fn all_off(self) -> bool {
        &&& !self.aimbot.enable_override && !self.aimbot.enabled
        &&& !self.rcs.enable_override && !self.rcs.enabled
        &&& !self.triggerbot.enable_override && !self.triggerbot.enabled
    }

    /// Default settings whose aimbot override is `enabled`.
    pub fn enabled(enabled: bool) -> (c: Self)
        ensures
            c.aimbot.enable_override == enabled,
            c.aimbot.enabled,
            c.aimbot.mode == KeyMode::Hold,
            !c.aimbot.target_friendlies,
            c.aimbot.distance_adjusted_fov,
            c.aimbot.start_bullet == 0,
            c.aimbot.visibility_check,
            c.aimbot.flash_check,
            c.aimbot.fov == F32Bits(0x4020_0000),
            c.aimbot.smooth == F32Bits(0x40a0_0000),
            c.aimbot.bones@ == default_aim_bones(),
            c.aimbot.targeting_mode == TargetingMode::Fov,
            c.rcs == RcsConfig::spec_default(),
            c.triggerbot == TriggerbotConfig::spec_default(),
    {
        let mut aimbot = AimbotConfig::default();
        aimbot.enable_override = enabled;
        WeaponConfig { aimbot, rcs: RcsConfig::default(), triggerbot: TriggerbotConfig::default() }
    }

    /// The settings a weapon is reset to: every override off and every
    /// feature off, so the global settings apply and nothing shows as
    /// active; all other values are the defaults.
    pub open spec fn is_reset(self) -> bool {
        &&& self.all_off()
        &&& (AimbotConfig { enabled: true, ..self.aimbot }).is_default()
        &&& self.rcs == RcsConfig::spec_default()
        &&& self.triggerbot == TriggerbotConfig::spec_default()
    }

    /// The default settings of a weapon.
    pub open spec fn is_default(self) -> bool {
        &&& self.aimbot.is_default()
        &&& self.rcs == RcsConfig::spec_default()
        &&& self.triggerbot == TriggerbotConfig::spec_default()
    }

    /// The settings a weapon is reset to (see `is_reset`).
    pub fn reset() -> (c: Self)
        ensures
            c.is_reset(),
    {
        let mut aimbot = AimbotConfig::default();
        aimbot.enable_override = false;
        aimbot.enabled = false;
        WeaponConfig { aimbot, rcs: RcsConfig::default(), triggerbot: TriggerbotConfig::default() }
    }

    /// The aim part of the "legit" preset: aimbot, recoil control and
    /// triggerbot all off and not overriding; should the aimbot be turned
    /// on, it is held, checks visibility and flashes, waits for the first
    /// shot, aims within 3 degrees with smoothing 10, at head and neck only.
    pub open spec fn is_legit(self) -> bool {
        &&& self.all_off()
        &&& self.aimbot.mode == KeyMode::Hold
        &&& self.aimbot.fov == F32Bits(0x4040_0000)
        &&& self.aimbot.smooth == F32Bits(0x4120_0000)
        &&& self.aimbot.visibility_check
        &&& self.aimbot.flash_check
        &&& self.aimbot.start_bullet == 1
        &&& self.aimbot.distance_adjusted_fov
        &&& !self.aimbot.target_friendlies
        &&& self.aimbot.bones@ == seq![Bones::Head, Bones::Neck]
        &&& self.aimbot.targeting_mode == TargetingMode::Fov
        &&& self.rcs == RcsConfig::spec_default()
        &&& self.triggerbot == TriggerbotConfig::spec_default()
    }

    /// The aim part of the "legit" preset (see `is_legit`).
    pub fn legit() -> (c: Self)
        ensures
            c.is_legit(),
    {
        let bones = vec![Bones::Head, Bones::Neck];
        assert(bones@ =~= seq![Bones::Head, Bones::Neck]);
        let aimbot = AimbotConfig {
            enable_override: false,
            enabled: false,
            mode: KeyMode::Hold,
            fov: F32Bits(0x4040_0000),
            smooth: F32Bits(0x4120_0000),
            visibility_check: true,
            flash_check: true,
            start_bullet: 1,
            distance_adjusted_fov: true,
            target_friendlies: false,
            bones,
            targeting_mode: TargetingMode::Fov,
        };
        let rcs = RcsConfig {
            enable_override: false,
            enabled: false,
            mode: RcsMode::Standalone,
            strength: Vec2Bits { x: F32Bits(0x3f00_0000), y: F32Bits(0x3f00_0000) },
            smoothing: F32Bits(0),
        };
        let mut triggerbot = TriggerbotConfig::default();
        triggerbot.enable_override = false;
        triggerbot.enabled = false;
        WeaponConfig { aimbot, rcs, triggerbot }
    }

    /// Whether any aim feature of these settings is on (the dot on the
    /// aim tab).
    pub fn any_enabled(&self) -> (b: bool)
        ensures
            b == (self.aimbot.enabled || self.triggerbot.enabled || self.rcs.enabled),
    {
        self.aimbot.enabled || self.triggerbot.enabled || self.rcs.enabled
    }
}

impl Default for WeaponConfig {
    fn default() -> (c: Self)
        ensures
            c.is_default(),
    {
        WeaponConfig {
            aimbot: AimbotConfig::default(),
            rcs: RcsConfig::default(),
            triggerbot: TriggerbotConfig::default(),
        }
    }
}

/// The aim settings: the two hotkeys, the global settings and the settings
/// of each weapon, by weapon id.
pub struct AimConfig {
    /// The name of the aimbot's hotkey.
    pub aimbot_hotkey: String,
    /// The name of the triggerbot's hotkey.
    pub triggerbot_hotkey: String,
    pub global: WeaponConfig,
    pub weapons: HashMap<u32, WeaponConfig>,
}

/// The global settings of a new configuration: the default settings with
/// the aimbot override on.
pub open spec fn is_default_global(w: WeaponConfig) -> bool {
    &&& w.aimbot.enable_override
    &&& (AimbotConfig { enable_override: false, ..w.aimbot }).is_default()
    &&& w.rcs == RcsConfig::spec_default()
    &&& w.triggerbot == TriggerbotConfig::spec_default()
}

/// The map holds exactly the weapons of `ids`.
pub open spec fn has_weapons(m: Map<u32, WeaponConfig>, ids: Seq<u32>) -> bool {
    forall|k: u32| #[trigger] m.contains_key(k) <==> ids.contains(k)
}

impl AimConfig {
    /// The settings the aim tab edits: the global ones, or those of
    /// `weapon` (`None` where the weapon has none).
    pub open spec fn spec_weapon_config(self, tab: AimbotTab, weapon: u32) -> Option<WeaponConfig> {
        match tab {
            AimbotTab::Global => Some(self.global),
            AimbotTab::Weapon => if self.weapons@.contains_key(weapon) {
                Some(self.weapons@[weapon])
            } else {
                None
            },
        }
    }

    /// New aim settings for the weapons `weapon_ids`: the aimbot on mouse
    /// button 5 and the triggerbot on mouse button 4, the global settings
    /// with the aimbot override on, and default settings for each weapon.
    pub fn new(weapon_ids: &Vec<u32>) -> (c: AimConfig)
        ensures
            c.aimbot_hotkey@ == "Mouse5"@,
            c.triggerbot_hotkey@ == "Mouse4"@,
            is_default_global(c.global),
            has_weapons(c.weapons@, weapon_ids@),
            forall|k: u32| #[trigger] c.weapons@.contains_key(k) ==> c.weapons@[k].is_default(),
    {
        let mut weapons: HashMap<u32, WeaponConfig> = HashMap::new();
        let mut i: usize = 0;
        while i < weapon_ids.len()
            invariant
                i <= weapon_ids@.len(),
                forall|k: u32| #[trigger]
                    weapons@.contains_key(k) <==> weapon_ids@.take(i as int).contains(k),
                forall|k: u32| #[trigger] weapons@.contains_key(k) ==> weapons@[k].is_default(),
            decreases weapon_ids@.len() - i,
        {
            let id = weapon_ids[i];
            proof {
                lemma_take_one_more(weapon_ids@, i as int);
            }
            weapons.insert(id, WeaponConfig::default());
            i = i + 1;
        }
        assert(weapon_ids@.take(weapon_ids@.len() as int) =~= weapon_ids@);
        let aimbot_hotkey = "Mouse5".to_owned();
        let triggerbot_hotkey = "Mouse4".to_owned();
        AimConfig { aimbot_hotkey, triggerbot_hotkey, global: WeaponConfig::enabled(true), weapons }
    }

    /// The settings the aim tab edits (see `spec_weapon_config`).
    pub fn weapon_config(&self, tab: AimbotTab, weapon: u32) -> (w: Option<&WeaponConfig>)
        ensures
            match w {
                Some(c) => self.spec_weapon_config(tab, weapon) == Some(*c),
                None => self.spec_weapon_config(tab, weapon) is None,
            },
    {
        match tab {
            AimbotTab::Global => Some(&self.global),
            AimbotTab::Weapon => self.weapons.get(&weapon),
        }
    }

    /// Stores the settings the aim tab edited: the global ones, or those of
    /// `weapon`, which gets settings of its own if it had none. Everything
    /// else is kept.
    pub fn set_weapon_config(&mut self, tab: AimbotTab, weapon: u32, w: WeaponConfig)
        ensures
            tab == AimbotTab::Global ==> final(self).global == w && final(self).weapons@ == old(
                self,
            ).weapons@,
            tab == AimbotTab::Weapon ==> final(self).weapons@ == old(self).weapons@.insert(weapon, w)
                && final(self).global == old(self).global,
            final(self).spec_weapon_config(tab, weapon) == Some(w),
            final(self).aimbot_hotkey == old(self).aimbot_hotkey,
            final(self).triggerbot_hotkey == old(self).triggerbot_hotkey,
    {
        match tab {
            AimbotTab::Global => {
                self.global = w;
            },
            AimbotTab::Weapon => {
                self.weapons.insert(weapon, w);
            },
        }
    }

    /// Resets the settings of `weapon` (see `WeaponConfig::is_reset`); the
    /// other weapons, the global settings and the hotkeys are kept.
    pub fn reset_weapon(&mut self, weapon: u32)
        ensures
            final(self).weapons@.dom() == old(self).weapons@.dom().insert(weapon),
            final(self).weapons@[weapon].is_reset(),
            forall|k: u32|
                k != weapon && #[trigger] old(self).weapons@.contains_key(k) ==> final(self).weapons@[k]
                    == old(self).weapons@[k],
            final(self).global == old(self).global,
            final(self).aimbot_hotkey == old(self).aimbot_hotkey,
            final(self).triggerbot_hotkey == old(self).triggerbot_hotkey,
    {
        self.weapons.insert(weapon, WeaponConfig::reset());
    }

    /// Resets the settings of every weapon of `weapon_ids`; the other
    /// weapons, the global settings and the hotkeys are kept.
    pub fn reset_all_weapons(&mut self, weapon_ids: &Vec<u32>)
        ensures
            forall|k: u32| #[trigger]
                final(self).weapons@.contains_key(k) <==> (old(self).weapons@.contains_key(k)
                    || weapon_ids@.contains(k)),
            forall|k: u32| #[trigger]
                weapon_ids@.contains(k) ==> final(self).weapons@[k].is_reset(),
            forall|k: u32|
                !weapon_ids@.contains(k) && #[trigger] old(self).weapons@.contains_key(k)
                    ==> final(self).weapons@[k] == old(self).weapons@[k],
            final(self).global == old(self).global,
            final(self).aimbot_hotkey == old(self).aimbot_hotkey,
            final(self).triggerbot_hotkey == old(self).triggerbot_hotkey,
    {
        let mut i: usize = 0;
        while i < weapon_ids.len()
            invariant
                i <= weapon_ids@.len(),
                forall|k: u32| #[trigger]
                    self.weapons@.contains_key(k) <==> (old(self).weapons@.contains_key(k)
                        || weapon_ids@.take(i as int).contains(k)),
                forall|k: u32| #[trigger]
                    weapon_ids@.take(i as int).contains(k) ==> self.weapons@[k].is_reset(),
                forall|k: u32|
                    !weapon_ids@.take(i as int).contains(k) && #[trigger] old(self).weapons@.contains_key(k)
                        ==> self.weapons@[k] == old(self).weapons@[k],
                self.global == old(self).global,
                self.aimbot_hotkey == old(self).aimbot_hotkey,
                self.triggerbot_hotkey == old(self).triggerbot_hotkey,
            decreases weapon_ids@.len() - i,
        {
            let id = weapon_ids[i];
            proof {
                lemma_take_one_more(weapon_ids@, i as int);
            }
            self.weapons.insert(id, WeaponConfig::reset());
            i = i + 1;
        }
        assert(weapon_ids@.take(weapon_ids@.len() as int) =~= weapon_ids@);
    }
}

/// The first `i + 1` ids hold exactly the first `i` and the next one.
proof fn lemma_take_one_more(ids: Seq<u32>, i: int)
    requires
        0 <= i < ids.len(),
    ensures
        forall|k: u32|
            #[trigger] ids.take(i + 1).contains(k) <==> (ids.take(i).contains(k) || k == ids[i]),
{
    assert forall|k: u32| #[trigger] ids.take(i + 1).contains(k) <==> (ids.take(i).contains(k) || k
        == ids[i]) by {
        if ids.take(i + 1).contains(k) {
            let j = choose|j: int| 0 <= j < i + 1 && #[trigger] ids.take(i + 1)[j] == k;
            if j < i {
                assert(ids.take(i)[j] == k);
            }
        }
        if ids.take(i).contains(k) {
            let j = choose|j: int| 0 <= j < i && #[trigger] ids.take(i)[j] == k;
            assert(ids.take(i + 1)[j] == k);
        }
        if k == ids[i] {
            assert(ids.take(i + 1)[i] == k);
        }
    }
}

/// The aimbot's checks only ever refuse: switching a check off never turns
/// an aim into a refusal, and an unflashed player who sees the target and
/// has fired enough shots always passes.
pub proof fn lemma_aim_checks(cfg: AimbotConfig, c: AimContext)
    ensures
        cfg.spec_allows_aim(c) ==> cfg.spec_allows_aim(c) && (AimbotConfig {
            flash_check: false,
            ..cfg
        }).spec_allows_aim(c) && (AimbotConfig { visibility_check: false, ..cfg }).spec_allows_aim(
            c,
        ),
        !c.flashed && c.target_visible && c.shots_fired >= cfg.start_bullet ==> cfg.spec_allows_aim(
            c,
        ),
        c.shots_fired < cfg.start_bullet ==> !cfg.spec_allows_aim(c),
{
}

} // verus!
