//! Navigation of the settings window: its tabs, which tab a click selects
//! and which tabs show the dot of an active feature.

use vstd::prelude::*;

use crate::aim::WeaponConfig;
use crate::hud::{HudConfig, UnsafeConfig};

verus! {

/// The tabs of the settings window.
#[derive(Clone, Copy, Debug, PartialEq, Eq, Structural)]
pub enum Tab {
    Aimbot,
    Visuals,
    Grenades,
    Unsafe,
    Config,
    Application,
}

/// Whether the aim tab edits the global settings or those of one weapon.
#[derive(Clone, Copy, Debug, PartialEq, Eq, Structural)]
pub enum AimbotTab {
    Global,
    Weapon,
}

/// The tabs in navbar order.
pub open spec fn tabs_spec() -> Seq<Tab> {
    seq![Tab::Aimbot, Tab::Visuals, Tab::Grenades, Tab::Unsafe, Tab::Config, Tab::Application]
}

/// Which feature groups are on, for the dots on the tabs.
#[derive(Clone, Copy, Debug, PartialEq, Eq, Structural)]
pub struct ActiveFeatures {
    pub aim: bool,
    pub visuals: bool,
    pub hud: bool,
    pub memory_writes: bool,
}

impl ActiveFeatures {
    /// The dots of the current settings: the global aim settings, whether
    /// player ESP is on, the HUD and the memory-writing features.
    pub fn from_settings(global: &WeaponConfig, player_esp: bool, hud: &HudConfig, misc: &UnsafeConfig) -> (f:
        ActiveFeatures)
        ensures
            f.aim == (global.aimbot.enabled || global.triggerbot.enabled || global.rcs.enabled),
            f.visuals == player_esp,
            f.hud == (hud.grenade_trails || hud.bomb_timer || hud.fov_circle),
            f.memory_writes == (misc.no_flash || misc.fov_changer || misc.no_smoke || misc.radar_hack),
    {
        ActiveFeatures {
            aim: global.any_enabled(),
            visuals: player_esp,
            hud: hud.any_enabled(),
            memory_writes: misc.any_enabled(),
        }
    }
}

impl Tab {
    /// The tabs in navbar order.
    pub fn all() -> (v: Vec<Tab>)
        ensures
            v@ == tabs_spec(),
    {
        let v = vec![Tab::Aimbot, Tab::Visuals, Tab::Grenades, Tab::Unsafe, Tab::Config, Tab::Application];
        assert(v@ =~= tabs_spec());
        v
    }

    /// Whether the tab shows the dot of an active feature. The visuals tab
    /// follows player ESP and the grenades tab the HUD; the config and
    /// application tabs never show it.
    pub open spec fn spec_indicator(self, f: ActiveFeatures) -> bool {
        match self {
            Tab::Aimbot => f.aim,
            Tab::Visuals => f.visuals,
            Tab::Grenades => f.hud,
            Tab::Unsafe => f.memory_writes,
            Tab::Config => false,
            Tab::Application => false,
        }
    }

    /// Whether the tab shows the dot of an active feature.
    pub fn indicator(self, f: ActiveFeatures) -> (b: bool)
        ensures
            b == self.spec_indicator(f),
            self == Tab::Aimbot ==> b == f.aim,
            self == Tab::Visuals ==> b == f.visuals,
            self == Tab::Grenades ==> b == f.hud,
            self == Tab::Unsafe ==> b == f.memory_writes,
            self == Tab::Config || self == Tab::Application ==> !b,
    {
        match self {
            Tab::Aimbot => f.aim,
            Tab::Visuals => f.visuals,
            Tab::Grenades => f.hud,
            Tab::Unsafe => f.memory_writes,
            Tab::Config => false,
            Tab::Application => false,
        }
    }
}

/// The tab shown after a frame in which the tab buttons reported `clicked`
/// (in navbar order): the last clicked tab, or `current` when none was.
pub fn navigate(current: Tab, clicked: &Vec<bool>) -> (t: Tab)
    requires
        clicked@.len() == 6,
    ensures
        (exists|i: int| 0 <= i < 6 && clicked@[i]) ==> exists|i: int|
            0 <= i < 6 && clicked@[i] && t == tabs_spec()[i] && forall|j: int|
                i < j < 6 ==> !clicked@[j],
        (forall|i: int| 0 <= i < 6 ==> !clicked@[i]) ==> t == current,
{
    let tabs = Tab::all();
    let mut t = current;
    let ghost mut last: int = -1;
    let mut i: usize = 0;
    while i < 6
        invariant
            tabs@ == tabs_spec(),
            clicked@.len() == 6,
            0 <= i <= 6,
            -1 <= last < i,
            last == -1 ==> t == current && forall|j: int| 0 <= j < i ==> !clicked@[j],
            last >= 0 ==> clicked@[last] && t == tabs_spec()[last] && forall|j: int|
                last < j < i ==> !clicked@[j],
        decreases 6 - i,
    {
        if clicked[i] {
            t = tabs[i];
            proof {
                last = i as int;
            }
        }
        i = i + 1;
    }
    t
}

/// One frame of a hotkey button. A click starts or stops listening, a
/// secondary click stops it; while listening, the first key or mouse button
/// pressed (`input`) ends the listening and becomes the hotkey, unless it is
/// Escape (`input_is_escape`), which only cancels. Returns whether the
/// button listens afterwards and whether the hotkey changed.
pub fn keybind_step<K>(
    listening: bool,
    clicked: bool,
    secondary_clicked: bool,
    input: Option<K>,
    input_is_escape: bool,
    key: &mut K,
) -> (r: (bool, bool))
    ensures
        ({
            let waiting = (if clicked {
                !listening
            } else {
                listening
            }) && !secondary_clicked;
            &&& r.0 == (waiting && input is None)
            &&& r.1 == (waiting && input is Some && !input_is_escape)
            &&& *final(key) == (if r.1 {
                input->0
            } else {
                *old(key)
            })
        }),
{
    let mut listening = listening;
    if clicked {
        listening = !listening;
    }
    if secondary_clicked {
        listening = false;
    }
    let mut changed = false;
    if listening {
        if let Some(k) = input {
            if !input_is_escape {
                *key = k;
                changed = true;
            }
            listening = false;
        }
    }
    (listening, changed)
}

/// Aim settings that were reset have every aim feature off, so the aim tab
/// shows no active-feature dot for them.
pub proof fn lemma_reset_aim_shows_inactive(w: WeaponConfig)
    requires
        w.all_off(),
    ensures
        !(w.aimbot.enabled || w.triggerbot.enabled || w.rcs.enabled),
{
}

/// The default memory-writing settings have every such feature off, so the
/// unsafe tab shows no dot; the default HUD (bomb timer and grenade trails
/// on) shows one.
pub proof fn lemma_default_indicators()
    ensures
        ({
            let m = UnsafeConfig::spec_default();
            !(m.no_flash || m.fov_changer || m.no_smoke || m.radar_hack)
        }),
        ({
            let h = HudConfig::spec_default();
            h.grenade_trails || h.bomb_timer || h.fov_circle
        }),
{
}

} // verus!
