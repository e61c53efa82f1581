//! The application settings file and the bookkeeping of saved configs:
//! which files count as configs, how a new config is named, and which one
//! is loaded on startup; and the settings a config file holds.

use vstd::prelude::*;

use crate::aim::{has_weapons, is_default_global, AimConfig, WeaponConfig};
use crate::color::{palette_value, Colors, Palette, Rgba};
use crate::hud::{HudConfig, UnsafeConfig};
use crate::player::{PlayerConfig, SoundConfig};

verus! {

/// The language of the user interface.
#[derive(Clone, Copy, Debug, PartialEq, Eq, Structural)]
pub enum Language {
    English,
    Turkish,
}

impl Default for Language {
    fn default() -> (l: Self)
        ensures
            l == Language::English,
    {
        Language::English
    }
}

impl Language {
    /// Every language, in the order the settings list them.
    pub fn all() -> (v: Vec<Language>)
        ensures
            v@ == seq![Language::English, Language::Turkish],
    {
        let v = vec![Language::English, Language::Turkish];
        assert(v@ =~= seq![Language::English, Language::Turkish]);
        v
    }

    /// The name of the language in itself, as the language picker shows it.
    pub fn label(self) -> (s: &'static str)
        ensures
            s@ == (match self {
                Language::English => "English"@,
                Language::Turkish => "Türkçe"@,
            }),
    {
        match self {
            Language::English => "English",
            Language::Turkish => "Türkçe",
        }
    }
}

/// How a feature reacts to its hotkey.
#[derive(Clone, Copy, Debug, PartialEq, Eq, Structural)]
pub enum KeyMode {
    /// Active while the key is held.
    Hold,
    /// Each press switches it on or off.
    Toggle,
    /// Active without any key.
    Always,
}

/// When recoil control runs.
#[derive(Clone, Copy, Debug, PartialEq, Eq, Structural)]
pub enum RcsMode {
    /// Compensates recoil even when the aimbot is not active.
    Standalone,
    /// Only while the aimbot is locked onto a target.
    Aiming,
}

/// How the aimbot ranks candidate targets.
#[derive(Clone, Copy, Debug, PartialEq, Eq, Structural)]
pub enum TargetingMode {
    Fov,
    Distance,
}

/// What drives the colour of a player box or skeleton.
#[derive(Clone, Copy, Debug, PartialEq, Eq, Structural)]
pub enum DrawMode {
    /// Not drawn.
    Off,
    Health,
    Color,
}

/// The shape of a player box.
#[derive(Clone, Copy, Debug, PartialEq, Eq, Structural)]
pub enum BoxMode {
    Gap,
    Full,
}

/// An `f32` setting held as its IEEE-754 bit pattern (what `f32::to_bits`
/// returns). The library stores and copies such settings and never computes
/// with them; the renderer and the aim code turn them back into `f32`.
#[derive(Clone, Copy, Debug, PartialEq, Eq, Structural)]
pub struct F32Bits(pub u32);

/// A pair of `f32` settings (a `glam::Vec2`), each held as its bit pattern.
#[derive(Clone, Copy, Debug, PartialEq, Eq, Structural)]
pub struct Vec2Bits {
    pub x: F32Bits,
    pub y: F32Bits,
}

/// The file name of the config that is used when no other is chosen.
pub const DEFAULT_CONFIG_NAME: &'static str = "deadlocked.toml";

/// Settings of the application itself (not of a game config).
#[derive(Clone, Debug)]
pub struct ApplicationConfig {
    pub first_launch: bool,
    pub send_stacktraces: bool,
    pub language: Language,
    /// File name of the config to load on startup; `None` means
    /// `DEFAULT_CONFIG_NAME`.
    pub default_config: Option<String>,
}

impl ApplicationConfig {
    /// The settings of a first launch.
    pub open spec fn spec_default() -> ApplicationConfig {
        ApplicationConfig {
            first_launch: true,
            send_stacktraces: true,
            language: Language::English,
            default_config: None,
        }
    }
}

impl Default for ApplicationConfig {
    fn default() -> (c: Self)
        ensures
            c == ApplicationConfig::spec_default(),
    {
        ApplicationConfig {
            first_launch: true,
            send_stacktraces: true,
            language: Language::default(),
            default_config: None,
        }
    }
}

/// The application settings to use, given what was read from disk: the
/// parsed file, or the first-launch settings when the file is missing,
/// unreadable or invalid (`None`).
pub fn app_config_or_default(loaded: Option<ApplicationConfig>) -> (c: ApplicationConfig)
    ensures
        c == (match loaded {
            Some(l) => l,
            None => ApplicationConfig::spec_default(),
        }),
{
    match loaded {
        Some(l) => l,
        None => ApplicationConfig::default(),
    }
}

/// `s` ends with `suffix`.
pub open spec fn ends_with(s: Seq<char>, suffix: Seq<char>) -> bool {
    suffix.len() <= s.len() && s.subrange(s.len() - suffix.len(), s.len() as int) == suffix
}

/// Whether `s` ends with `suffix`, compared character by character.
pub fn str_ends_with(s: &str, suffix: &str) -> (b: bool)
    ensures
        b == ends_with(s@, suffix@),
{
    let n = s.unicode_len();
    let m = suffix.unicode_len();
    if m > n {
        return false;
    }
    let off = n - m;
    let mut i: usize = 0;
    while i < m
        invariant
            n == s@.len(),
            m == suffix@.len(),
            m <= n,
            off == n - m,
            i <= m,
            forall|j: int| 0 <= j < i ==> s@[off + j] == suffix@[j],
        decreases m - i,
    {
        if s.get_char(off + i) != suffix.get_char(i) {
            assert(s@.subrange(off as int, n as int)[i as int] != suffix@[i as int]);
            return false;
        }
        i = i + 1;
    }
    assert(s@.subrange(off as int, n as int) =~= suffix@);
    true
}

/// A directory entry of the config folder, as the file system reports it.
pub struct ConfigEntry {
    pub is_file: bool,
    /// The file name, when it is valid UTF-8.
    pub file_name: Option<String>,
}

/// An entry is a config when it is a regular file whose name is valid UTF-8
/// and ends with `.toml`.
pub open spec fn is_config_entry(e: ConfigEntry) -> bool {
    e.is_file && match e.file_name {
        Some(n) => ends_with(n@, ".toml"@),
        None => false,
    }
}

/// The positions, in directory order, of the entries that are configs.
pub fn config_files(entries: &Vec<ConfigEntry>) -> (kept: Vec<usize>)
    ensures
        forall|i: int, j: int| 0 <= i < j < kept@.len() ==> kept@[i] < kept@[j],
        forall|i: int|
            #![trigger kept@[i]]
            0 <= i < kept@.len() ==> kept@[i] < entries@.len() && is_config_entry(
                entries@[kept@[i] as int],
            ),
        forall|k: int|
            0 <= k < entries@.len() && is_config_entry(#[trigger] entries@[k]) ==> kept@.contains(
                k as usize,
            ),
{
    let mut kept: Vec<usize> = Vec::new();
    let mut k: usize = 0;
    while k < entries.len()
        invariant
            k <= entries@.len(),
            forall|i: int, j: int| 0 <= i < j < kept@.len() ==> kept@[i] < kept@[j],
            forall|i: int|
                #![trigger kept@[i]]
                0 <= i < kept@.len() ==> kept@[i] < k && is_config_entry(entries@[kept@[i] as int]),
            forall|q: int|
                0 <= q < k && is_config_entry(#[trigger] entries@[q]) ==> kept@.contains(
                    q as usize,
                ),
        decreases entries@.len() - k,
    {
        let e = &entries[k];
        let keep = match &e.file_name {
            Some(n) => e.is_file && str_ends_with(n.as_str(), ".toml"),
            None => false,
        };
        assert(keep == is_config_entry(entries@[k as int]));
        let ghost before = kept@;
        if keep {
            kept.push(k);
            assert forall|i: int|
                #![trigger kept@[i]]
                0 <= i < kept@.len() implies kept@[i] < k + 1 && is_config_entry(
                entries@[kept@[i] as int],
            ) by {
                if i < before.len() {
                    assert(kept@[i] == before[i]);
                }
            }
            assert forall|i: int, j: int| 0 <= i < j < kept@.len() implies kept@[i] < kept@[j] by {
                if j < before.len() {
                    assert(kept@[i] == before[i] && kept@[j] == before[j]);
                } else {
                    assert(kept@[i] == before[i]);
                }
            }
            assert forall|q: int|
                0 <= q < k + 1 && is_config_entry(#[trigger] entries@[q]) implies kept@.contains(
                q as usize,
            ) by {
                if q < k {
                    let w = choose|w: int| 0 <= w < before.len() && before[w] == q as usize;
                    assert(kept@[w] == q as usize);
                } else {
                    assert(kept@[kept@.len() - 1] == k);
                }
            }
        }
        k = k + 1;
    }
    kept
}

/// Whether the default config is to be written: the config folder could be
/// listed (`entries` is its listing) and holds no config.
pub open spec fn spec_needs_default_config(entries: Option<Vec<ConfigEntry>>) -> bool {
    match entries {
        Some(es) => forall|k: int| 0 <= k < es@.len() ==> !is_config_entry(#[trigger] es@[k]),
        None => false,
    }
}

/// Whether the default config is to be written (see
/// `spec_needs_default_config`). A folder that cannot be listed gets none.
pub fn needs_default_config(entries: &Option<Vec<ConfigEntry>>) -> (b: bool)
    ensures
        b == spec_needs_default_config(*entries),
{
    match entries {
        None => false,
        Some(es) => {
            let kept = config_files(es);
            if kept.len() > 0 {
                assert(is_config_entry(es@[kept@[0] as int]));
            } else {
                assert forall|k: int| 0 <= k < es@.len() implies !is_config_entry(
                    #[trigger] es@[k],
                ) by {
                    if is_config_entry(es@[k]) {
                        assert(kept@.contains(k as usize));
                    }
                }
            }
            kept.len() == 0
        },
    }
}

/// A name with `.toml` appended unless it already ends so.
pub open spec fn config_name(name: Seq<char>) -> Seq<char> {
    if ends_with(name, ".toml"@) {
        name
    } else {
        name + ".toml"@
    }
}

/// The file name under which "save as" stores a config typed as `name`:
/// `None` for an empty name (nothing is saved), otherwise the name with
/// `.toml` appended unless it already ends so.
pub fn config_file_name(name: &str) -> (r: Option<String>)
    ensures
        r is None <==> name@.len() == 0,
        r matches Some(f) ==> f@ == config_name(name@),
{
    if name.is_empty() {
        return None;
    }
    let mut f = name.to_owned();
    if !str_ends_with(name, ".toml") {
        f.append(".toml");
    }
    Some(f)
}

impl ApplicationConfig {
    /// The config of that file name is the one loaded on startup.
    pub open spec fn is_default(self, file_name: Seq<char>) -> bool {
        match self.default_config {
            Some(d) => d@ == file_name,
            None => false,
        }
    }

    /// The answer to the crash-report question of the first launch: the
    /// question is not asked again and reports are sent only when the user
    /// agreed.
    pub fn answer_crash_report_prompt(&mut self, send: bool)
        ensures
            !final(self).first_launch,
            final(self).send_stacktraces == send,
            final(self).language == old(self).language,
            final(self).default_config == old(self).default_config,
    {
        self.first_launch = false;
        self.send_stacktraces = send;
    }

    /// Whether the config of that file name is the one loaded on startup.
    pub fn is_default_config(&self, file_name: &str) -> (b: bool)
        ensures
            b == self.is_default(file_name@),
    {
        match &self.default_config {
            Some(d) => {
                let f = file_name.to_owned();
                *d == f
            },
            None => false,
        }
    }

    /// The star button of a saved config: starring the startup config makes
    /// no config the startup one; starring any other makes it the startup
    /// config. Nothing else changes.
    pub fn toggle_default_config(&mut self, file_name: &str)
        ensures
            old(self).is_default(file_name@) ==> final(self).default_config is None,
            !old(self).is_default(file_name@) ==> final(self).is_default(file_name@),
            final(self).first_launch == old(self).first_launch,
            final(self).send_stacktraces == old(self).send_stacktraces,
            final(self).language == old(self).language,
    {
        if self.is_default_config(file_name) {
            self.default_config = None;
        } else {
            self.default_config = Some(file_name.to_owned());
        }
    }

    /// After the config of that file name was deleted: when it was the
    /// startup config, no config is the startup one any more. Returns
    /// whether the settings changed (and need to be written back).
    pub fn forget_deleted_config(&mut self, file_name: &str) -> (changed: bool)
        ensures
            changed == old(self).is_default(file_name@),
            changed ==> final(self).default_config is None,
            !changed ==> *final(self) == *old(self),
            final(self).first_launch == old(self).first_launch,
            final(self).send_stacktraces == old(self).send_stacktraces,
            final(self).language == old(self).language,
    {
        if self.is_default_config(file_name) {
            self.default_config = None;
            true
        } else {
            false
        }
    }
}

/// A config saved under any name is a `.toml` file, so the config list
/// shows it once it is written as a regular file; and naming is idempotent.
pub proof fn lemma_saved_config_is_listed(name: Seq<char>)
    ensures
        ends_with(config_name(name), ".toml"@),
        config_name(config_name(name)) == config_name(name),
        forall|f: String|
            f@ == config_name(name) ==> is_config_entry(
                ConfigEntry { is_file: true, file_name: Some(f) },
            ),
{
    let t = ".toml"@;
    if !ends_with(name, t) {
        let c = name + t;
        assert(c.subrange(c.len() - t.len(), c.len() as int) =~= t);
    }
}

/// All the settings a config file holds.
pub struct Config {
    pub aim: AimConfig,
    pub player: PlayerConfig,
    pub hud: HudConfig,
    pub misc: UnsafeConfig,
    pub accent_color: Rgba,
    pub fps: u32,
}

impl Config {
    /// What both presets share: the aim hotkeys on mouse buttons 5 and 4,
    /// every weapon of `weapon_ids` with default settings, no
    /// memory-writing feature, the blue accent and 120 frames per second.
    pub open spec fn shares_presets(self, weapon_ids: Seq<u32>) -> bool {
        &&& self.aim.aimbot_hotkey@ == "Mouse5"@
        &&& self.aim.triggerbot_hotkey@ == "Mouse4"@
        &&& has_weapons(self.aim.weapons@, weapon_ids)
        &&& forall|k: u32| #[trigger]
            self.aim.weapons@.contains_key(k) ==> self.aim.weapons@[k].is_default()
        &&& self.misc == UnsafeConfig::spec_default()
        &&& self.accent_color == palette_value(Palette::Blue)
        &&& self.fps == 120
    }

    /// The "legit" preset: only what reads the game is on. Player ESP is on
    /// (boxes by health, no skeleton, head circles or tags); aimbot,
    /// triggerbot and recoil control are off, globally and, with no weapon
    /// overriding, for every weapon; the memory-writing features are off;
    /// the HUD shows the bomb timer, spectators and dropped weapons only.
    pub open spec fn is_legit(self, weapon_ids: Seq<u32>, sound: SoundConfig) -> bool {
        &&& self.shares_presets(weapon_ids)
        &&& self.aim.global.is_legit()
        &&& self.player.shares_presets(sound, DrawMode::Health, DrawMode::Off, false)
        &&& self.hud == (HudConfig {
            bomb_timer: true,
            spectator_list: true,
            dropped_weapons: true,
            keybind_list: false,
            fov_circle: false,
            grenade_trails: false,
            ..HudConfig::spec_default()
        })
    }

    /// New settings for the weapons `weapon_ids` with the given sound
    /// settings: the aimbot override on globally, default player and HUD
    /// settings (see `shares_presets`).
    pub fn new(weapon_ids: &Vec<u32>, sound: SoundConfig) -> (c: Config)
        ensures
            c.shares_presets(weapon_ids@),
            is_default_global(c.aim.global),
            c.player.shares_presets(sound, DrawMode::Color, DrawMode::Health, true),
            c.hud == HudConfig::spec_default(),
    {
        Config {
            aim: AimConfig::new(weapon_ids),
            player: PlayerConfig::with_sound(sound),
            hud: HudConfig::default(),
            misc: UnsafeConfig::default(),
            accent_color: Colors::palette(Palette::Blue),
            fps: 120,
        }
    }

    /// The "legit" preset for the weapons `weapon_ids` with the given sound
    /// settings (see `is_legit`).
    pub fn legit(weapon_ids: &Vec<u32>, sound: SoundConfig) -> (c: Config)
        ensures
            c.is_legit(weapon_ids@, sound),
    {
        let mut aim = AimConfig::new(weapon_ids);
        aim.global = WeaponConfig::legit();
        Config {
            aim,
            player: PlayerConfig::legit(sound),
            hud: HudConfig::legit(),
            misc: UnsafeConfig::default(),
            accent_color: Colors::palette(Palette::Blue),
            fps: 120,
        }
    }
}

/// The "legit" preset turns on nothing that moves the mouse or writes to
/// the game's memory: no aim feature is on or overridden by any weapon, and
/// no memory-writing feature is on; player ESP is on.
pub proof fn lemma_legit_is_passive(c: Config, weapon_ids: Seq<u32>, sound: SoundConfig)
    requires
        c.is_legit(weapon_ids, sound),
    ensures
        c.aim.global.all_off(),
        forall|k: u32| #[trigger]
            c.aim.weapons@.contains_key(k) ==> {
                let w = c.aim.weapons@[k];
                !w.aimbot.enable_override && !w.rcs.enable_override && !w.triggerbot.enable_override
            },
        !(c.misc.no_flash || c.misc.fov_changer || c.misc.no_smoke || c.misc.radar_hack),
        c.player.enabled,
{
}

} // verus!
