//! Recoil control: on which frames the recoil compensation runs, and the
//! smoothing state it keeps from frame to frame.
//!
//! The compensation itself (aim punch, sensitivity, smoothing, the mouse
//! move) is `f32` work of the caller; this module decides whether it runs
//! and when the smoothing state starts over.

use vstd::prelude::*;

use crate::aim::RcsConfig;
use crate::config::{F32Bits, RcsMode, Vec2Bits};
use crate::cs2::CS2;

verus! {

/// The kind of weapon the local player holds.
#[derive(Clone, Copy, Debug, PartialEq, Eq, Structural)]
pub enum WeaponClass {
    /// Not recognised.
    Unknown,
    Knife,
    Pistol,
    /// Submachine guns.
    Smg,
    /// Machine guns.
    Heavy,
    Shotgun,
    Rifle,
    Sniper,
    Grenade,
}

impl WeaponClass {
    /// Recoil control runs for this kind of weapon: not for unknown
    /// weapons, knives, grenades, pistols and shotguns.
    pub open spec fn spec_compensated(self) -> bool {
        !(self is Unknown || self is Knife || self is Grenade || self is Pistol || self is Shotgun)
    }

    /// Whether recoil control runs for this kind of weapon (see
    /// `spec_compensated`).
    pub fn compensated(self) -> (b: bool)
        ensures
            b == self.spec_compensated(),
            b <==> (self == WeaponClass::Smg || self == WeaponClass::Heavy || self
                == WeaponClass::Rifle || self == WeaponClass::Sniper),
    {
        match self {
            WeaponClass::Unknown | WeaponClass::Knife | WeaponClass::Grenade | WeaponClass::Pistol
            | WeaponClass::Shotgun => false,
            _ => true,
        }
    }
}

impl WeaponClass {
    /// The aimbot aims with this kind of weapon: not with unknown weapons,
    /// knives and grenades.
    pub open spec fn spec_can_aim(self) -> bool {
        !(self is Unknown || self is Knife || self is Grenade)
    }

    /// Whether the aimbot aims with this kind of weapon (see
    /// `spec_can_aim`).
    pub fn can_aim(self) -> (b: bool)
        ensures
            b == self.spec_can_aim(),
            b <==> !(self == WeaponClass::Unknown || self == WeaponClass::Knife || self
                == WeaponClass::Grenade),
    {
        match self {
            WeaponClass::Unknown | WeaponClass::Knife | WeaponClass::Grenade => false,
            _ => true,
        }
    }
}

/// The zero vector.
pub open spec fn zero_bits() -> Vec2Bits {
    Vec2Bits { x: F32Bits(0), y: F32Bits(0) }
}

/// The recoil-control state kept from frame to frame.
#[derive(Clone, Copy, Debug, PartialEq, Eq)]
pub struct Recoil {
    /// The aim punch seen last frame.
    pub previous: Vec2Bits,
    /// The fraction of a mouse step not sent yet.
    pub unaccounted: Vec2Bits,
    /// The smoothed correction velocity.
    pub velocity: Vec2Bits,
    /// The kind of weapon held last frame, to start over on a switch.
    pub previous_weapon: Option<WeaponClass>,
}

impl Recoil {
    /// All vectors zero and no weapon remembered.
    pub open spec fn spec_default() -> Recoil {
        Recoil {
            previous: zero_bits(),
            unaccounted: zero_bits(),
            velocity: zero_bits(),
            previous_weapon: None,
        }
    }

    /// A fresh state that remembers `weapon`.
    pub open spec fn started_with(weapon: WeaponClass) -> Recoil {
        Recoil { previous_weapon: Some(weapon), ..Recoil::spec_default() }
    }

    /// Forgets everything: back to the default state.
    pub fn reset(&mut self)
        ensures
            *final(self) == Recoil::spec_default(),
    {
        *self = Recoil::default();
    }
}

impl Default for Recoil {
    fn default() -> (r: Self)
        ensures
            r == Recoil::spec_default(),
    {
        let zero = Vec2Bits { x: F32Bits(0), y: F32Bits(0) };
        Recoil { previous: zero, unaccounted: zero, velocity: zero, previous_weapon: None }
    }
}

/// What recoil control does this frame.
#[derive(Clone, Copy, Debug, PartialEq, Eq, Structural)]
pub enum RcsStep {
    /// Recoil control is off, or there is no local player.
    Off,
    /// The weapon is not compensated.
    Disallowed,
    /// Aiming mode while the aimbot is not locked onto a target: nothing
    /// to compensate.
    Idle,
    /// Compensate the recoil. With `ignore_punch` (snipers) the aim punch
    /// is taken as zero.
    Compensate { ignore_punch: bool },
}

/// The decisions of one recoil-control frame, on the state before it: the
/// state after them and what the caller is to do.
///
/// Off or without a local player nothing changes. A weapon that is not
/// compensated starts the state over and is remembered. A weapon other than
/// the one remembered starts the state over and is remembered. In aiming
/// mode, while the aimbot is not locked onto a target (`locked`), the state
/// starts over completely, forgetting the weapon too. Otherwise the
/// compensation runs on the (possibly fresh) state.
pub open spec fn spec_rcs_gate(
    r: Recoil,
    cfg: RcsConfig,
    has_local_player: bool,
    weapon: WeaponClass,
    locked: bool,
) -> (Recoil, RcsStep) {
    if !cfg.enabled || !has_local_player {
        (r, RcsStep::Off)
    } else if !weapon.spec_compensated() {
        (Recoil::started_with(weapon), RcsStep::Disallowed)
    } else if cfg.mode == RcsMode::Aiming && !locked {
        (Recoil::spec_default(), RcsStep::Idle)
    } else if r.previous_weapon == Some(weapon) {
        (r, RcsStep::Compensate { ignore_punch: weapon == WeaponClass::Sniper })
    } else {
        (Recoil::started_with(weapon), RcsStep::Compensate { ignore_punch: weapon == WeaponClass::Sniper })
    }
}

impl CS2 {
    /// The decisions of a recoil-control frame (see `spec_rcs_gate`), with
    /// the settings that apply to the held weapon. The aimbot counts as
    /// locked onto a target while it holds the pawn it last aimed at. Only
    /// the recoil state changes.
    pub fn rcs_gate(&mut self, cfg: &RcsConfig, has_local_player: bool, weapon: WeaponClass) -> (s:
        RcsStep)
        ensures
            (final(self).recoil, s) == spec_rcs_gate(
                old(self).recoil,
                *cfg,
                has_local_player,
                weapon,
                old(self).aim.previous_target_pawn is Some,
            ),
            final(self).trigger == old(self).trigger,
            final(self).aim == old(self).aim,
            s matches RcsStep::Compensate { ignore_punch } ==> (ignore_punch <==> weapon
                == WeaponClass::Sniper),
            s is Compensate ==> cfg.enabled && has_local_player,
    {
        if !cfg.enabled || !has_local_player {
            return RcsStep::Off;
        }
        if !weapon.compensated() {
            self.recoil.reset();
            self.recoil.previous_weapon = Some(weapon);
            return RcsStep::Disallowed;
        }
        let same_weapon = match self.recoil.previous_weapon {
            Some(w) => w == weapon,
            None => false,
        };
        if !same_weapon {
            self.recoil.reset();
            self.recoil.previous_weapon = Some(weapon);
        }
        let aiming = match cfg.mode {
            RcsMode::Aiming => true,
            RcsMode::Standalone => false,
        };
        let locked = self.aim.previous_target_pawn.is_some();
        if aiming && !locked {
            self.recoil.reset();
            return RcsStep::Idle;
        }
        RcsStep::Compensate { ignore_punch: weapon == WeaponClass::Sniper }
    }
}

/// Whenever the compensation runs or the weapon is refused, the state
/// belongs to the weapon held now: a frame never compensates with the
/// smoothing state of another weapon.
pub proof fn lemma_state_follows_weapon(
    r: Recoil,
    cfg: RcsConfig,
    has_local_player: bool,
    weapon: WeaponClass,
    locked: bool,
)
    ensures
        ({
            let (after, step) = spec_rcs_gate(r, cfg, has_local_player, weapon, locked);
            (step is Compensate || step is Disallowed) ==> after.previous_weapon == Some(weapon)
        }),
{
}

/// After a weapon switch the compensation starts from a clean smoother: no
/// punch, no leftover step and no velocity carried over.
pub proof fn lemma_switch_starts_clean(
    r: Recoil,
    cfg: RcsConfig,
    has_local_player: bool,
    weapon: WeaponClass,
    locked: bool,
)
    requires
        r.previous_weapon != Some(weapon),
    ensures
        ({
            let (after, step) = spec_rcs_gate(r, cfg, has_local_player, weapon, locked);
            step is Compensate ==> after == Recoil::started_with(weapon)
        }),
{
}

/// Running the decisions twice on the same frame changes nothing more: the
/// second run takes the same step and leaves the state as the first left
/// it.
pub proof fn lemma_gate_idempotent(
    r: Recoil,
    cfg: RcsConfig,
    has_local_player: bool,
    weapon: WeaponClass,
    locked: bool,
)
    ensures
        ({
            let once = spec_rcs_gate(r, cfg, has_local_player, weapon, locked);
            spec_rcs_gate(once.0, cfg, has_local_player, weapon, locked) == once
        }),
{
}

/// Unless recoil control is off, a disallowed weapon or an idle frame in
/// aiming mode (no target locked) leaves no smoothing state behind.
pub proof fn lemma_no_compensation_clears_motion(
    r: Recoil,
    cfg: RcsConfig,
    has_local_player: bool,
    weapon: WeaponClass,
    locked: bool,
)
    ensures
        ({
            let (after, step) = spec_rcs_gate(r, cfg, has_local_player, weapon, locked);
            (step is Disallowed || step is Idle) ==> {
                &&& after.previous == zero_bits()
                &&& after.unaccounted == zero_bits()
                &&& after.velocity == zero_bits()
            }
        }),
{
}

/// In aiming mode recoil control compensates only while the aimbot is
/// locked onto a target; in standalone mode the lock plays no part.
pub proof fn lemma_aiming_needs_lock(
    r: Recoil,
    cfg: RcsConfig,
    has_local_player: bool,
    weapon: WeaponClass,
    locked: bool,
)
    ensures
        cfg.mode == RcsMode::Aiming && !locked ==> !(spec_rcs_gate(
            r,
            cfg,
            has_local_player,
            weapon,
            locked,
        ).1 is Compensate),
        cfg.mode == RcsMode::Standalone ==> spec_rcs_gate(r, cfg, has_local_player, weapon, locked)
            == spec_rcs_gate(r, cfg, has_local_player, weapon, !locked),
{
}

/// Which kinds of weapon the aimbot and recoil control work with: the
/// aimbot with all but unknown weapons, knives and grenades; recoil control
/// only with submachine guns, machine guns, rifles and sniper rifles.
pub proof fn lemma_weapon_rules(w: WeaponClass)
    ensures
        w.spec_can_aim() <==> !(w == WeaponClass::Unknown || w == WeaponClass::Knife || w
            == WeaponClass::Grenade),
        w.spec_compensated() <==> (w == WeaponClass::Smg || w == WeaponClass::Heavy || w
            == WeaponClass::Rifle || w == WeaponClass::Sniper),
        w.spec_compensated() ==> w.spec_can_aim(),
{
}

/// When recoil control compensates, the aim punch is ignored exactly for
/// sniper rifles; every other compensated weapon has its punch compensated.
pub proof fn lemma_only_snipers_ignore_punch(
    r: Recoil,
    cfg: RcsConfig,
    has_local_player: bool,
    weapon: WeaponClass,
    locked: bool,
)
    ensures
        spec_rcs_gate(r, cfg, has_local_player, weapon, locked).1 matches RcsStep::Compensate {
            ignore_punch,
        } ==> (ignore_punch <==> weapon == WeaponClass::Sniper),
        cfg.enabled && has_local_player && weapon.spec_compensated() && (cfg.mode
            == RcsMode::Standalone || locked) ==> spec_rcs_gate(
            r,
            cfg,
            has_local_player,
            weapon,
            locked,
        ).1 == (RcsStep::Compensate { ignore_punch: weapon == WeaponClass::Sniper }),
{
}

} // verus!
