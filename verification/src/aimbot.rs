//! The aimbot's per-frame state and the decisions that come before any
//! angle is measured: whether it runs at all, whether its hotkey lets it,
//! whether there is a target, and when its smoothing state is cleared.
//!
//! The angle and mouse computations are floating point and are made by the
//! caller on the state held here.

use vstd::prelude::*;

use crate::aim::{AimContext, AimbotConfig};
use crate::config::{F32Bits, Vec2Bits};
use crate::cs2::{key_active, key_gate, HotkeyState, CS2};

verus! {

/// A zero vector (both coordinates +0.0).
pub open spec fn zero_vec() -> Vec2Bits {
    Vec2Bits { x: F32Bits(0), y: F32Bits(0) }
}

/// The aimbot's state from frame to frame.
#[derive(Clone, Copy, Debug, PartialEq, Eq, Structural)]
pub struct Aimbot {
    /// Toggle state of the hotkey.
    pub active: bool,
    /// Smoothed aiming velocity, in mouse pixels per frame.
    pub velocity: Vec2Bits,
    /// Sub-pixel movement carried to the next frame.
    pub unaccounted: Vec2Bits,
    /// The pawn aimed at in the last frame that aimed.
    pub previous_target_pawn: Option<u64>,
}

impl Default for Aimbot {
    fn default() -> (a: Self)
        ensures
            a == (Aimbot {
                active: false,
                velocity: zero_vec(),
                unaccounted: zero_vec(),
                previous_target_pawn: None,
            }),
    {
        Aimbot {
            active: false,
            velocity: Vec2Bits { x: F32Bits(0), y: F32Bits(0) },
            unaccounted: Vec2Bits { x: F32Bits(0), y: F32Bits(0) },
            previous_target_pawn: None,
        }
    }
}

/// What the caller does after the aimbot's first checks.
#[derive(Clone, Copy, Debug, PartialEq, Eq, Structural)]
pub enum AimGate {
    /// No aiming this frame.
    Stop,
    /// The hotkey is released: no aiming, and the caller lets the velocity
    /// decay so the aim drifts to a stop.
    Decay,
    /// Measure the angle to the target and aim; `target_changed` tells
    /// whether it differs from the last aimed-at pawn (its smoothing state
    /// has then been cleared).
    Proceed { target_pawn: u64, target_changed: bool },
}

/// The aimbot's first checks and their effect on its state.
///
/// Disabled, it clears its motion and forgets its target. With the hotkey
/// not active (see `key_gate`), it clears the carry and forgets its target,
/// and the velocity decays. Without a valid target (`target` is the target's
/// pawn), it stops the motion and forgets the target. A new target clears
/// the motion. Without a local player it stops the motion; with a weapon
/// that cannot aim, or when the aim checks fail (`spec_allows_aim`), it
/// stops. Otherwise it proceeds.
pub open spec fn aim_gate(
    a: Aimbot,
    cfg: AimbotConfig,
    key: HotkeyState,
    target: Option<u64>,
    local_player: bool,
    weapon_can_aim: bool,
    ctx: AimContext,
) -> (Aimbot, AimGate) {
    if !cfg.enabled {
        (
            Aimbot {
                velocity: zero_vec(),
                unaccounted: zero_vec(),
                previous_target_pawn: None,
                ..a
            },
            AimGate::Stop,
        )
    } else {
        let (on, active) = key_gate(cfg.mode, key.pressed, key.just_pressed, a.active);
        let a1 = Aimbot { active, ..a };
        if !on {
            (
                Aimbot { unaccounted: zero_vec(), previous_target_pawn: None, ..a1 },
                AimGate::Decay,
            )
        } else {
            match target {
                None => (
                    Aimbot { velocity: zero_vec(), previous_target_pawn: None, ..a1 },
                    AimGate::Stop,
                ),
                Some(pawn) => {
                    let changed = a1.previous_target_pawn != Some(pawn);
                    let a2 = if changed {
                        Aimbot { velocity: zero_vec(), unaccounted: zero_vec(), ..a1 }
                    } else {
                        a1
                    };
                    if !local_player {
                        (Aimbot { velocity: zero_vec(), ..a2 }, AimGate::Stop)
                    } else if !weapon_can_aim || !cfg.spec_allows_aim(ctx) {
                        (a2, AimGate::Stop)
                    } else {
                        (a2, AimGate::Proceed { target_pawn: pawn, target_changed: changed })
                    }
                },
            }
        }
    }
}

impl CS2 {
    /// The aimbot's first checks of a frame (see `aim_gate`). `target` is
    /// the pawn of the current target when it is valid, `local_player`
    /// whether there is one, `weapon_can_aim` whether the held weapon's
    /// class allows aiming.
    pub fn aimbot_gate(
        &mut self,
        cfg: &AimbotConfig,
        key: HotkeyState,
        target: Option<u64>,
        local_player: bool,
        weapon_can_aim: bool,
        ctx: AimContext,
    ) -> (g: AimGate)
        ensures
            (final(self).aim, g) == aim_gate(
                old(self).aim,
                *cfg,
                key,
                target,
                local_player,
                weapon_can_aim,
                ctx,
            ),
            final(self).trigger == old(self).trigger,
            final(self).recoil == old(self).recoil,
    {
        let zero = Vec2Bits { x: F32Bits(0), y: F32Bits(0) };
        if !cfg.enabled {
            self.aim.velocity = zero;
            self.aim.unaccounted = zero;
            self.aim.previous_target_pawn = None;
            return AimGate::Stop;
        }
        let mut active = self.aim.active;
        let on = key_active(cfg.mode, key.pressed, key.just_pressed, &mut active);
        self.aim.active = active;
        if !on {
            self.aim.unaccounted = zero;
            self.aim.previous_target_pawn = None;
            return AimGate::Decay;
        }
        let pawn = match target {
            None => {
                self.aim.velocity = zero;
                self.aim.previous_target_pawn = None;
                return AimGate::Stop;
            },
            Some(p) => p,
        };
        let changed = match self.aim.previous_target_pawn {
            Some(prev) => prev != pawn,
            None => true,
        };
        if changed {
            self.aim.velocity = zero;
            self.aim.unaccounted = zero;
        }
        if !local_player {
            self.aim.velocity = zero;
            return AimGate::Stop;
        }
        if !weapon_can_aim || !cfg.allows_aim(ctx) {
            return AimGate::Stop;
        }
        AimGate::Proceed { target_pawn: pawn, target_changed: changed }
    }

    /// After the caller aimed at `pawn` this frame (or absorbed a jump of
    /// the view while tracking it), it becomes the last aimed-at pawn.
    pub fn aimbot_lock(&mut self, pawn: u64)
        ensures
            final(self).aim == (Aimbot { previous_target_pawn: Some(pawn), ..old(self).aim }),
            final(self).trigger == old(self).trigger,
            final(self).recoil == old(self).recoil,
    {
        self.aim.previous_target_pawn = Some(pawn);
    }
}

/// The smoothing state is cleared exactly when the aimbot proceeds at a
/// target other than the last one; tracking the same target keeps it.
pub proof fn lemma_switch_clears_motion(
    a: Aimbot,
    cfg: AimbotConfig,
    key: HotkeyState,
    target: Option<u64>,
    local_player: bool,
    weapon_can_aim: bool,
    ctx: AimContext,
)
    ensures
        ({
            let (b, g) = aim_gate(a, cfg, key, target, local_player, weapon_can_aim, ctx);
            match g {
                AimGate::Proceed { target_pawn, target_changed } => {
                    &&& target == Some(target_pawn)
                    &&& target_changed == (a.previous_target_pawn != Some(target_pawn))
                    &&& target_changed ==> b.velocity == zero_vec() && b.unaccounted == zero_vec()
                    &&& !target_changed ==> b.velocity == a.velocity && b.unaccounted
                        == a.unaccounted
                    &&& b.previous_target_pawn == a.previous_target_pawn
                },
                _ => true,
            }
        }),
{
}

/// A disabled or released aimbot, or one without a target, forgets its
/// target, so the next target it aims at counts as a new one.
pub proof fn lemma_stop_forgets_target(
    a: Aimbot,
    cfg: AimbotConfig,
    key: HotkeyState,
    local_player: bool,
    weapon_can_aim: bool,
    ctx: AimContext,
    target: Option<u64>,
)
    requires
        !cfg.enabled || !key_gate(cfg.mode, key.pressed, key.just_pressed, a.active).0
            || target is None,
    ensures
        aim_gate(a, cfg, key, target, local_player, weapon_can_aim, ctx).0.previous_target_pawn
            is None,
        !(aim_gate(a, cfg, key, target, local_player, weapon_can_aim, ctx).1 is Proceed),
{
}

/// When the aimbot proceeds: exactly when it is enabled, its hotkey is
/// active, there is a target and a local player, the weapon can aim and
/// the aim checks pass; it decays exactly when enabled with the hotkey
/// inactive. A disabled aimbot stops with no motion left.
pub proof fn lemma_gate_outcomes(
    a: Aimbot,
    cfg: AimbotConfig,
    key: HotkeyState,
    target: Option<u64>,
    local_player: bool,
    weapon_can_aim: bool,
    ctx: AimContext,
)
    ensures
        ({
            let (b, g) = aim_gate(a, cfg, key, target, local_player, weapon_can_aim, ctx);
            let on = key_gate(cfg.mode, key.pressed, key.just_pressed, a.active).0;
            &&& (g is Proceed <==> cfg.enabled && on && target is Some && local_player
                && weapon_can_aim && cfg.spec_allows_aim(ctx))
            &&& (g is Decay <==> cfg.enabled && !on)
            &&& !cfg.enabled ==> g is Stop && b.velocity == zero_vec() && b.unaccounted
                == zero_vec() && b.active == a.active
            &&& cfg.enabled ==> b.active == key_gate(
                cfg.mode,
                key.pressed,
                key.just_pressed,
                a.active,
            ).1
        }),
{
}

} // verus!
