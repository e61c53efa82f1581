//! The triggerbot: when it fires and when the mouse button goes down and up.
//!
//! Times are nanoseconds on a monotonic clock; the caller reads the clock and
//! moves the mouse, this module decides when the button goes down and up.

use vstd::prelude::*;

use crate::aim::TriggerbotConfig;
use crate::config::KeyMode;
use crate::cs2::{key_active, key_gate, HotkeyState, CS2};

verus! {

/// Nanoseconds in a millisecond.
pub const NANOS_PER_MILLI: u64 = 1_000_000;

/// The mouse-button actions of one frame, performed in this order: first
/// the press, then the release.
#[derive(Clone, Copy, Debug, PartialEq, Eq, Structural)]
pub struct ShotActions {
    pub press: bool,
    pub release: bool,
}

/// The triggerbot's state: the pending button press and release, and the
/// toggle state of its hotkey.
#[derive(Clone, Copy, Debug, PartialEq, Eq, Structural)]
pub struct Triggerbot {
    /// When the button is to be pressed.
    pub shot_start: Option<u64>,
    /// When the button is to be released.
    pub shot_end: Option<u64>,
    pub active: bool,
}

impl Default for Triggerbot {
    fn default() -> (t: Self)
        ensures
            t == (Triggerbot { shot_start: None, shot_end: None, active: false }),
    {
        Triggerbot { shot_start: None, shot_end: None, active: false }
    }
}

/// A press or release scheduled at `at` is due at time `now`.
pub open spec fn due(at: Option<u64>, now: u64) -> bool {
    match at {
        Some(t) => now >= t,
        None => false,
    }
}

impl Triggerbot {
    /// A press or a release is still to come.
    pub open spec fn is_pending(self) -> bool {
        self.shot_start is Some || self.shot_end is Some
    }

    /// The press never comes after the release: a pending press has a
    /// pending release at the same time or later.
    pub open spec fn well_ordered(self) -> bool {
        match self.shot_start {
            Some(s) => match self.shot_end {
                Some(e) => s <= e,
                None => false,
            },
            None => true,
        }
    }

    /// The state and the actions of `triggerbot_shoot` at time `now`.
    pub open spec fn shoot_step(self, now: u64) -> (Triggerbot, ShotActions) {
        let press = due(self.shot_start, now);
        let release = due(self.shot_end, now);
        (
            Triggerbot {
                shot_start: if press {
                    None
                } else {
                    self.shot_start
                },
                shot_end: if release {
                    None
                } else {
                    self.shot_end
                },
                active: self.active,
            },
            ShotActions { press, release },
        )
    }

    /// A shot scheduling can be represented on the clock.
    pub open spec fn can_schedule(now: u64, delay_ms: u64, duration_ms: u64) -> bool {
        now + delay_ms * NANOS_PER_MILLI + duration_ms * NANOS_PER_MILLI <= u64::MAX
    }

    /// The state after scheduling a shot at `now`: press after `delay_ms`,
    /// release `duration_ms` after the press.
    pub open spec fn scheduled(self, now: u64, delay_ms: u64, duration_ms: u64) -> Triggerbot {
        Triggerbot {
            shot_start: Some((now + delay_ms * NANOS_PER_MILLI) as u64),
            shot_end: Some((now + delay_ms * NANOS_PER_MILLI + duration_ms * NANOS_PER_MILLI) as u64),
            active: self.active,
        }
    }

    /// Whether a press or a release is still to come.
    pub fn pending(&self) -> (b: bool)
        ensures
            b == self.is_pending(),
    {
        self.shot_start.is_some() || self.shot_end.is_some()
    }

    /// The first checks of a triggerbot frame: the feature must be enabled,
    /// its hotkey must let it run (see `key_gate`) and no shot may be pending.
    /// A disabled triggerbot does not look at its hotkey at all.
    pub fn ready(&mut self, enabled: bool, mode: KeyMode, pressed: bool, just_pressed: bool) -> (go:
        bool)
        ensures
            !enabled ==> !go && *final(self) == *old(self),
            enabled ==> ({
                let (on, active) = key_gate(mode, pressed, just_pressed, old(self).active);
                &&& final(self).active == active
                &&& final(self).shot_start == old(self).shot_start
                &&& final(self).shot_end == old(self).shot_end
                &&& go == (on && !old(self).is_pending())
            }),
    {
        if !enabled {
            return false;
        }
        let mut active = self.active;
        let on = key_active(mode, pressed, just_pressed, &mut active);
        self.active = active;
        if !on {
            return false;
        }
        !self.pending()
    }

    /// Schedules a shot at time `now`: the button goes down after `delay_ms`
    /// and up `duration_ms` later. The hotkey state is kept.
    pub fn schedule_shot(&mut self, now: u64, delay_ms: u64, duration_ms: u64)
        requires
            Triggerbot::can_schedule(now, delay_ms, duration_ms),
        ensures
            *final(self) == old(self).scheduled(now, delay_ms, duration_ms),
    {
        assert(delay_ms * NANOS_PER_MILLI <= u64::MAX) by (nonlinear_arith)
            requires
                now + delay_ms * NANOS_PER_MILLI + duration_ms * NANOS_PER_MILLI <= u64::MAX,
                duration_ms >= 0,
        ;
        let start = now + delay_ms * NANOS_PER_MILLI;
        let end = start + duration_ms * NANOS_PER_MILLI;
        self.shot_start = Some(start);
        self.shot_end = Some(end);
    }
}

/// The triggerbot decides to shoot: it is enabled, its hotkey lets it run,
/// no shot is pending, there is a local player (`ctx` is `Some`) and the
/// firing rules allow the shot.
pub open spec fn triggerbot_fires(
    t: Triggerbot,
    cfg: TriggerbotConfig,
    key: HotkeyState,
    ctx: Option<ShotContext>,
) -> bool {
    &&& cfg.enabled
    &&& key_gate(cfg.mode, key.pressed, key.just_pressed, t.active).0
    &&& !t.is_pending()
    &&& match ctx {
        Some(c) => spec_shot_allowed(cfg, c),
        None => false,
    }
}

impl CS2 {
    /// One frame of the triggerbot's decision: updates the hotkey's toggle
    /// state (only when enabled) and returns whether a shot is to be
    /// scheduled now. The caller then draws the delay and calls
    /// `schedule_shot`. `ctx` is `None` when there is no local player.
    pub fn triggerbot(
        &mut self,
        cfg: &TriggerbotConfig,
        key: HotkeyState,
        ctx: Option<ShotContext>,
    ) -> (fire: bool)
        ensures
            fire == triggerbot_fires(old(self).trigger, *cfg, key, ctx),
            final(self).trigger.active == (if cfg.enabled {
                key_gate(cfg.mode, key.pressed, key.just_pressed, old(self).trigger.active).1
            } else {
                old(self).trigger.active
            }),
            final(self).trigger.shot_start == old(self).trigger.shot_start,
            final(self).trigger.shot_end == old(self).trigger.shot_end,
            final(self).aim == old(self).aim,
            final(self).recoil == old(self).recoil,
    {
        if !self.trigger.ready(cfg.enabled, cfg.mode, key.pressed, key.just_pressed) {
            return false;
        }
        match ctx {
            Some(c) => shot_allowed(cfg, c),
            None => false,
        }
    }

    /// Runs the pending shot at time `now`: presses the button when the
    /// press is due and releases it when the release is due (both in one
    /// frame when both are due, press first). What was done is no longer
    /// pending.
    pub fn triggerbot_shoot(&mut self, now: u64) -> (acts: ShotActions)
        ensures
            (final(self).trigger, acts) == old(self).trigger.shoot_step(now),
            final(self).aim == old(self).aim,
            final(self).recoil == old(self).recoil,
    {
        let mut acts = ShotActions { press: false, release: false };
        if let Some(shot_time) = self.trigger.shot_start {
            if now >= shot_time {
                acts.press = true;
                self.trigger.shot_start = None;
            }
        }
        if let Some(shot_end) = self.trigger.shot_end {
            if now >= shot_end {
                acts.release = true;
                self.trigger.shot_end = None;
            }
        }
        acts
    }
}

/// What the game shows when the triggerbot considers a shot.
#[derive(Clone, Copy, Debug, PartialEq, Eq, Structural)]
pub struct ShotContext {
    /// The local player is flashed.
    pub flashed: bool,
    /// The local player holds a sniper rifle.
    pub sniper: bool,
    /// The local player is scoped in.
    pub scoped: bool,
    /// The local player moves faster than the configured threshold.
    pub too_fast: bool,
    /// An enemy is under the crosshair (or along the aim ray, for wallbangs).
    pub has_target: bool,
    /// The match is free-for-all.
    pub ffa: bool,
    /// The target is on the local player's team.
    pub same_team: bool,
    /// The crosshair is outside the target's head.
    pub off_head: bool,
}

/// The triggerbot's rules for firing: each enabled check must pass (not
/// flashed; scoped in when holding a sniper rifle; not moving too fast;
/// on the head when only head shots are allowed), there must be a target,
/// and it must be an enemy unless the match is free-for-all.
pub open spec fn spec_shot_allowed(cfg: TriggerbotConfig, c: ShotContext) -> bool {
    &&& !(cfg.flash_check && c.flashed)
    &&& !(cfg.scope_check && c.sniper && !c.scoped)
    &&& !(cfg.velocity_check && c.too_fast)
    &&& c.has_target
    &&& (c.ffa || !c.same_team)
    &&& !(cfg.head_only && c.off_head)
}

/// Whether the triggerbot fires in this situation (see `spec_shot_allowed`).
pub fn shot_allowed(cfg: &TriggerbotConfig, c: ShotContext) -> (b: bool)
    ensures
        b == spec_shot_allowed(*cfg, c),
        !c.has_target ==> !b,
        !c.ffa && c.same_team ==> !b,
        cfg.flash_check && c.flashed ==> !b,
        cfg.scope_check && c.sniper && !c.scoped ==> !b,
        cfg.velocity_check && c.too_fast ==> !b,
        cfg.head_only && c.off_head ==> !b,
        ({
            let checks_pass = !(cfg.flash_check && c.flashed) && !(cfg.scope_check && c.sniper
                && !c.scoped) && !(cfg.velocity_check && c.too_fast) && !(cfg.head_only
                && c.off_head);
            checks_pass && c.has_target && (!c.same_team || c.ffa) ==> b
        }),
{
    if cfg.flash_check && c.flashed {
        return false;
    }
    if cfg.scope_check && c.sniper && !c.scoped {
        return false;
    }
    if cfg.velocity_check && c.too_fast {
        return false;
    }
    if !c.has_target {
        return false;
    }
    if !c.ffa && c.same_team {
        return false;
    }
    !(cfg.head_only && c.off_head)
}

/// Delay of a shot the aimbot fires by itself, in milliseconds.
pub const AUTO_FIRE_DELAY_MS: u64 = 40;

/// How long the aimbot holds the button for a shot of its own, in
/// milliseconds.
pub const AUTO_FIRE_DURATION_MS: u64 = 80;

impl Triggerbot {
    /// The aimbot's own shot in `Always` mode: when the aim is locked on
    /// (`locked`, decided by the caller from the angle to the target) and no
    /// shot is pending, a short shot is scheduled through the triggerbot.
    /// Returns whether one was.
    pub fn auto_fire(&mut self, mode: KeyMode, locked: bool, now: u64) -> (fired: bool)
        requires
            mode == KeyMode::Always && !old(self).is_pending() && locked ==> Triggerbot::can_schedule(
                now,
                AUTO_FIRE_DELAY_MS,
                AUTO_FIRE_DURATION_MS,
            ),
        ensures
            fired == (mode == KeyMode::Always && !old(self).is_pending() && locked),
            fired ==> *final(self) == old(self).scheduled(
                now,
                AUTO_FIRE_DELAY_MS,
                AUTO_FIRE_DURATION_MS,
            ),
            !fired ==> *final(self) == *old(self),
    {
        if mode == KeyMode::Always && !self.pending() && locked {
            self.schedule_shot(now, AUTO_FIRE_DELAY_MS, AUTO_FIRE_DURATION_MS);
            true
        } else {
            false
        }
    }
}

/// After a frame, no press or release that was due at that time is still
/// pending: every due action is performed in the frame it becomes due.
pub proof fn lemma_shoot_leaves_nothing_due(t: Triggerbot, now: u64)
    ensures
        !due(t.shoot_step(now).0.shot_start, now),
        !due(t.shoot_step(now).0.shot_end, now),
{
}

/// A frame before anything is due does nothing, and a frame of an idle
/// triggerbot does nothing either.
pub proof fn lemma_shoot_idle(t: Triggerbot, now: u64)
    requires
        !due(t.shot_start, now) && !due(t.shot_end, now),
    ensures
        t.shoot_step(now) == (t, ShotActions { press: false, release: false }),
{
}

/// While a shot is pending the triggerbot never decides to shoot again:
/// one shot at a time.
pub proof fn lemma_one_shot_at_a_time(
    t: Triggerbot,
    cfg: TriggerbotConfig,
    key: HotkeyState,
    ctx: Option<ShotContext>,
)
    requires
        t.is_pending(),
    ensures
        !triggerbot_fires(t, cfg, key, ctx),
{
}

/// A freshly scheduled shot is pending and has its press no later than its
/// release.
pub proof fn lemma_scheduled_well_ordered(t: Triggerbot, now: u64, delay_ms: u64, duration_ms: u64)
    requires
        Triggerbot::can_schedule(now, delay_ms, duration_ms),
    ensures
        t.scheduled(now, delay_ms, duration_ms).well_ordered(),
        t.scheduled(now, delay_ms, duration_ms).is_pending(),
{
}

/// The button is never released before it is pressed: in a well-ordered
/// state a release comes in the same frame as the press or after it, and
/// the order is kept from frame to frame.
pub proof fn lemma_release_after_press(t: Triggerbot, now: u64)
    requires
        t.well_ordered(),
    ensures
        t.shoot_step(now).0.well_ordered(),
        t.shoot_step(now).1.release ==> t.shoot_step(now).1.press || t.shot_start is None,
{
}

/// A scheduled shot presses the button once its delay has passed, and a
/// frame at or after its end time presses (if not yet done) and releases,
/// leaving nothing pending.
pub proof fn lemma_scheduled_shot_completes(
    t: Triggerbot,
    now: u64,
    delay_ms: u64,
    duration_ms: u64,
    later: u64,
)
    requires
        Triggerbot::can_schedule(now, delay_ms, duration_ms),
        later >= now + delay_ms * NANOS_PER_MILLI + duration_ms * NANOS_PER_MILLI,
    ensures
        ({
            let (after, acts) = t.scheduled(now, delay_ms, duration_ms).shoot_step(later);
            &&& acts == (ShotActions { press: true, release: true })
            &&& !after.is_pending()
            &&& after.active == t.active
        }),
{
    assert(duration_ms * NANOS_PER_MILLI >= 0) by (nonlinear_arith)
        requires
            duration_ms >= 0,
    ;
}

/// The state after `triggerbot_shoot` has run at each of `times` in turn.
pub open spec fn run_state(t: Triggerbot, times: Seq<u64>) -> Triggerbot
    decreases times.len(),
{
    if times.len() == 0 {
        t
    } else {
        run_state(t, times.drop_last()).shoot_step(times.last()).0
    }
}

/// How many of the calls at `times` press the button.
pub open spec fn run_presses(t: Triggerbot, times: Seq<u64>) -> nat
    decreases times.len(),
{
    if times.len() == 0 {
        0
    } else {
        let before = times.drop_last();
        run_presses(t, before) + if run_state(t, before).shoot_step(times.last()).1.press {
            1nat
        } else {
            0nat
        }
    }
}

/// How many of the calls at `times` release the button.
pub open spec fn run_releases(t: Triggerbot, times: Seq<u64>) -> nat
    decreases times.len(),
{
    if times.len() == 0 {
        0
    } else {
        let before = times.drop_last();
        run_releases(t, before) + if run_state(t, before).shoot_step(times.last()).1.release {
            1nat
        } else {
            0nat
        }
    }
}

/// Where a run from a scheduled shot stands: nothing done yet, pressed and
/// waiting for the release, or pressed and released with nothing pending.
spec fn run_stage(t: Triggerbot, times: Seq<u64>) -> bool {
    let r = run_state(t, times);
    let p = run_presses(t, times);
    let q = run_releases(t, times);
    ||| p == 0 && q == 0 && r == t
    ||| p == 1 && q == 0 && r == (Triggerbot { shot_start: None, ..t })
    ||| p == 1 && q == 1 && r == (Triggerbot { shot_start: None, shot_end: None, ..t })
}

proof fn lemma_run_stage(t: Triggerbot, times: Seq<u64>)
    requires
        t.shot_start is Some,
        t.well_ordered(),
    ensures
        run_stage(t, times),
    decreases times.len(),
{
    if times.len() > 0 {
        lemma_run_stage(t, times.drop_last());
    }
}

/// A scheduled shot, run by `triggerbot_shoot` until a call at or after
/// its release time, presses the button exactly once and releases it
/// exactly once, never releases before pressing, and leaves nothing
/// pending. The times of the calls need not be increasing.
pub proof fn lemma_run_shoots_once(t: Triggerbot, times: Seq<u64>)
    requires
        t.shot_start is Some,
        t.well_ordered(),
        times.len() > 0,
        times.last() >= t.shot_end->0,
    ensures
        run_presses(t, times) == 1,
        run_releases(t, times) == 1,
        !run_state(t, times).is_pending(),
        run_state(t, times).active == t.active,
        forall|i: int|
            0 <= i <= times.len() ==> #[trigger] run_releases(t, times.take(i)) <= run_presses(
                t,
                times.take(i),
            ),
{
    lemma_run_stage(t, times.drop_last());
    assert forall|i: int| 0 <= i <= times.len() implies #[trigger] run_releases(t, times.take(i))
        <= run_presses(t, times.take(i)) by {
        lemma_run_stage(t, times.take(i));
    }
}

/// The triggerbot shoots an enemy whenever every enabled check passes and a
/// target is under the crosshair, in a team match and in free-for-all
/// alike; free-for-all only ever adds teammates to what it shoots, and the
/// setting of a check that passes plays no part.
pub proof fn lemma_shoots_enemies(cfg: TriggerbotConfig, c: ShotContext)
    ensures
        c.has_target && !c.same_team && !(cfg.flash_check && c.flashed) && !(cfg.scope_check
            && c.sniper && !c.scoped) && !(cfg.velocity_check && c.too_fast) && !(cfg.head_only
            && c.off_head) ==> spec_shot_allowed(cfg, c),
        spec_shot_allowed(cfg, c) ==> spec_shot_allowed(cfg, ShotContext { ffa: true, ..c }),
        spec_shot_allowed(cfg, c) ==> c.has_target && (c.ffa || !c.same_team),
        spec_shot_allowed(cfg, ShotContext { same_team: true, ..c }) ==> spec_shot_allowed(
            cfg,
            ShotContext { same_team: false, ..c },
        ),
{
}

/// The triggerbot fires only when enabled, with its hotkey active, no shot
/// pending and a local player; and then exactly when the shot is allowed.
pub proof fn lemma_fire_conditions(
    t: Triggerbot,
    cfg: TriggerbotConfig,
    key: HotkeyState,
    ctx: Option<ShotContext>,
)
    ensures
        !cfg.enabled ==> !triggerbot_fires(t, cfg, key, ctx),
        t.is_pending() ==> !triggerbot_fires(t, cfg, key, ctx),
        ctx is None ==> !triggerbot_fires(t, cfg, key, ctx),
        !key_gate(cfg.mode, key.pressed, key.just_pressed, t.active).0 ==> !triggerbot_fires(
            t,
            cfg,
            key,
            ctx,
        ),
        match ctx {
            Some(c) => cfg.enabled && !t.is_pending() && key_gate(
                cfg.mode,
                key.pressed,
                key.just_pressed,
                t.active,
            ).0 ==> (triggerbot_fires(t, cfg, key, ctx) <==> spec_shot_allowed(cfg, c)),
            None => true,
        },
{
}

} // verus!
