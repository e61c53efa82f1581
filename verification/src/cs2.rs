//! The game-side state of the aiming and shooting features, and how their
//! hotkeys switch them on.

use vstd::prelude::*;

use crate::aimbot::Aimbot;
use crate::config::KeyMode;
use crate::rcs::Recoil;
use crate::triggerbot::Triggerbot;

verus! {

/// Whether a feature is active this frame, and its toggle state afterwards.
///
/// `Hold` follows the key, `Toggle` flips `active` on each fresh press and
/// follows it, `Always` is always on. Only `Toggle` changes `active`.
pub open spec fn key_gate(mode: KeyMode, pressed: bool, just_pressed: bool, active: bool) -> (
    bool,
    bool,
) {
    match mode {
        KeyMode::Hold => (pressed, active),
        KeyMode::Toggle => {
            let now_active = if just_pressed {
                !active
            } else {
                active
            };
            (now_active, now_active)
        },
        KeyMode::Always => (true, active),
    }
}

/// Applies the hotkey to a feature: returns whether it is active this frame
/// and updates its toggle state (see `key_gate`).
pub fn key_active(mode: KeyMode, pressed: bool, just_pressed: bool, active: &mut bool) -> (on: bool)
    ensures
        (on, *final(active)) == key_gate(mode, pressed, just_pressed, *old(active)),
{
    match mode {
        KeyMode::Hold => pressed,
        KeyMode::Toggle => {
            if just_pressed {
                *active = !*active;
            }
            *active
        },
        KeyMode::Always => true,
    }
}

/// The game-side state of the aiming and shooting features.
pub struct CS2 {
    pub trigger: Triggerbot,
    pub aim: Aimbot,
    pub recoil: Recoil,
}

/// The state of a hotkey this frame.
#[derive(Clone, Copy, Debug, PartialEq, Eq, Structural)]
pub struct HotkeyState {
    /// The key is down.
    pub pressed: bool,
    /// The key went down since the last frame.
    pub just_pressed: bool,
}

/// With a toggle hotkey, two fresh presses give back the state before them.
pub proof fn lemma_toggle_twice(pressed: bool, active: bool)
    ensures
        key_gate(
            KeyMode::Toggle,
            pressed,
            true,
            key_gate(KeyMode::Toggle, pressed, true, active).1,
        ).1 == active,
{
}

/// What each hotkey mode does: `Hold` follows the key and `Always` is on,
/// neither touching the toggle state; `Toggle` flips its state exactly on a
/// fresh press and is on exactly while that state is.
pub proof fn lemma_key_modes(mode: KeyMode, pressed: bool, just_pressed: bool, active: bool)
    ensures
        mode == KeyMode::Hold ==> key_gate(mode, pressed, just_pressed, active) == (
            pressed,
            active,
        ),
        mode == KeyMode::Always ==> key_gate(mode, pressed, just_pressed, active) == (true, active),
        mode == KeyMode::Toggle ==> {
            let (on, after) = key_gate(mode, pressed, just_pressed, active);
            &&& on == after
            &&& (after != active <==> just_pressed)
        },
{
}

} // verus!
