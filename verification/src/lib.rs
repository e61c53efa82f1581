//! Settings, decision logic and bookkeeping of the deadlocked overlay, with
//! their contracts proved by Verus.

pub mod color;
pub mod config;
pub mod cs2;
pub mod triggerbot;
pub mod sounds;
pub mod body_picker;
pub mod filter;
pub mod aim;
pub mod hud;
pub mod gui;
pub mod targeting;
pub mod aimbot;
pub mod rcs;
pub mod player;
