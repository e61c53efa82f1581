# deadlocked

The settings, decision logic and bookkeeping of a CS2 overlay, written in
Verus with their contracts proved.

- `src/` — the verified library: the settings and their defaults and
  presets (global and per-weapon aim settings, player ESP, HUD), the
  config-file bookkeeping, the triggerbot's hotkey handling and shot timing,
  the aimbot's and the recoil control's frame decisions, the targeting
  rules, the sound indicators, the bone picker, the settings search and the
  window's navigation.
- `tests/` — tests of the library on concrete values.
- `app/` — ordinary Rust around the library: TOML files, the clock and the
  random shot delay, the floating-point aim, recoil and drawing math, egui
  widgets and panels, and the window/GL setup.

Floating-point settings are held by the library as their IEEE-754 bit
patterns and turned back into `f32` by the code that draws and aims.
