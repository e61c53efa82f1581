use deadlocked::color::{apply_preset, color_presets, preset_selected, Colors, Palette, Rgba};

fn rgba(r: u8, g: u8, b: u8, a: u8) -> Rgba {
    Rgba { r, g, b, a }
}

#[test]
fn from_rgb_is_opaque() {
    assert_eq!(Rgba::from_rgb(1, 2, 3), rgba(1, 2, 3, 255));
}

#[test]
fn palette_values() {
    assert_eq!(Colors::palette(Palette::Backdrop), rgba(18, 19, 26, 255));
    assert_eq!(Colors::palette(Palette::Text), rgba(238, 240, 248, 255));
    assert_eq!(Colors::palette(Palette::Blue), rgba(110, 160, 250, 255));
    assert_eq!(Colors::palette(Palette::Purple), rgba(180, 120, 240, 255));
}

#[test]
fn accent_colors_in_order() {
    let accents = Colors::accent_colors();
    let names: Vec<&str> = accents.iter().map(|(n, _)| *n).collect();
    assert_eq!(names, vec!["Red", "Orange", "Yellow", "Green", "Teal", "Blue", "Purple"]);
    assert_eq!(accents[3].1, rgba(140, 230, 130, 255));
}

#[test]
fn presets_table() {
    let p = color_presets();
    assert_eq!(p.len(), 14);
    assert_eq!(p[0], rgba(240, 100, 100, 255));
    // egui's white and black, read through egui
    assert_eq!(p[7], rgba(255, 255, 255, 255));
    assert_eq!(p[8], rgba(255, 192, 203, 255));
    assert_eq!(p[12], rgba(50, 50, 50, 255));
    assert_eq!(p[13], rgba(0, 0, 0, 255));
}

#[test]
fn preset_selection_ignores_alpha() {
    assert!(preset_selected(rgba(10, 20, 30, 5), rgba(10, 20, 30, 255)));
    assert!(!preset_selected(rgba(10, 20, 31, 255), rgba(10, 20, 30, 255)));
}

#[test]
fn applying_preset_keeps_alpha() {
    let red = rgba(255, 0, 0, 255);
    // opaque colour: takes the preset as it is
    assert_eq!(apply_preset(rgba(1, 2, 3, 255), red), red);
    // fully transparent colour stays transparent
    assert_eq!(apply_preset(rgba(1, 2, 3, 0), red), rgba(0, 0, 0, 0));
    // half transparent: channels premultiplied by 128/255, with egui's rounding
    assert_eq!(apply_preset(rgba(9, 9, 9, 128), rgba(255, 100, 0, 255)), rgba(128, 50, 0, 128));
}
