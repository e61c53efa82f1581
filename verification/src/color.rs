//! Colours as the settings and widgets hold them: premultiplied sRGBA bytes,
//! laid out exactly like `egui::Color32`.

use vstd::prelude::*;

verus! {

/// A colour in gamma space with premultiplied alpha (the layout of
/// `egui::Color32`).
#[derive(Clone, Copy, Debug, PartialEq, Eq, Structural)]
pub struct Rgba {
    pub r: u8,
    pub g: u8,
    pub b: u8,
    pub a: u8,
}

impl Rgba {
    /// Opaque colour from its three channels.
    pub fn from_rgb(r: u8, g: u8, b: u8) -> (c: Rgba)
        ensures
            c == (Rgba { r, g, b, a: 255 }),
    {
        Rgba { r, g, b, a: 255 }
    }

    /// The three colour channels agree (alpha is not compared).
    pub open spec fn same_rgb(self, other: Rgba) -> bool {
        self.r == other.r && self.g == other.g && self.b == other.b
    }
}

/// `val * frac / 255`, rounded, in the fixed-point form egui uses.
pub open spec fn mul_frac_round(val: u8, frac: u8) -> int {
    let p = val * frac + 128;
    (p + p / 256) / 256
}

/// The colour that `Color32::from_rgba_unmultiplied(r, g, b, a)` builds.
pub open spec fn unmultiplied(r: u8, g: u8, b: u8, a: u8) -> Rgba {
    if a == 0 {
        Rgba { r: 0, g: 0, b: 0, a: 0 }
    } else if a == 255 {
        Rgba { r, g, b, a: 255 }
    } else {
        Rgba {
            r: mul_frac_round(r, a) as u8,
            g: mul_frac_round(g, a) as u8,
            b: mul_frac_round(b, a) as u8,
            a,
        }
    }
}

/// Calls `egui::Color32::from_rgba_unmultiplied`. Its contract restates the
/// egui source: alpha 0 gives transparent black, alpha 255 the opaque colour,
/// any other alpha scales each channel by `a / 255` with egui's rounding.
#[verifier::external_body]
pub(crate) fn from_rgba_unmultiplied(r: u8, g: u8, b: u8, a: u8) -> (c: Rgba)
    ensures
        c == unmultiplied(r, g, b, a),
{
    let [r, g, b, a] = egui::Color32::from_rgba_unmultiplied(r, g, b, a).to_array();
    Rgba { r, g, b, a }
}

/// The named colours of egui that the settings use.
#[derive(Clone, Copy, Debug, PartialEq, Eq, Structural)]
pub enum EguiColor {
    Black,
    DarkGray,
    LightGray,
    White,
    Red,
    Orange,
    Purple,
}

/// The value egui gives each of its named colours.
pub open spec fn egui_color_value(c: EguiColor) -> Rgba {
    match c {
        EguiColor::Black => Rgba { r: 0, g: 0, b: 0, a: 255 },
        EguiColor::DarkGray => Rgba { r: 96, g: 96, b: 96, a: 255 },
        EguiColor::LightGray => Rgba { r: 220, g: 220, b: 220, a: 255 },
        EguiColor::White => Rgba { r: 255, g: 255, b: 255, a: 255 },
        EguiColor::Red => Rgba { r: 255, g: 0, b: 0, a: 255 },
        EguiColor::Orange => Rgba { r: 255, g: 165, b: 0, a: 255 },
        EguiColor::Purple => Rgba { r: 128, g: 0, b: 128, a: 255 },
    }
}

/// Reads `egui::Color32::BLACK`; the contract gives the value the egui
/// source defines for it.
#[verifier::external_body]
pub(crate) fn egui_black() -> (c: Rgba)
    ensures
        c == egui_color_value(EguiColor::Black),
{
    let [r, g, b, a] = egui::Color32::BLACK.to_array();
    Rgba { r, g, b, a }
}

/// Reads `egui::Color32::DARK_GRAY`; the contract gives the value the egui
/// source defines for it.
#[verifier::external_body]
pub(crate) fn egui_dark_gray() -> (c: Rgba)
    ensures
        c == egui_color_value(EguiColor::DarkGray),
{
    let [r, g, b, a] = egui::Color32::DARK_GRAY.to_array();
    Rgba { r, g, b, a }
}

/// Reads `egui::Color32::LIGHT_GRAY`; the contract gives the value the egui
/// source defines for it.
#[verifier::external_body]
pub(crate) fn egui_light_gray() -> (c: Rgba)
    ensures
        c == egui_color_value(EguiColor::LightGray),
{
    let [r, g, b, a] = egui::Color32::LIGHT_GRAY.to_array();
    Rgba { r, g, b, a }
}

/// Reads `egui::Color32::WHITE`; the contract gives the value the egui
/// source defines for it.
#[verifier::external_body]
pub(crate) fn egui_white() -> (c: Rgba)
    ensures
        c == egui_color_value(EguiColor::White),
{
    let [r, g, b, a] = egui::Color32::WHITE.to_array();
    Rgba { r, g, b, a }
}

/// Reads `egui::Color32::RED`; the contract gives the value the egui
/// source defines for it.
#[verifier::external_body]
pub(crate) fn egui_red() -> (c: Rgba)
    ensures
        c == egui_color_value(EguiColor::Red),
{
    let [r, g, b, a] = egui::Color32::RED.to_array();
    Rgba { r, g, b, a }
}

/// Reads `egui::Color32::ORANGE`; the contract gives the value the egui
/// source defines for it.
#[verifier::external_body]
pub(crate) fn egui_orange() -> (c: Rgba)
    ensures
        c == egui_color_value(EguiColor::Orange),
{
    let [r, g, b, a] = egui::Color32::ORANGE.to_array();
    Rgba { r, g, b, a }
}

/// Reads `egui::Color32::PURPLE`; the contract gives the value the egui
/// source defines for it.
#[verifier::external_body]
pub(crate) fn egui_purple() -> (c: Rgba)
    ensures
        c == egui_color_value(EguiColor::Purple),
{
    let [r, g, b, a] = egui::Color32::PURPLE.to_array();
    Rgba { r, g, b, a }
}

/// The entries of the application palette.
#[derive(Clone, Copy, Debug, PartialEq, Eq, Structural)]
pub enum Palette {
    Backdrop,
    Base,
    Surface,
    Highlight,
    Subtext,
    Text,
    Red,
    Orange,
    Yellow,
    Green,
    Teal,
    Blue,
    Purple,
}

/// The value of each palette entry.
pub open spec fn palette_value(p: Palette) -> Rgba {
    let (r, g, b) = match p {
        Palette::Backdrop => (18u8, 19u8, 26u8),
        Palette::Base => (26, 27, 36),
        Palette::Surface => (34, 36, 48),
        Palette::Highlight => (54, 57, 78),
        Palette::Subtext => (170, 175, 195),
        Palette::Text => (238, 240, 248),
        Palette::Red => (240, 100, 100),
        Palette::Orange => (240, 140, 90),
        Palette::Yellow => (240, 200, 120),
        Palette::Green => (140, 230, 130),
        Palette::Teal => (80, 200, 200),
        Palette::Blue => (110, 160, 250),
        Palette::Purple => (180, 120, 240),
    };
    Rgba { r, g, b, a: 255 }
}

/// The application palette.
pub struct Colors;

impl Colors {
    /// The colour of a palette entry.
    pub fn palette(p: Palette) -> (c: Rgba)
        ensures
            c == palette_value(p),
    {
        match p {
            Palette::Backdrop => Rgba::from_rgb(18, 19, 26),
            Palette::Base => Rgba::from_rgb(26, 27, 36),
            Palette::Surface => Rgba::from_rgb(34, 36, 48),
            Palette::Highlight => Rgba::from_rgb(54, 57, 78),
            Palette::Subtext => Rgba::from_rgb(170, 175, 195),
            Palette::Text => Rgba::from_rgb(238, 240, 248),
            Palette::Red => Rgba::from_rgb(240, 100, 100),
            Palette::Orange => Rgba::from_rgb(240, 140, 90),
            Palette::Yellow => Rgba::from_rgb(240, 200, 120),
            Palette::Green => Rgba::from_rgb(140, 230, 130),
            Palette::Teal => Rgba::from_rgb(80, 200, 200),
            Palette::Blue => Rgba::from_rgb(110, 160, 250),
            Palette::Purple => Rgba::from_rgb(180, 120, 240),
        }
    }

    /// The accent colours offered in the settings, with their names, in
    /// display order.
    pub fn accent_colors() -> (v: Vec<(&'static str, Rgba)>)
        ensures
            v@.len() == 7,
            v@[0] == ("Red", palette_value(Palette::Red)),
            v@[1] == ("Orange", palette_value(Palette::Orange)),
            v@[2] == ("Yellow", palette_value(Palette::Yellow)),
            v@[3] == ("Green", palette_value(Palette::Green)),
            v@[4] == ("Teal", palette_value(Palette::Teal)),
            v@[5] == ("Blue", palette_value(Palette::Blue)),
            v@[6] == ("Purple", palette_value(Palette::Purple)),
    {
        vec![
            ("Red", Self::palette(Palette::Red)),
            ("Orange", Self::palette(Palette::Orange)),
            ("Yellow", Self::palette(Palette::Yellow)),
            ("Green", Self::palette(Palette::Green)),
            ("Teal", Self::palette(Palette::Teal)),
            ("Blue", Self::palette(Palette::Blue)),
            ("Purple", Self::palette(Palette::Purple)),
        ]
    }
}

/// The swatches of the colour picker, in display order.
pub open spec fn presets_spec() -> Seq<Rgba> {
    seq![
        palette_value(Palette::Red),
        palette_value(Palette::Orange),
        palette_value(Palette::Yellow),
        palette_value(Palette::Green),
        palette_value(Palette::Teal),
        palette_value(Palette::Blue),
        palette_value(Palette::Purple),
        egui_color_value(EguiColor::White),
        Rgba { r: 255, g: 192, b: 203, a: 255 },
        Rgba { r: 255, g: 105, b: 180, a: 255 },
        Rgba { r: 0, g: 200, b: 255, a: 255 },
        Rgba { r: 150, g: 75, b: 0, a: 255 },
        Rgba { r: 50, g: 50, b: 50, a: 255 },
        egui_color_value(EguiColor::Black),
    ]
}

/// The swatches of the colour picker: the accent palette, white, pink, hot
/// pink, cyan, brown, dark grey and black.
pub fn color_presets() -> (v: Vec<Rgba>)
    ensures
        v@ == presets_spec(),
{
    let v = vec![
        Colors::palette(Palette::Red),
        Colors::palette(Palette::Orange),
        Colors::palette(Palette::Yellow),
        Colors::palette(Palette::Green),
        Colors::palette(Palette::Teal),
        Colors::palette(Palette::Blue),
        Colors::palette(Palette::Purple),
        egui_white(),
        Rgba::from_rgb(255, 192, 203),
        Rgba::from_rgb(255, 105, 180),
        Rgba::from_rgb(0, 200, 255),
        Rgba::from_rgb(150, 75, 0),
        Rgba::from_rgb(50, 50, 50),
        egui_black(),
    ];
    assert(v@ =~= presets_spec());
    v
}

/// A swatch is shown as selected when its colour channels equal those of the
/// current colour, whatever the alphas.
pub fn preset_selected(color: Rgba, preset: Rgba) -> (b: bool)
    ensures
        b == color.same_rgb(preset),
{
    color.r == preset.r && color.g == preset.g && color.b == preset.b
}

/// Picking a swatch takes its channels and keeps the current colour's alpha.
pub fn apply_preset(color: Rgba, preset: Rgba) -> (c: Rgba)
    ensures
        c == unmultiplied(preset.r, preset.g, preset.b, color.a),
{
    from_rgba_unmultiplied(preset.r, preset.g, preset.b, color.a)
}

} // verus!
