//! The named colors that scripts find on the `Color` class.

use vstd::prelude::*;

use crate::color::Color;

verus! {

/// The named colors, in order: the basic ones, then the CSS colors.
pub open spec fn named_color_table() -> Seq<(Seq<char>, Color)> {
    Seq::empty()
        .push(("Red"@, Color { r: 255, g: 0, b: 0, a: 255 }))
        .push(("Green"@, Color { r: 0, g: 128, b: 0, a: 255 }))
        .push(("Blue"@, Color { r: 0, g: 0, b: 255, a: 255 }))
        .push(("White"@, Color { r: 255, g: 255, b: 255, a: 255 }))
        .push(("Black"@, Color { r: 0, g: 0, b: 0, a: 255 }))
        .push(("Transparent"@, Color { r: 0, g: 0, b: 0, a: 0 }))
        .push(("AliceBlue"@, Color { r: 240, g: 248, b: 255, a: 255 }))
        .push(("AntiqueWhite"@, Color { r: 250, g: 235, b: 215, a: 255 }))
        .push(("Aqua"@, Color { r: 0, g: 255, b: 255, a: 255 }))
        .push(("Aquamarine"@, Color { r: 127, g: 255, b: 212, a: 255 }))
        .push(("Azure"@, Color { r: 240, g: 255, b: 255, a: 255 }))
        .push(("Beige"@, Color { r: 245, g: 245, b: 220, a: 255 }))
        .push(("Bisque"@, Color { r: 255, g: 228, b: 196, a: 255 }))
        .push(("BlanchedAlmond"@, Color { r: 255, g: 235, b: 205, a: 255 }))
        .push(("BlueViolet"@, Color { r: 138, g: 43, b: 226, a: 255 }))
        .push(("Brown"@, Color { r: 165, g: 42, b: 42, a: 255 }))
        .push(("BurlyWood"@, Color { r: 222, g: 184, b: 135, a: 255 }))
        .push(("CadetBlue"@, Color { r: 95, g: 158, b: 160, a: 255 }))
        .push(("Chartreuse"@, Color { r: 127, g: 255, b: 0, a: 255 }))
        .push(("Chocolate"@, Color { r: 210, g: 105, b: 30, a: 255 }))
        .push(("Coral"@, Color { r: 255, g: 127, b: 80, a: 255 }))
        .push(("CornflowerBlue"@, Color { r: 100, g: 149, b: 237, a: 255 }))
        .push(("Cornsilk"@, Color { r: 255, g: 248, b: 220, a: 255 }))
        .push(("Crimson"@, Color { r: 220, g: 20, b: 60, a: 255 }))
        .push(("Cyan"@, Color { r: 0, g: 255, b: 255, a: 255 }))
        .push(("DarkBlue"@, Color { r: 0, g: 0, b: 139, a: 255 }))
        .push(("DarkCyan"@, Color { r: 0, g: 139, b: 139, a: 255 }))
        .push(("DarkGoldenRod"@, Color { r: 184, g: 134, b: 11, a: 255 }))
        .push(("DarkGray"@, Color { r: 169, g: 169, b: 169, a: 255 }))
        .push(("DarkGreen"@, Color { r: 0, g: 100, b: 0, a: 255 }))
        .push(("DarkKhaki"@, Color { r: 189, g: 183, b: 107, a: 255 }))
        .push(("DarkMagenta"@, Color { r: 139, g: 0, b: 139, a: 255 }))
        .push(("DarkOliveGreen"@, Color { r: 85, g: 107, b: 47, a: 255 }))
        .push(("DarkOrange"@, Color { r: 255, g: 140, b: 0, a: 255 }))
        .push(("DarkOrchid"@, Color { r: 153, g: 50, b: 204, a: 255 }))
        .push(("DarkRed"@, Color { r: 139, g: 0, b: 0, a: 255 }))
        .push(("DarkSalmon"@, Color { r: 233, g: 150, b: 122, a: 255 }))
        .push(("DarkSeaGreen"@, Color { r: 143, g: 188, b: 143, a: 255 }))
        .push(("DarkSlateBlue"@, Color { r: 72, g: 61, b: 139, a: 255 }))
        .push(("DarkSlateGray"@, Color { r: 47, g: 79, b: 79, a: 255 }))
        .push(("DarkTurquoise"@, Color { r: 0, g: 206, b: 209, a: 255 }))
        .push(("DarkViolet"@, Color { r: 148, g: 0, b: 211, a: 255 }))
        .push(("DeepPink"@, Color { r: 255, g: 20, b: 147, a: 255 }))
        .push(("DeepSkyBlue"@, Color { r: 0, g: 191, b: 255, a: 255 }))
        .push(("DimGray"@, Color { r: 105, g: 105, b: 105, a: 255 }))
        .push(("DodgerBlue"@, Color { r: 30, g: 144, b: 255, a: 255 }))
        .push(("Firebrick"@, Color { r: 178, g: 34, b: 34, a: 255 }))
        .push(("FloralWhite"@, Color { r: 255, g: 250, b: 240, a: 255 }))
        .push(("ForestGreen"@, Color { r: 34, g: 139, b: 34, a: 255 }))
        .push(("Fuchsia"@, Color { r: 255, g: 0, b: 255, a: 255 }))
        .push(("Gainsboro"@, Color { r: 220, g: 220, b: 220, a: 255 }))
        .push(("GhostWhite"@, Color { r: 248, g: 248, b: 255, a: 255 }))
        .push(("Gold"@, Color { r: 255, g: 215, b: 0, a: 255 }))
        .push(("GoldenRod"@, Color { r: 218, g: 165, b: 32, a: 255 }))
        .push(("Gray"@, Color { r: 128, g: 128, b: 128, a: 255 }))
        .push(("GreenYellow"@, Color { r: 173, g: 255, b: 47, a: 255 }))
        .push(("HoneyDew"@, Color { r: 240, g: 255, b: 240, a: 255 }))
        .push(("HotPink"@, Color { r: 255, g: 105, b: 180, a: 255 }))
        .push(("IndianRed"@, Color { r: 205, g: 92, b: 92, a: 255 }))
        .push(("Indigo"@, Color { r: 75, g: 0, b: 130, a: 255 }))
        .push(("Ivory"@, Color { r: 255, g: 255, b: 240, a: 255 }))
        .push(("Khaki"@, Color { r: 240, g: 230, b: 140, a: 255 }))
        .push(("Lavender"@, Color { r: 230, g: 230, b: 250, a: 255 }))
        .push(("LavenderBlush"@, Color { r: 255, g: 240, b: 245, a: 255 }))
        .push(("LawnGreen"@, Color { r: 124, g: 252, b: 0, a: 255 }))
        .push(("LemonChiffon"@, Color { r: 255, g: 250, b: 205, a: 255 }))
        .push(("LightBlue"@, Color { r: 173, g: 216, b: 230, a: 255 }))
        .push(("LightCoral"@, Color { r: 240, g: 128, b: 128, a: 255 }))
        .push(("LightCyan"@, Color { r: 224, g: 255, b: 255, a: 255 }))
        .push(("LightGoldenRodYellow"@, Color { r: 250, g: 250, b: 210, a: 255 }))
        .push(("LightGray"@, Color { r: 211, g: 211, b: 211, a: 255 }))
        .push(("LightGreen"@, Color { r: 144, g: 238, b: 144, a: 255 }))
        .push(("LightPink"@, Color { r: 255, g: 182, b: 193, a: 255 }))
        .push(("LightSalmon"@, Color { r: 255, g: 160, b: 122, a: 255 }))
        .push(("LightSeaGreen"@, Color { r: 32, g: 178, b: 170, a: 255 }))
        .push(("LightSkyBlue"@, Color { r: 135, g: 206, b: 250, a: 255 }))
        .push(("LightSlateGray"@, Color { r: 119, g: 136, b: 153, a: 255 }))
        .push(("LightSteelBlue"@, Color { r: 176, g: 196, b: 222, a: 255 }))
        .push(("LightYellow"@, Color { r: 255, g: 255, b: 224, a: 255 }))
        .push(("Lime"@, Color { r: 0, g: 255, b: 0, a: 255 }))
        .push(("LimeGreen"@, Color { r: 50, g: 205, b: 50, a: 255 }))
        .push(("Linen"@, Color { r: 250, g: 240, b: 230, a: 255 }))
        .push(("Magenta"@, Color { r: 255, g: 0, b: 255, a: 255 }))
        .push(("Maroon"@, Color { r: 128, g: 0, b: 0, a: 255 }))
        .push(("MediumAquaMarine"@, Color { r: 102, g: 205, b: 170, a: 255 }))
        .push(("MediumBlue"@, Color { r: 0, g: 0, b: 205, a: 255 }))
        .push(("MediumOrchid"@, Color { r: 186, g: 85, b: 211, a: 255 }))
        .push(("MediumPurple"@, Color { r: 147, g: 112, b: 219, a: 255 }))
        .push(("MediumSeaGreen"@, Color { r: 60, g: 179, b: 113, a: 255 }))
        .push(("MediumSlateBlue"@, Color { r: 123, g: 104, b: 238, a: 255 }))
        .push(("MediumSpringGreen"@, Color { r: 0, g: 250, b: 154, a: 255 }))
        .push(("MediumTurquoise"@, Color { r: 72, g: 209, b: 204, a: 255 }))
        .push(("MediumVioletRed"@, Color { r: 199, g: 21, b: 133, a: 255 }))
        .push(("MidnightBlue"@, Color { r: 25, g: 25, b: 112, a: 255 }))
        .push(("MintCream"@, Color { r: 245, g: 255, b: 250, a: 255 }))
        .push(("MistyRose"@, Color { r: 255, g: 228, b: 225, a: 255 }))
        .push(("Moccasin"@, Color { r: 255, g: 228, b: 181, a: 255 }))
        .push(("NavajoWhite"@, Color { r: 255, g: 222, b: 173, a: 255 }))
        .push(("Navy"@, Color { r: 0, g: 0, b: 128, a: 255 }))
        .push(("OldLace"@, Color { r: 253, g: 245, b: 230, a: 255 }))
        .push(("Olive"@, Color { r: 128, g: 128, b: 0, a: 255 }))
        .push(("OliveDrab"@, Color { r: 107, g: 142, b: 35, a: 255 }))
        .push(("Orange"@, Color { r: 255, g: 165, b: 0, a: 255 }))
        .push(("OrangeRed"@, Color { r: 255, g: 69, b: 0, a: 255 }))
        .push(("Orchid"@, Color { r: 218, g: 112, b: 214, a: 255 }))
        .push(("PaleGoldenRod"@, Color { r: 238, g: 232, b: 170, a: 255 }))
        .push(("PaleGreen"@, Color { r: 152, g: 251, b: 152, a: 255 }))
        .push(("PaleTurquoise"@, Color { r: 175, g: 238, b: 238, a: 255 }))
        .push(("PaleVioletRed"@, Color { r: 219, g: 112, b: 147, a: 255 }))
        .push(("PapayaWhip"@, Color { r: 255, g: 239, b: 213, a: 255 }))
        .push(("PeachPuff"@, Color { r: 255, g: 218, b: 185, a: 255 }))
        .push(("Peru"@, Color { r: 205, g: 133, b: 63, a: 255 }))
        .push(("Pink"@, Color { r: 255, g: 192, b: 203, a: 255 }))
        .push(("Plum"@, Color { r: 221, g: 160, b: 221, a: 255 }))
        .push(("PowderBlue"@, Color { r: 176, g: 224, b: 230, a: 255 }))
        .push(("Purple"@, Color { r: 128, g: 0, b: 128, a: 255 }))
        .push(("RebeccaPurple"@, Color { r: 102, g: 51, b: 153, a: 255 }))
        .push(("RosyBrown"@, Color { r: 188, g: 143, b: 143, a: 255 }))
        .push(("RoyalBlue"@, Color { r: 65, g: 105, b: 225, a: 255 }))
        .push(("SaddleBrown"@, Color { r: 139, g: 69, b: 19, a: 255 }))
        .push(("Salmon"@, Color { r: 250, g: 128, b: 114, a: 255 }))
        .push(("SandyBrown"@, Color { r: 244, g: 164, b: 96, a: 255 }))
        .push(("SeaGreen"@, Color { r: 46, g: 139, b: 87, a: 255 }))
        .push(("SeaShell"@, Color { r: 255, g: 245, b: 238, a: 255 }))
        .push(("Sienna"@, Color { r: 160, g: 82, b: 45, a: 255 }))
        .push(("Silver"@, Color { r: 192, g: 192, b: 192, a: 255 }))
        .push(("SkyBlue"@, Color { r: 135, g: 206, b: 235, a: 255 }))
        .push(("SlateBlue"@, Color { r: 106, g: 90, b: 205, a: 255 }))
        .push(("SlateGray"@, Color { r: 112, g: 128, b: 144, a: 255 }))
        .push(("Snow"@, Color { r: 255, g: 250, b: 250, a: 255 }))
        .push(("SpringGreen"@, Color { r: 0, g: 255, b: 127, a: 255 }))
        .push(("SteelBlue"@, Color { r: 70, g: 130, b: 180, a: 255 }))
        .push(("Tan"@, Color { r: 210, g: 180, b: 140, a: 255 }))
        .push(("Teal"@, Color { r: 0, g: 128, b: 128, a: 255 }))
        .push(("Thistle"@, Color { r: 216, g: 191, b: 216, a: 255 }))
        .push(("Tomato"@, Color { r: 255, g: 99, b: 71, a: 255 }))
        .push(("Turquoise"@, Color { r: 64, g: 224, b: 208, a: 255 }))
        .push(("Violet"@, Color { r: 238, g: 130, b: 238, a: 255 }))
        .push(("Wheat"@, Color { r: 245, g: 222, b: 179, a: 255 }))
        .push(("WhiteSmoke"@, Color { r: 245, g: 245, b: 245, a: 255 }))
        .push(("Yellow"@, Color { r: 255, g: 255, b: 0, a: 255 }))
        .push(("YellowGreen"@, Color { r: 154, g: 205, b: 50, a: 255 }))
}

/// The names and colors of some named colors.
pub open spec fn named_view(v: Seq<(String, Color)>) -> Seq<(Seq<char>, Color)> {
    v.map_values(|e: (String, Color)| (e.0@, e.1))
}

/// Appends the named color `name`.
fn push_named(v: &mut Vec<(String, Color)>, name: &str, r: u8, g: u8, b: u8, a: u8)
    ensures
        named_view(final(v)@) == named_view(old(v)@).push((name@, Color { r, g, b, a })),
{
    v.push((String::from_str(name), Color::new(r, g, b, a)));
    assert(named_view(final(v)@) =~= named_view(old(v)@).push((name@, Color { r, g, b, a })));
}

/// The named colors, in order: the basic ones, then the CSS colors.
pub fn named_colors() -> (v: Vec<(String, Color)>)
    ensures
        named_view(v@) == named_color_table(),
{
    let mut v: Vec<(String, Color)> = Vec::new();
    assert(named_view(v@) =~= Seq::<(Seq<char>, Color)>::empty());
    push_named(&mut v, "Red", 255, 0, 0, 255);
    push_named(&mut v, "Green", 0, 128, 0, 255);
    push_named(&mut v, "Blue", 0, 0, 255, 255);
    push_named(&mut v, "White", 255, 255, 255, 255);
    push_named(&mut v, "Black", 0, 0, 0, 255);
    push_named(&mut v, "Transparent", 0, 0, 0, 0);
    push_named(&mut v, "AliceBlue", 240, 248, 255, 255);
    push_named(&mut v, "AntiqueWhite", 250, 235, 215, 255);
    push_named(&mut v, "Aqua", 0, 255, 255, 255);
    push_named(&mut v, "Aquamarine", 127, 255, 212, 255);
    push_named(&mut v, "Azure", 240, 255, 255, 255);
    push_named(&mut v, "Beige", 245, 245, 220, 255);
    push_named(&mut v, "Bisque", 255, 228, 196, 255);
    push_named(&mut v, "BlanchedAlmond", 255, 235, 205, 255);
    push_named(&mut v, "BlueViolet", 138, 43, 226, 255);
    push_named(&mut v, "Brown", 165, 42, 42, 255);
    push_named(&mut v, "BurlyWood", 222, 184, 135, 255);
    push_named(&mut v, "CadetBlue", 95, 158, 160, 255);
    push_named(&mut v, "Chartreuse", 127, 255, 0, 255);
    push_named(&mut v, "Chocolate", 210, 105, 30, 255);
    push_named(&mut v, "Coral", 255, 127, 80, 255);
    push_named(&mut v, "CornflowerBlue", 100, 149, 237, 255);
    push_named(&mut v, "Cornsilk", 255, 248, 220, 255);
    push_named(&mut v, "Crimson", 220, 20, 60, 255);
    push_named(&mut v, "Cyan", 0, 255, 255, 255);
    push_named(&mut v, "DarkBlue", 0, 0, 139, 255);
    push_named(&mut v, "DarkCyan", 0, 139, 139, 255);
    push_named(&mut v, "DarkGoldenRod", 184, 134, 11, 255);
    push_named(&mut v, "DarkGray", 169, 169, 169, 255);
    push_named(&mut v, "DarkGreen", 0, 100, 0, 255);
    push_named(&mut v, "DarkKhaki", 189, 183, 107, 255);
    push_named(&mut v, "DarkMagenta", 139, 0, 139, 255);
    push_named(&mut v, "DarkOliveGreen", 85, 107, 47, 255);
    push_named(&mut v, "DarkOrange", 255, 140, 0, 255);
    push_named(&mut v, "DarkOrchid", 153, 50, 204, 255);
    push_named(&mut v, "DarkRed", 139, 0, 0, 255);
    push_named(&mut v, "DarkSalmon", 233, 150, 122, 255);
    push_named(&mut v, "DarkSeaGreen", 143, 188, 143, 255);
    push_named(&mut v, "DarkSlateBlue", 72, 61, 139, 255);
    push_named(&mut v, "DarkSlateGray", 47, 79, 79, 255);
    push_named(&mut v, "DarkTurquoise", 0, 206, 209, 255);
    push_named(&mut v, "DarkViolet", 148, 0, 211, 255);
    push_named(&mut v, "DeepPink", 255, 20, 147, 255);
    push_named(&mut v, "DeepSkyBlue", 0, 191, 255, 255);
    push_named(&mut v, "DimGray", 105, 105, 105, 255);
    push_named(&mut v, "DodgerBlue", 30, 144, 255, 255);
    push_named(&mut v, "Firebrick", 178, 34, 34, 255);
    push_named(&mut v, "FloralWhite", 255, 250, 240, 255);
    push_named(&mut v, "ForestGreen", 34, 139, 34, 255);
    push_named(&mut v, "Fuchsia", 255, 0, 255, 255);
    push_named(&mut v, "Gainsboro", 220, 220, 220, 255);
    push_named(&mut v, "GhostWhite", 248, 248, 255, 255);
    push_named(&mut v, "Gold", 255, 215, 0, 255);
    push_named(&mut v, "GoldenRod", 218, 165, 32, 255);
    push_named(&mut v, "Gray", 128, 128, 128, 255);
    push_named(&mut v, "GreenYellow", 173, 255, 47, 255);
    push_named(&mut v, "HoneyDew", 240, 255, 240, 255);
    push_named(&mut v, "HotPink", 255, 105, 180, 255);
    push_named(&mut v, "IndianRed", 205, 92, 92, 255);
    push_named(&mut v, "Indigo", 75, 0, 130, 255);
    push_named(&mut v, "Ivory", 255, 255, 240, 255);
    push_named(&mut v, "Khaki", 240, 230, 140, 255);
    push_named(&mut v, "Lavender", 230, 230, 250, 255);
    push_named(&mut v, "LavenderBlush", 255, 240, 245, 255);
    push_named(&mut v, "LawnGreen", 124, 252, 0, 255);
    push_named(&mut v, "LemonChiffon", 255, 250, 205, 255);
    push_named(&mut v, "LightBlue", 173, 216, 230, 255);
    push_named(&mut v, "LightCoral", 240, 128, 128, 255);
    push_named(&mut v, "LightCyan", 224, 255, 255, 255);
    push_named(&mut v, "LightGoldenRodYellow", 250, 250, 210, 255);
    push_named(&mut v, "LightGray", 211, 211, 211, 255);
    push_named(&mut v, "LightGreen", 144, 238, 144, 255);
    push_named(&mut v, "LightPink", 255, 182, 193, 255);
    push_named(&mut v, "LightSalmon", 255, 160, 122, 255);
    push_named(&mut v, "LightSeaGreen", 32, 178, 170, 255);
    push_named(&mut v, "LightSkyBlue", 135, 206, 250, 255);
    push_named(&mut v, "LightSlateGray", 119, 136, 153, 255);
    push_named(&mut v, "LightSteelBlue", 176, 196, 222, 255);
    push_named(&mut v, "LightYellow", 255, 255, 224, 255);
    push_named(&mut v, "Lime", 0, 255, 0, 255);
    push_named(&mut v, "LimeGreen", 50, 205, 50, 255);
    push_named(&mut v, "Linen", 250, 240, 230, 255);
    push_named(&mut v, "Magenta", 255, 0, 255, 255);
    push_named(&mut v, "Maroon", 128, 0, 0, 255);
    push_named(&mut v, "MediumAquaMarine", 102, 205, 170, 255);
    push_named(&mut v, "MediumBlue", 0, 0, 205, 255);
    push_named(&mut v, "MediumOrchid", 186, 85, 211, 255);
    push_named(&mut v, "MediumPurple", 147, 112, 219, 255);
    push_named(&mut v, "MediumSeaGreen", 60, 179, 113, 255);
    push_named(&mut v, "MediumSlateBlue", 123, 104, 238, 255);
    push_named(&mut v, "MediumSpringGreen", 0, 250, 154, 255);
    push_named(&mut v, "MediumTurquoise", 72, 209, 204, 255);
    push_named(&mut v, "MediumVioletRed", 199, 21, 133, 255);
    push_named(&mut v, "MidnightBlue", 25, 25, 112, 255);
    push_named(&mut v, "MintCream", 245, 255, 250, 255);
    push_named(&mut v, "MistyRose", 255, 228, 225, 255);
    push_named(&mut v, "Moccasin", 255, 228, 181, 255);
    push_named(&mut v, "NavajoWhite", 255, 222, 173, 255);
    push_named(&mut v, "Navy", 0, 0, 128, 255);
    push_named(&mut v, "OldLace", 253, 245, 230, 255);
    push_named(&mut v, "Olive", 128, 128, 0, 255);
    push_named(&mut v, "OliveDrab", 107, 142, 35, 255);
    push_named(&mut v, "Orange", 255, 165, 0, 255);
    push_named(&mut v, "OrangeRed", 255, 69, 0, 255);
    push_named(&mut v, "Orchid", 218, 112, 214, 255);
    push_named(&mut v, "PaleGoldenRod", 238, 232, 170, 255);
    push_named(&mut v, "PaleGreen", 152, 251, 152, 255);
    push_named(&mut v, "PaleTurquoise", 175, 238, 238, 255);
    push_named(&mut v, "PaleVioletRed", 219, 112, 147, 255);
    push_named(&mut v, "PapayaWhip", 255, 239, 213, 255);
    push_named(&mut v, "PeachPuff", 255, 218, 185, 255);
    push_named(&mut v, "Peru", 205, 133, 63, 255);
    push_named(&mut v, "Pink", 255, 192, 203, 255);
    push_named(&mut v, "Plum", 221, 160, 221, 255);
    push_named(&mut v, "PowderBlue", 176, 224, 230, 255);
    push_named(&mut v, "Purple", 128, 0, 128, 255);
    push_named(&mut v, "RebeccaPurple", 102, 51, 153, 255);
    push_named(&mut v, "RosyBrown", 188, 143, 143, 255);
    push_named(&mut v, "RoyalBlue", 65, 105, 225, 255);
    push_named(&mut v, "SaddleBrown", 139, 69, 19, 255);
    push_named(&mut v, "Salmon", 250, 128, 114, 255);
    push_named(&mut v, "SandyBrown", 244, 164, 96, 255);
    push_named(&mut v, "SeaGreen", 46, 139, 87, 255);
    push_named(&mut v, "SeaShell", 255, 245, 238, 255);
    push_named(&mut v, "Sienna", 160, 82, 45, 255);
    push_named(&mut v, "Silver", 192, 192, 192, 255);
    push_named(&mut v, "SkyBlue", 135, 206, 235, 255);
    push_named(&mut v, "SlateBlue", 106, 90, 205, 255);
    push_named(&mut v, "SlateGray", 112, 128, 144, 255);
    push_named(&mut v, "Snow", 255, 250, 250, 255);
    push_named(&mut v, "SpringGreen", 0, 255, 127, 255);
    push_named(&mut v, "SteelBlue", 70, 130, 180, 255);
    push_named(&mut v, "Tan", 210, 180, 140, 255);
    push_named(&mut v, "Teal", 0, 128, 128, 255);
    push_named(&mut v, "Thistle", 216, 191, 216, 255);
    push_named(&mut v, "Tomato", 255, 99, 71, 255);
    push_named(&mut v, "Turquoise", 64, 224, 208, 255);
    push_named(&mut v, "Violet", 238, 130, 238, 255);
    push_named(&mut v, "Wheat", 245, 222, 179, 255);
    push_named(&mut v, "WhiteSmoke", 245, 245, 245, 255);
    push_named(&mut v, "Yellow", 255, 255, 0, 255);
    push_named(&mut v, "YellowGreen", 154, 205, 50, 255);
    assert(named_view(v@) == named_color_table());
    v
}

} // verus!
