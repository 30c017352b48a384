use vstd::prelude::*;
use vstd::string::*;

use crate::decimal::decimal_text;
use crate::script_values::{int_text, integer, natural};
use crate::template::{fill, fill2, fill3};

verus! {

#[derive(Debug)]
pub struct BrightnessContrastParams {
    /// Path to the sprite file
    pub file_path: String,
    /// Brightness adjustment (-100 to 100)
    pub brightness: i32,
    /// Contrast adjustment (-100 to 100)
    pub contrast: i32,
}

#[derive(Debug)]
pub struct HueSaturationParams {
    /// Path to the sprite file
    pub file_path: String,
    /// Hue shift in degrees (-180 to 180)
    pub hue: i32,
    /// Saturation adjustment (-100 to 100)
    pub saturation: i32,
    /// Lightness adjustment (-100 to 100)
    pub lightness: Option<i32>,
}

#[derive(Debug)]
pub struct InvertColorParams {
    /// Path to the sprite file
    pub file_path: String,
}

#[derive(Debug)]
pub struct DespeckleParams {
    /// Path to the sprite file
    pub file_path: String,
    /// Width of the median filter matrix (default: 3)
    pub width: Option<u32>,
    /// Height of the median filter matrix (default: 3)
    pub height: Option<u32>,
}

pub const BRIGHTNESS_CONTRAST_TEMPLATE: &'static str = r#"local spr = app.sprite
app.command.BrightnessContrast {{
    ui = false,
    brightness = {brightness},
    contrast = {contrast}
}}
spr:saveAs(spr.filename)
print(json.encode({{status = "applied", filter = "brightness_contrast", brightness = {brightness}, contrast = {contrast}}}))"#;

pub const HUE_SATURATION_TEMPLATE: &'static str = r#"local spr = app.sprite
app.command.HueSaturation {{
    ui = false,
    hue = {hue},
    saturation = {saturation},
    lightness = {lightness},
    mode = "hsl"
}}
spr:saveAs(spr.filename)
print(json.encode({{status = "applied", filter = "hue_saturation", hue = {hue}, saturation = {saturation}, lightness = {lightness}}}))"#;

pub const INVERT_COLOR_SCRIPT: &'static str = r#"local spr = app.sprite
app.command.InvertColor {
    ui = false
}
spr:saveAs(spr.filename)
print(json.encode({status = "applied", filter = "invert_color"}))"#;

pub const DESPECKLE_TEMPLATE: &'static str = r#"local spr = app.sprite
app.command.Despeckle {{
    ui = false,
    width = {width},
    height = {height}
}}
spr:saveAs(spr.filename)
print(json.encode({{status = "applied", filter = "despeckle", width = {width}, height = {height}}}))"#;


/// `v` kept between `lo` and `hi`.
pub open spec fn clamp(v: int, lo: int, hi: int) -> int {
    if v < lo {
        lo
    } else if v > hi {
        hi
    } else {
        v
    }
}

fn clamp_exec(v: i32, lo: i32, hi: i32) -> (r: i32)
    requires
        lo <= hi,
    ensures
        r as int == clamp(v as int, lo as int, hi as int),
{
    if v < lo {
        lo
    } else if v > hi {
        hi
    } else {
        v
    }
}

pub open spec fn brightness_contrast_text(p: BrightnessContrastParams) -> Seq<char> {
    fill(
        BRIGHTNESS_CONTRAST_TEMPLATE@,
        seq![
            ("brightness"@, int_text(clamp(p.brightness as int, -100, 100))),
            ("contrast"@, int_text(clamp(p.contrast as int, -100, 100))),
        ],
    )
}

/// The script that changes brightness and contrast, each kept between -100
/// and 100.
pub fn brightness_contrast_script(p: &BrightnessContrastParams) -> (r: String)
    ensures
        r@ == brightness_contrast_text(*p),
{
    let b = clamp_exec(p.brightness, -100, 100);
    let c = clamp_exec(p.contrast, -100, 100);
    fill2(
        BRIGHTNESS_CONTRAST_TEMPLATE,
        "brightness",
        integer(b as i64),
        "contrast",
        integer(c as i64),
    )
}

pub open spec fn hue_saturation_text(p: HueSaturationParams) -> Seq<char> {
    let lightness = match p.lightness {
        Some(l) => l as int,
        None => 0,
    };
    fill(
        HUE_SATURATION_TEMPLATE@,
        seq![
            ("hue"@, int_text(clamp(p.hue as int, -180, 180))),
            ("saturation"@, int_text(clamp(p.saturation as int, -100, 100))),
            ("lightness"@, int_text(clamp(lightness, -100, 100))),
        ],
    )
}

/// The script that shifts hue (kept between -180 and 180), saturation and
/// lightness (each kept between -100 and 100; lightness 0 by default).
pub fn hue_saturation_script(p: &HueSaturationParams) -> (r: String)
    ensures
        r@ == hue_saturation_text(*p),
{
    let h = clamp_exec(p.hue, -180, 180);
    let s = clamp_exec(p.saturation, -100, 100);
    let l = match p.lightness {
        Some(l) => l,
        None => 0,
    };
    let l = clamp_exec(l, -100, 100);
    fill3(
        HUE_SATURATION_TEMPLATE,
        "hue",
        integer(h as i64),
        "saturation",
        integer(s as i64),
        "lightness",
        integer(l as i64),
    )
}

/// The script that inverts the colours of the active cel.
pub fn invert_color_script() -> (r: String)
    ensures
        r@ == INVERT_COLOR_SCRIPT@,
{
    String::from_str(INVERT_COLOR_SCRIPT)
}

/// A median window side: 3 by default, at least 1.
pub open spec fn window_side(v: Option<u32>) -> u32 {
    match v {
        Some(0) => 1,
        Some(s) => s,
        None => 3,
    }
}

pub open spec fn despeckle_text(p: DespeckleParams) -> Seq<char> {
    fill(
        DESPECKLE_TEMPLATE@,
        seq![
            ("width"@, decimal_text(window_side(p.width) as nat)),
            ("height"@, decimal_text(window_side(p.height) as nat)),
        ],
    )
}

fn window_side_exec(v: Option<u32>) -> (r: u32)
    ensures
        r == window_side(v),
{
    match v {
        Some(0) => 1,
        Some(s) => s,
        None => 3,
    }
}

/// The script that applies a median filter over the given window.
pub fn despeckle_script(p: &DespeckleParams) -> (r: String)
    ensures
        r@ == despeckle_text(*p),
{
    fill2(
        DESPECKLE_TEMPLATE,
        "width",
        natural(window_side_exec(p.width) as u64),
        "height",
        natural(window_side_exec(p.height) as u64),
    )
}

} // verus!
