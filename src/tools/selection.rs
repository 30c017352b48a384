use vstd::prelude::*;
use vstd::string::*;

use crate::color::{lenient_rgb, UNREADABLE_COLOR_MESSAGE};
use crate::decimal::decimal_text;
use crate::script_values::{int_text, integer, natural};
use crate::template::{fill, fill5, str_eq};
use crate::text::push_char;
use crate::tools::drawing::{color_error, read_color_rgb};
use crate::tools::layer::opacity_clamp;
use crate::reply::reply_view;

verus! {

#[derive(Debug)]
pub struct SelectRegionParams {
    /// Path to the sprite file
    pub file_path: String,
    /// X coordinate
    pub x: i32,
    /// Y coordinate
    pub y: i32,
    /// Width
    pub width: u32,
    /// Height
    pub height: u32,
    /// Selection mode: "replace", "add", "subtract", "intersect" (default: "replace")
    pub mode: Option<String>,
}

#[derive(Debug)]
pub struct SelectByColorParams {
    /// Path to the sprite file
    pub file_path: String,
    /// Color to select in hex format (e.g. "#ff0000")
    pub color: String,
    /// Tolerance for color matching (0-255, default: 0)
    pub tolerance: Option<u32>,
}

pub const SELECT_REGION_TEMPLATE: &'static str = r#"local spr = app.sprite
local sel = spr.selection
sel:{mode}(Rectangle({x}, {y}, {w}, {h}))
spr:saveAs(spr.filename)
local result = {{}}
result.status = "selected"
result.bounds = {{
    x = sel.bounds.x,
    y = sel.bounds.y,
    width = sel.bounds.width,
    height = sel.bounds.height
}}
result.isEmpty = sel.isEmpty
print(json.encode(result))"#;

pub const DESELECT_SCRIPT: &'static str = r#"local spr = app.sprite
spr.selection:deselect()
spr:saveAs(spr.filename)
print(json.encode({status = "deselected"}))"#;

pub const SELECT_ALL_SCRIPT: &'static str = r#"local spr = app.sprite
app.command.MaskAll()
spr:saveAs(spr.filename)
local sel = spr.selection
local result = {}
result.status = "selected_all"
result.bounds = {
    x = sel.bounds.x,
    y = sel.bounds.y,
    width = sel.bounds.width,
    height = sel.bounds.height
}
print(json.encode(result))"#;

pub const INVERT_SELECTION_SCRIPT: &'static str = r#"local spr = app.sprite
app.command.InvertMask()
spr:saveAs(spr.filename)
local sel = spr.selection
local result = {}
result.status = "inverted"
result.isEmpty = sel.isEmpty
if not sel.isEmpty then
    result.bounds = {
        x = sel.bounds.x,
        y = sel.bounds.y,
        width = sel.bounds.width,
        height = sel.bounds.height
    }
end
print(json.encode(result))"#;

pub const SELECT_BY_COLOR_TEMPLATE: &'static str = r#"local spr = app.sprite
app.fgColor = Color({r}, {g}, {b})
app.command.MaskByColor {{
    ui = false,
    tolerance = {tolerance}
}}
spr:saveAs(spr.filename)
local sel = spr.selection
local result = {{}}
result.status = "selected_by_color"
result.color = "{color_hex}"
result.tolerance = {tolerance}
result.isEmpty = sel.isEmpty
if not sel.isEmpty then
    result.bounds = {{
        x = sel.bounds.x,
        y = sel.bounds.y,
        width = sel.bounds.width,
        height = sel.bounds.height
    }}
end
print(json.encode(result))"#;


pub open spec fn selection_mode(mode: Option<String>) -> Seq<char> {
    match mode {
        Some(m) => if m@ == "add"@ {
            "add"@
        } else if m@ == "subtract"@ {
            "subtract"@
        } else if m@ == "intersect"@ {
            "intersect"@
        } else {
            "select"@
        },
        None => "select"@,
    }
}

pub open spec fn select_region_text(p: SelectRegionParams) -> Seq<char> {
    fill(
        SELECT_REGION_TEMPLATE@,
        seq![
            ("mode"@, selection_mode(p.mode)),
            ("x"@, int_text(p.x as int)),
            ("y"@, int_text(p.y as int)),
            ("w"@, decimal_text(p.width as nat)),
            ("h"@, decimal_text(p.height as nat)),
        ],
    )
}

/// The script that selects a rectangle, replacing the selection or adding
/// to, subtracting from or intersecting with it.
pub fn select_region_script(p: &SelectRegionParams) -> (r: String)
    ensures
        r@ == select_region_text(*p),
{
    let mode = match &p.mode {
        Some(m) => if str_eq(m.as_str(), "add") {
            "add"
        } else if str_eq(m.as_str(), "subtract") {
            "subtract"
        } else if str_eq(m.as_str(), "intersect") {
            "intersect"
        } else {
            "select"
        },
        None => "select",
    };
    fill5(
        SELECT_REGION_TEMPLATE,
        "mode",
        String::from_str(mode),
        "x",
        integer(p.x as i64),
        "y",
        integer(p.y as i64),
        "w",
        natural(p.width as u64),
        "h",
        natural(p.height as u64),
    )
}

/// The script that clears the selection.
pub fn deselect_script() -> (r: String)
    ensures
        r@ == DESELECT_SCRIPT@,
{
    String::from_str(DESELECT_SCRIPT)
}

/// The script that selects the whole canvas.
pub fn select_all_script() -> (r: String)
    ensures
        r@ == SELECT_ALL_SCRIPT@,
{
    String::from_str(SELECT_ALL_SCRIPT)
}

/// The script that inverts the selection.
pub fn invert_selection_script() -> (r: String)
    ensures
        r@ == INVERT_SELECTION_SCRIPT@,
{
    String::from_str(INVERT_SELECTION_SCRIPT)
}

pub open spec fn lower_hex_digit(d: nat) -> char {
    if d < 10 {
        (('0' as u32) + d) as char
    } else {
        (('a' as u32) + d - 10) as char
    }
}

/// A byte as two lowercase hex digits.
pub open spec fn hex2(b: u8) -> Seq<char> {
    seq![lower_hex_digit((b / 16) as nat), lower_hex_digit((b % 16) as nat)]
}

fn hex_digit_exec(d: u8) -> (c: char)
    requires
        d < 16,
    ensures
        c == lower_hex_digit(d as nat),
{
    if d < 10 {
        (48u8 + d) as char
    } else {
        (87u8 + d) as char
    }
}

fn push_hex2(s: &mut String, b: u8)
    ensures
        final(s)@ == old(s)@ + hex2(b),
{
    push_char(s, hex_digit_exec(b / 16));
    push_char(s, hex_digit_exec(b % 16));
}

pub open spec fn select_by_color_result(p: SelectByColorParams) -> Result<Seq<char>, Seq<char>> {
    if lenient_rgb(p.color@) is None {
        Err(color_error("color"@, p.color@, UNREADABLE_COLOR_MESSAGE@))
    } else {
        let c = lenient_rgb(p.color@)->0;
        let tolerance = opacity_clamp(
            match p.tolerance {
                Some(t) => t,
                None => 0,
            },
        );
        Ok(
            fill(
                SELECT_BY_COLOR_TEMPLATE@,
                seq![
                    ("r"@, decimal_text(c.0 as nat)),
                    ("g"@, decimal_text(c.1 as nat)),
                    ("b"@, decimal_text(c.2 as nat)),
                    ("tolerance"@, decimal_text(tolerance as nat)),
                    ("color_hex"@, seq!['#'] + hex2(c.0) + hex2(c.1) + hex2(c.2)),
                ],
            ),
        )
    }
}

/// The script that selects the pixels of a colour (read leniently), within a
/// tolerance of at most 255.
pub fn select_by_color_script(p: &SelectByColorParams) -> (r: Result<String, String>)
    ensures
        reply_view(r) == select_by_color_result(*p),
{
    let (r, g, b) = match read_color_rgb(p.color.as_str()) {
        Ok(k) => k,
        Err(m) => {
            return Err(m);
        },
    };
    let t = match p.tolerance {
        Some(t) => t,
        None => 0,
    };
    let t = if t > 255 {
        255
    } else {
        t
    };
    let mut hex = String::new();
    push_char(&mut hex, '#');
    push_hex2(&mut hex, r);
    push_hex2(&mut hex, g);
    push_hex2(&mut hex, b);
    Ok(
        fill5(
            SELECT_BY_COLOR_TEMPLATE,
            "r",
            natural(r as u64),
            "g",
            natural(g as u64),
            "b",
            natural(b as u64),
            "tolerance",
            natural(t as u64),
            "color_hex",
            hex,
        ),
    )
}

} // verus!
