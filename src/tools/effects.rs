use vstd::prelude::*;
use vstd::string::*;

use crate::color::{lenient_rgb, UNREADABLE_COLOR_MESSAGE};
use crate::decimal::decimal_text;
use crate::script_text::{lua_literal, lua_string};
use crate::script_values::natural;
use crate::template::{fill, fill5, fill9};
use crate::tools::drawing::{
    color_error, frame_or_first, layer_select_code, layer_select_exec, read_color_rgb,
};
use crate::reply::reply_view;

verus! {

#[derive(Debug)]
pub struct ReplaceColorParams {
    /// Path to the sprite file
    pub file_path: String,
    /// Source color as hex string
    pub from_color: String,
    /// Target color as hex string
    pub to_color: String,
    /// Tolerance (0-255, default: 0)
    pub tolerance: Option<u32>,
}

#[derive(Debug)]
pub struct OutlineParams {
    /// Path to the sprite file
    pub file_path: String,
    /// Outline color as hex string (e.g. "#000000")
    pub color: String,
    /// Target layer name (if omitted, uses active layer)
    pub layer: Option<String>,
    /// Target frame number, 1-based (if omitted, uses frame 1)
    pub frame: Option<u32>,
}

pub const REPLACE_COLOR_TEMPLATE: &'static str = r#"local spr = app.sprite
app.command.ReplaceColor {{
    ui = false,
    from = Color({fr}, {fg}, {fb}),
    to = Color({tr}, {tg}, {tb}),
    tolerance = {tol}
}}
spr:saveAs(spr.filename)
print(json.encode({{status = "replaced", from = {from_s}, to = {to_s}}}))"#;

pub const OUTLINE_TEMPLATE: &'static str = r#"local spr = app.sprite
app.frame = spr.frames[{frame}]
{layer_select}
app.command.Outline {{
    ui = false,
    color = Color({r}, {g}, {b})
}}
spr:saveAs(spr.filename)
print(json.encode({{status = "outlined"}}))"#;


pub open spec fn replace_color_result(p: ReplaceColorParams) -> Result<Seq<char>, Seq<char>> {
    if lenient_rgb(p.from_color@) is None {
        Err(color_error("color"@, p.from_color@, UNREADABLE_COLOR_MESSAGE@))
    } else if lenient_rgb(p.to_color@) is None {
        Err(color_error("color"@, p.to_color@, UNREADABLE_COLOR_MESSAGE@))
    } else {
        let f = lenient_rgb(p.from_color@)->0;
        let t = lenient_rgb(p.to_color@)->0;
        let tol: u32 = match p.tolerance {
            Some(v) => v,
            None => 0,
        };
        Ok(
            fill(
                REPLACE_COLOR_TEMPLATE@,
                seq![
                    ("fr"@, decimal_text(f.0 as nat)),
                    ("fg"@, decimal_text(f.1 as nat)),
                    ("fb"@, decimal_text(f.2 as nat)),
                    ("tr"@, decimal_text(t.0 as nat)),
                    ("tg"@, decimal_text(t.1 as nat)),
                    ("tb"@, decimal_text(t.2 as nat)),
                    ("tol"@, decimal_text(tol as nat)),
                    ("from_s"@, lua_literal(p.from_color@)),
                    ("to_s"@, lua_literal(p.to_color@)),
                ],
            ),
        )
    }
}

/// The script that replaces one colour by another, within a tolerance (0 by
/// default). Colours are read leniently (`lenient_rgb`).
pub fn replace_color_script(p: &ReplaceColorParams) -> (r: Result<String, String>)
    ensures
        reply_view(r) == replace_color_result(*p),
{
    let (fr, fg, fb) = match read_color_rgb(p.from_color.as_str()) {
        Ok(k) => k,
        Err(m) => {
            return Err(m);
        },
    };
    let (tr, tg, tb) = match read_color_rgb(p.to_color.as_str()) {
        Ok(k) => k,
        Err(m) => {
            return Err(m);
        },
    };
    let tol = match p.tolerance {
        Some(v) => v,
        None => 0,
    };
    Ok(
        fill9(
            REPLACE_COLOR_TEMPLATE,
            "fr",
            natural(fr as u64),
            "fg",
            natural(fg as u64),
            "fb",
            natural(fb as u64),
            "tr",
            natural(tr as u64),
            "tg",
            natural(tg as u64),
            "tb",
            natural(tb as u64),
            "tol",
            natural(tol as u64),
            "from_s",
            lua_string(p.from_color.as_str()),
            "to_s",
            lua_string(p.to_color.as_str()),
        ),
    )
}

pub open spec fn outline_result(p: OutlineParams) -> Result<Seq<char>, Seq<char>> {
    if lenient_rgb(p.color@) is None {
        Err(color_error("color"@, p.color@, UNREADABLE_COLOR_MESSAGE@))
    } else {
        let c = lenient_rgb(p.color@)->0;
        Ok(
            fill(
                OUTLINE_TEMPLATE@,
                seq![
                    ("frame"@, decimal_text(frame_or_first(p.frame) as nat)),
                    ("layer_select"@, layer_select_code(p.layer, false)),
                    ("r"@, decimal_text(c.0 as nat)),
                    ("g"@, decimal_text(c.1 as nat)),
                    ("b"@, decimal_text(c.2 as nat)),
                ],
            ),
        )
    }
}

/// The script that draws an outline in a colour (read leniently) around the
/// content of the given layer where it exists and frame (by default the
/// first).
pub fn outline_script(p: &OutlineParams) -> (r: Result<String, String>)
    ensures
        reply_view(r) == outline_result(*p),
{
    let (r, g, b) = match read_color_rgb(p.color.as_str()) {
        Ok(k) => k,
        Err(m) => {
            return Err(m);
        },
    };
    let frame = match p.frame {
        Some(f) => f,
        None => 1,
    };
    Ok(
        fill5(
            OUTLINE_TEMPLATE,
            "frame",
            natural(frame as u64),
            "layer_select",
            layer_select_exec(&p.layer, false),
            "r",
            natural(r as u64),
            "g",
            natural(g as u64),
            "b",
            natural(b as u64),
        ),
    )
}

} // verus!
