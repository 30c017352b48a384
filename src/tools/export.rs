use vstd::prelude::*;
use vstd::string::*;

use crate::decimal::decimal_text;
use crate::output::ScriptOutput;
use crate::runner::{run_error_text, RunError};
use crate::script_values::{natural, opt_text};
use crate::reply::reply_view;

verus! {

#[derive(Debug)]
pub struct ExportSpriteParams {
    /// Path to the input sprite file
    pub file_path: String,
    /// Output file path with desired format extension (e.g. "output.png", "output.gif")
    pub output_path: String,
    /// Scale factor (e.g. 2 for 2x size)
    pub scale: Option<u32>,
    /// Specific layer name to export (if omitted, exports all visible layers)
    pub layer: Option<String>,
    /// Specific animation tag to export (if omitted, exports all frames)
    pub tag: Option<String>,
}

#[derive(Debug)]
pub struct ExportSpritesheetParams {
    /// Path to the input sprite file
    pub file_path: String,
    /// Output image path for the spritesheet (e.g. "sheet.png")
    pub output_image: String,
    /// Output JSON data path (e.g. "sheet.json")
    pub output_data: Option<String>,
    /// Sheet type: "horizontal", "vertical", "rows", "columns", "packed" (default: "rows")
    pub sheet_type: Option<String>,
    /// Number of columns (for "rows" type)
    pub columns: Option<u32>,
    /// Whether to trim empty space from each frame
    pub trim: Option<bool>,
}

pub const EXPORT_FAILURE_PREFIX: &'static str = "Export failed: ";

pub open spec fn opt_pair(flag: Seq<char>, v: Option<Seq<char>>) -> Seq<Seq<char>> {
    match v {
        Some(x) => seq![flag, x],
        None => Seq::empty(),
    }
}

pub open spec fn opt_string(v: Option<String>) -> Option<Seq<char>> {
    match v {
        Some(s) => Some(s@),
        None => None,
    }
}

pub open spec fn opt_number(v: Option<u32>) -> Option<Seq<char>> {
    match v {
        Some(n) => Some(decimal_text(n as nat)),
        None => None,
    }
}

/// Command-line arguments that export a sprite to `output`, scaled and
/// limited to a layer or tag where these are given.
pub open spec fn export_sprite_args_of(p: ExportSpriteParams, output: Seq<char>) -> Seq<Seq<char>> {
    seq![p.file_path@] + opt_pair("--scale"@, opt_number(p.scale)) + opt_pair(
        "--layer"@,
        opt_string(p.layer),
    ) + opt_pair("--tag"@, opt_string(p.tag)) + seq!["--save-as"@, output]
}

fn push_pair(args: &mut Vec<String>, flag: &str, v: String)
    ensures
        final(args).deep_view() == old(args).deep_view() + seq![flag@, v@],
{
    args.push(String::from_str(flag));
    args.push(v);
    assert(args.deep_view() =~= old(args).deep_view() + seq![flag@, v@]);
}

fn push_one(args: &mut Vec<String>, v: String)
    ensures
        final(args).deep_view() == old(args).deep_view() + seq![v@],
{
    args.push(v);
    assert(args.deep_view() =~= old(args).deep_view() + seq![v@]);
}

pub fn export_sprite_args(p: &ExportSpriteParams, output: &str) -> (r: Vec<String>)
    ensures
        r.deep_view() == export_sprite_args_of(*p, output@),
{
    let mut args: Vec<String> = Vec::new();
    push_one(&mut args, p.file_path.clone());
    match p.scale {
        Some(s) => push_pair(&mut args, "--scale", natural(s as u64)),
        None => {},
    }
    match &p.layer {
        Some(l) => push_pair(&mut args, "--layer", l.clone()),
        None => {},
    }
    match &p.tag {
        Some(t) => push_pair(&mut args, "--tag", t.clone()),
        None => {},
    }
    push_pair(&mut args, "--save-as", output.to_owned());
    assert(args.deep_view() =~= export_sprite_args_of(*p, output@));
    args
}

/// A finished export answers `success`, a failed run its report, and a run
/// that could not happen the export failure with the error's message.
pub open spec fn export_reply_of(outcome: Result<ScriptOutput, RunError>, success: Seq<char>) -> Result<
    Seq<char>,
    Seq<char>,
> {
    match outcome {
        Ok(o) => if o.success {
            Ok(success)
        } else {
            Err(o.text())
        },
        Err(e) => Err(EXPORT_FAILURE_PREFIX@ + run_error_text(e)),
    }
}

fn export_reply(outcome: &Result<ScriptOutput, RunError>, success: String) -> (r: Result<String, String>)
    ensures
        reply_view(r) == export_reply_of(*outcome, success@),
{
    match outcome {
        Ok(o) => if o.success {
            Ok(success)
        } else {
            Err(o.result_text())
        },
        Err(e) => {
            let mut m = String::from_str(EXPORT_FAILURE_PREFIX);
            let t = e.message();
            m.append(t.as_str());
            Err(m)
        },
    }
}

pub open spec fn export_sprite_message(file_path: Seq<char>, output: Seq<char>) -> Seq<char> {
    "Exported "@ + file_path + " -> "@ + output
}

/// The answer to a sprite export from `file_path` to `output`.
pub fn export_sprite_reply(
    outcome: &Result<ScriptOutput, RunError>,
    file_path: &str,
    output: &str,
) -> (r: Result<String, String>)
    ensures
        reply_view(r) == export_reply_of(*outcome, export_sprite_message(file_path@, output@)),
{
    let mut m = String::from_str("Exported ");
    m.append(file_path);
    m.append(" -> ");
    m.append(output);
    assert(m@ =~= export_sprite_message(file_path@, output@));
    export_reply(outcome, m)
}

/// Command-line arguments that export a sprite sheet to `image`, with its
/// data file, sheet type and column count where given, trimmed where asked.
pub open spec fn export_spritesheet_args_of(
    p: ExportSpritesheetParams,
    image: Seq<char>,
    data: Option<Seq<char>>,
) -> Seq<Seq<char>> {
    seq![p.file_path@, "--sheet"@, image] + opt_pair("--data"@, data) + opt_pair(
        "--sheet-type"@,
        opt_string(p.sheet_type),
    ) + opt_pair("--sheet-columns"@, opt_number(p.columns)) + if p.trim == Some(true) {
        seq!["--trim"@]
    } else {
        Seq::empty()
    }
}

pub fn export_spritesheet_args(p: &ExportSpritesheetParams, image: &str, data: Option<&str>) -> (r: Vec<String>)
    ensures
        r.deep_view() == export_spritesheet_args_of(*p, image@, opt_text(data)),
{
    let mut args: Vec<String> = Vec::new();
    push_one(&mut args, p.file_path.clone());
    push_pair(&mut args, "--sheet", image.to_owned());
    match data {
        Some(d) => push_pair(&mut args, "--data", d.to_owned()),
        None => {},
    }
    match &p.sheet_type {
        Some(t) => push_pair(&mut args, "--sheet-type", t.clone()),
        None => {},
    }
    match p.columns {
        Some(c) => push_pair(&mut args, "--sheet-columns", natural(c as u64)),
        None => {},
    }
    match p.trim {
        Some(true) => push_one(&mut args, String::from_str("--trim")),
        _ => {},
    }
    assert(args.deep_view() =~= export_spritesheet_args_of(*p, image@, opt_text(data)));
    args
}

pub open spec fn spritesheet_message(image: Seq<char>, data: Option<Seq<char>>) -> Seq<char> {
    "Spritesheet exported: "@ + image + match data {
        Some(d) => ", data: "@ + d,
        None => Seq::empty(),
    }
}

/// The answer to a sprite sheet export to `image` and `data`.
pub fn export_spritesheet_reply(
    outcome: &Result<ScriptOutput, RunError>,
    image: &str,
    data: Option<&str>,
) -> (r: Result<String, String>)
    ensures
        reply_view(r) == export_reply_of(*outcome, spritesheet_message(image@, opt_text(data))),
{
    let mut m = String::from_str("Spritesheet exported: ");
    m.append(image);
    match data {
        Some(d) => {
            m.append(", data: ");
            m.append(d);
        },
        None => {},
    }
    assert(m@ =~= spritesheet_message(image@, opt_text(data)));
    export_reply(outcome, m)
}

} // verus!
