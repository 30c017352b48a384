use vstd::prelude::*;
use vstd::string::*;

use crate::decimal::{digit_char, decimal_text};
use crate::script_values::natural;
use crate::template::{fill, fill1, fill2};
use crate::text::push_char;

verus! {

#[derive(Debug)]
pub struct AddFrameParams {
    /// Path to the sprite file
    pub file_path: String,
    /// Number of frames to add (default: 1)
    pub count: Option<u32>,
    /// If true, add empty frames instead of copying the current frame
    pub empty: Option<bool>,
}

#[derive(Debug)]
pub struct RemoveFrameParams {
    /// Path to the sprite file
    pub file_path: String,
    /// Frame number to remove (1-based)
    pub frame_number: u32,
}

#[derive(Debug)]
pub struct SetFrameDurationParams {
    /// Path to the sprite file
    pub file_path: String,
    /// Frame number (1-based)
    pub frame_number: u32,
    /// Duration in milliseconds
    pub duration_ms: u32,
}

pub const LIST_FRAMES_SCRIPT: &'static str = r#"local spr = app.sprite
local frames = {}
for i, frame in ipairs(spr.frames) do
    local f = {}
    f.frameNumber = frame.frameNumber
    f.duration = frame.duration
    table.insert(frames, f)
end
print(json.encode({frames = frames, total = #frames}))"#;

pub const ADD_FRAME_TEMPLATE: &'static str = r#"local spr = app.sprite
for i = 1, {count} do
    spr:{frame_fn}(#spr.frames + 1)
end
spr:saveAs(spr.filename)
print(json.encode({{status = "added", count = {count}, totalFrames = #spr.frames}}))"#;

pub const REMOVE_FRAME_TEMPLATE: &'static str = r#"local spr = app.sprite
if {fnum} > #spr.frames then
    print(json.encode({{error = "Frame number out of range"}}))
    return
end
spr:deleteFrame({fnum})
spr:saveAs(spr.filename)
print(json.encode({{status = "deleted", frameNumber = {fnum}, totalFrames = #spr.frames}}))"#;

pub const SET_FRAME_DURATION_TEMPLATE: &'static str = r#"local spr = app.sprite
local frame = spr.frames[{frame}]
if not frame then
    print(json.encode({{error = "Frame not found"}}))
    return
end
frame.duration = {dur}
spr:saveAs(spr.filename)
print(json.encode({{status = "updated", frameNumber = {frame}, duration = {dur}}}))"#;


/// The script that lists every frame with its duration.
pub fn list_frames_script() -> (r: String)
    ensures
        r@ == LIST_FRAMES_SCRIPT@,
{
    String::from_str(LIST_FRAMES_SCRIPT)
}

pub open spec fn add_frame_text(p: AddFrameParams) -> Seq<char> {
    let count = match p.count {
        Some(c) => c,
        None => 1,
    };
    let frame_fn = if p.empty == Some(true) {
        "newEmptyFrame"@
    } else {
        "newFrame"@
    };
    fill(ADD_FRAME_TEMPLATE@, seq![("count"@, decimal_text(count as nat)), ("frame_fn"@, frame_fn)])
}

/// The script that adds frames (one by default), empty ones or copies.
pub fn add_frame_script(p: &AddFrameParams) -> (r: String)
    ensures
        r@ == add_frame_text(*p),
{
    let count = match p.count {
        Some(c) => c,
        None => 1,
    };
    let frame_fn = match p.empty {
        Some(true) => "newEmptyFrame",
        _ => "newFrame",
    };
    fill2(ADD_FRAME_TEMPLATE, "count", natural(count as u64), "frame_fn", String::from_str(frame_fn))
}

pub open spec fn remove_frame_text(p: RemoveFrameParams) -> Seq<char> {
    fill(REMOVE_FRAME_TEMPLATE@, seq![("fnum"@, decimal_text(p.frame_number as nat))])
}

/// The script that deletes a frame by number.
pub fn remove_frame_script(p: &RemoveFrameParams) -> (r: String)
    ensures
        r@ == remove_frame_text(*p),
{
    fill1(REMOVE_FRAME_TEMPLATE, "fnum", natural(p.frame_number as u64))
}

/// The fractional digits of `r` thousandths (below 1000, not 0), without
/// trailing zeros.
pub open spec fn thousandths_text(r: nat) -> Seq<char> {
    if r % 100 == 0 {
        seq![digit_char(r / 100)]
    } else if r % 10 == 0 {
        seq![digit_char(r / 100), digit_char((r / 10) % 10)]
    } else {
        seq![digit_char(r / 100), digit_char((r / 10) % 10), digit_char(r % 10)]
    }
}

/// A duration given in milliseconds, written in seconds as the shortest
/// decimal: `1500` as `1.5`, `1000` as `1`, `33` as `0.033`.
pub open spec fn seconds_text(ms: nat) -> Seq<char> {
    if ms % 1000 == 0 {
        decimal_text(ms / 1000)
    } else {
        decimal_text(ms / 1000) + seq!['.'] + thousandths_text(ms % 1000)
    }
}

fn digit_exec(d: u32) -> (c: char)
    requires
        d < 10,
    ensures
        c == digit_char(d as nat),
{
    ((48u32 + d) as u8) as char
}

fn seconds_exec(ms: u32) -> (r: String)
    ensures
        r@ == seconds_text(ms as nat),
{
    let mut s = natural((ms / 1000) as u64);
    let r = ms % 1000;
    if r != 0 {
        push_char(&mut s, '.');
        push_char(&mut s, digit_exec(r / 100));
        if r % 100 != 0 {
            push_char(&mut s, digit_exec((r / 10) % 10));
            if r % 10 != 0 {
                push_char(&mut s, digit_exec(r % 10));
            }
        }
    }
    s
}

pub open spec fn set_frame_duration_text(p: SetFrameDurationParams) -> Seq<char> {
    fill(
        SET_FRAME_DURATION_TEMPLATE@,
        seq![
            ("frame"@, decimal_text(p.frame_number as nat)),
            ("dur"@, seconds_text(p.duration_ms as nat)),
        ],
    )
}

/// The script that sets a frame's duration, given in milliseconds and
/// written in seconds.
pub fn set_frame_duration_script(p: &SetFrameDurationParams) -> (r: String)
    ensures
        r@ == set_frame_duration_text(*p),
{
    fill2(
        SET_FRAME_DURATION_TEMPLATE,
        "frame",
        natural(p.frame_number as u64),
        "dur",
        seconds_exec(p.duration_ms),
    )
}

} // verus!
