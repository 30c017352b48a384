use vstd::prelude::*;
use vstd::string::*;

use crate::decimal::decimal_text;
use crate::script_text::{lua_literal, lua_path, lua_string, normalized};
use crate::reply::reply_view;
use crate::script_values::{int_text, integer, lower_of, lowercase, natural, opt_text};
use crate::template::{fill, fill1, fill2, fill3, fill4, fill5, str_eq};
use crate::text::{trim, trimmed};
use crate::tools::layer::{save_code, save_code_exec};

verus! {

#[derive(Debug)]
pub struct CreateSpriteParams {
    /// Width in pixels
    pub width: u32,
    /// Height in pixels
    pub height: u32,
    /// Output file path (e.g. "my_sprite.aseprite", "art/player.png")
    pub output_path: String,
    /// Color mode: "rgb", "grayscale", or "indexed" (default: "rgb")
    pub color_mode: Option<String>,
}

#[derive(Debug)]
pub struct SpriteFileParams {
    /// Path to the sprite file
    pub file_path: String,
}

#[derive(Debug)]
pub struct ResizeSpriteParams {
    /// Path to the sprite file
    pub file_path: String,
    /// New width in pixels
    pub width: u32,
    /// New height in pixels
    pub height: u32,
    /// Save to a different path (if omitted, overwrites the input file)
    pub output_path: Option<String>,
}

#[derive(Debug)]
pub struct CropSpriteParams {
    /// Path to the sprite file
    pub file_path: String,
    /// X coordinate of the crop region
    pub x: i32,
    /// Y coordinate of the crop region
    pub y: i32,
    /// Width of the crop region
    pub width: u32,
    /// Height of the crop region
    pub height: u32,
    /// Save to a different path (if omitted, overwrites the input file)
    pub output_path: Option<String>,
}

#[derive(Debug)]
pub struct FlipSpriteParams {
    /// Path to the sprite file
    pub file_path: String,
    /// Flip direction: "horizontal" or "vertical"
    pub direction: String,
    /// Save to a different path (if omitted, overwrites the input file)
    pub output_path: Option<String>,
}

#[derive(Debug)]
pub struct RotateSpriteParams {
    /// Path to the sprite file
    pub file_path: String,
    /// Rotation angle in degrees (90, 180, or 270)
    pub angle: u32,
    /// Save to a different path (if omitted, overwrites the input file)
    pub output_path: Option<String>,
}

#[derive(Debug)]
pub struct CanvasSizeParams {
    /// Path to the sprite file
    pub file_path: String,
    /// Left padding (positive=expand, negative=shrink)
    pub left: i32,
    /// Top padding
    pub top: i32,
    /// Right padding
    pub right: i32,
    /// Bottom padding
    pub bottom: i32,
}

#[derive(Debug)]
pub struct DuplicateSpriteParams {
    /// Path to the source sprite file
    pub file_path: String,
    /// Path to save the duplicate (e.g. "player_copy.aseprite")
    pub output_path: String,
}

#[derive(Debug)]
pub struct AutoCropParams {
    /// Path to the sprite file
    pub file_path: String,
    /// Save to a different path (if omitted, overwrites the input file)
    pub output_path: Option<String>,
}

#[derive(Debug)]
pub struct ChangeColorModeParams {
    /// Path to the sprite file
    pub file_path: String,
    /// Target color mode: "rgb", "grayscale", or "indexed"
    pub color_mode: String,
    /// Save to a different path (if omitted, overwrites the input file)
    pub output_path: Option<String>,
}

#[derive(Debug)]
pub struct ReverseFramesParams {
    /// Path to the sprite file
    pub file_path: String,
    /// First frame number (1-based) of the range to reverse. Defaults to 1.
    pub from_frame: Option<u32>,
    /// Last frame number (1-based) of the range to reverse. Defaults to last frame.
    pub to_frame: Option<u32>,
}

pub const CREATE_SPRITE_TEMPLATE: &'static str = r#"local spr = Sprite({w}, {h}, {cm})
spr:saveAs({out})
local result = {{}}
result.width = spr.width
result.height = spr.height
result.filename = spr.filename
result.colorMode = tostring(spr.colorMode)
print(json.encode(result))"#;

pub const SPRITE_INFO_SCRIPT: &'static str = r#"local spr = app.sprite
if not spr then
    print(json.encode({error = "No sprite loaded"}))
    return
end

local layers = {}
local function collect_layers(lyrs, depth)
    for i, layer in ipairs(lyrs) do
        local l = {}
        l.name = layer.name
        l.isVisible = layer.isVisible
        l.isEditable = layer.isEditable
        l.isGroup = layer.isGroup
        l.stackIndex = layer.stackIndex
        l.depth = depth
        if layer.opacity then l.opacity = layer.opacity end
        if layer.blendMode then l.blendMode = tostring(layer.blendMode) end
        l.isTilemap = layer.isTilemap or false
        l.isBackground = layer.isBackground or false
        l.isReference = layer.isReference or false
        table.insert(layers, l)
        if layer.isGroup and layer.layers then
            collect_layers(layer.layers, depth + 1)
        end
    end
end
collect_layers(spr.layers, 0)

local frames = {}
for i, frame in ipairs(spr.frames) do
    local f = {}
    f.frameNumber = frame.frameNumber
    f.duration = frame.duration
    table.insert(frames, f)
end

local tags = {}
for i, tag in ipairs(spr.tags) do
    local t = {}
    t.name = tag.name
    t.fromFrame = tag.fromFrame.frameNumber
    t.toFrame = tag.toFrame.frameNumber
    t.frames = tag.frames
    t.aniDir = tostring(tag.aniDir)
    t.repeats = tag.repeats
    table.insert(tags, t)
end

local slices = {}
for i, slice in ipairs(spr.slices) do
    local s = {}
    s.name = slice.name
    if slice.bounds then
        s.bounds = {
            x = slice.bounds.x,
            y = slice.bounds.y,
            width = slice.bounds.width,
            height = slice.bounds.height
        }
    end
    table.insert(slices, s)
end

local pal = spr.palettes[1]
local paletteSize = pal and #pal or 0

local result = {}
result.filename = spr.filename
result.width = spr.width
result.height = spr.height
result.colorMode = tostring(spr.colorMode)
result.numFrames = #spr.frames
result.numLayers = #layers
result.numCels = #spr.cels
result.numTags = #spr.tags
result.numSlices = #spr.slices
result.paletteSize = paletteSize
result.isModified = spr.isModified
result.gridBounds = {
    x = spr.gridBounds.x,
    y = spr.gridBounds.y,
    width = spr.gridBounds.width,
    height = spr.gridBounds.height
}
result.pixelRatio = {
    width = spr.pixelRatio.width,
    height = spr.pixelRatio.height
}
result.layers = layers
result.frames = frames
result.tags = tags
result.slices = slices
print(json.encode(result))"#;

pub const RESIZE_SPRITE_TEMPLATE: &'static str = r#"local spr = app.sprite
spr:resize({w}, {h})
spr:saveCopyAs({out})
local result = {{}}
result.width = spr.width
result.height = spr.height
result.filename = {out}
result.status = "resized"
print(json.encode(result))"#;

pub const CROP_SPRITE_TEMPLATE: &'static str = r#"local spr = app.sprite
spr:crop({x}, {y}, {w}, {h})
spr:saveCopyAs({out})
local result = {{}}
result.width = spr.width
result.height = spr.height
result.status = "cropped"
print(json.encode(result))"#;

pub const FLIP_SPRITE_TEMPLATE: &'static str = r#"local spr = app.sprite
app.command.Flip {{
    ui = false,
    target = "canvas",
    orientation = {orient}
}}
spr:saveCopyAs({out})
print(json.encode({{status = "flipped", direction = {dir}}}))"#;

pub const ROTATE_SPRITE_TEMPLATE: &'static str = r#"local spr = app.sprite
app.command.Rotate {{
    ui = false,
    angle = {angle},
    rotsprite = false
}}
spr:saveCopyAs({out})
print(json.encode({{status = "rotated", angle = {angle}, width = spr.width, height = spr.height}}))"#;

pub const CANVAS_SIZE_TEMPLATE: &'static str = r#"local spr = app.sprite
local newW = spr.width + {left} + {right}
local newH = spr.height + {top} + {bottom}
app.command.CanvasSize {{
    ui = false,
    left = {left},
    top = {top},
    right = {right},
    bottom = {bottom}
}}
spr:saveAs(spr.filename)
local result = {{}}
result.width = spr.width
result.height = spr.height
result.status = "canvas_resized"
print(json.encode(result))"#;

pub const DUPLICATE_SPRITE_TEMPLATE: &'static str = r#"local spr = app.sprite
local copy = Sprite(spr)
copy:saveAs({out})
local result = {{}}
result.width = copy.width
result.height = copy.height
result.filename = copy.filename
result.numLayers = #copy.layers
result.numFrames = #copy.frames
result.status = "duplicated"
print(json.encode(result))"#;

pub const AUTO_CROP_TEMPLATE: &'static str = r#"local spr = app.sprite
local oldW, oldH = spr.width, spr.height
app.command.AutocropSprite()
{save}
local result = {{}}
result.oldWidth = oldW
result.oldHeight = oldH
result.width = spr.width
result.height = spr.height
result.status = "auto_cropped"
print(json.encode(result))"#;

pub const CHANGE_COLOR_MODE_TEMPLATE: &'static str = r#"local spr = app.sprite
app.command.ChangePixelFormat {{
    ui = false,
    format = "{format}"
}}
{save}
local result = {{}}
result.colorMode = tostring(spr.colorMode)
result.width = spr.width
result.height = spr.height
result.status = "color_mode_changed"
print(json.encode(result))"#;

pub const REVERSE_FRAMES_TEMPLATE: &'static str = r#"local spr = app.sprite
local fromFrame = {from}
{to_code}
-- Select the frame range
app.frame = spr.frames[fromFrame]
local range = app.range
range:clear()
for i = fromFrame, toFrame do
    range:contains(spr.frames[i])
end
app.command.ReverseFrames()
spr:saveAs(spr.filename)
local result = {{}}
result.fromFrame = fromFrame
result.toFrame = toFrame
result.numFrames = #spr.frames
result.status = "reversed"
print(json.encode(result))"#;


pub const EMPTY_SIZE_MESSAGE: &'static str = "Width and height must be greater than 0";

pub const EMPTY_OUTPUT_MESSAGE: &'static str = "Output path cannot be empty";

pub const DIRECTION_MESSAGE: &'static str = "direction must be 'horizontal' or 'vertical'";

pub const ANGLE_MESSAGE: &'static str = "angle must be 90, 180, or 270";

pub const COLOR_MODE_MESSAGE: &'static str = "color_mode must be 'rgb', 'grayscale', or 'indexed'";

pub open spec fn color_mode_constant(mode: Option<String>) -> Seq<char> {
    match mode {
        Some(m) => if m@ == "grayscale"@ {
            "ColorMode.GRAYSCALE"@
        } else if m@ == "indexed"@ {
            "ColorMode.INDEXED"@
        } else {
            "ColorMode.RGB"@
        },
        None => "ColorMode.RGB"@,
    }
}

pub open spec fn create_sprite_result(p: CreateSpriteParams, output: Seq<char>) -> Result<Seq<char>, Seq<char>> {
    if p.width == 0 || p.height == 0 {
        Err(EMPTY_SIZE_MESSAGE@)
    } else if trimmed(p.output_path@).len() == 0 {
        Err(EMPTY_OUTPUT_MESSAGE@)
    } else {
        Ok(
            fill(
                CREATE_SPRITE_TEMPLATE@,
                seq![
                    ("w"@, decimal_text(p.width as nat)),
                    ("h"@, decimal_text(p.height as nat)),
                    ("cm"@, color_mode_constant(p.color_mode)),
                    ("out"@, lua_literal(normalized(output))),
                ],
            ),
        )
    }
}

/// The script that creates a sprite of the given size and colour mode and
/// saves it at `output` (the output path resolved against the output
/// directory). The size must not be zero and the output path not blank.
pub fn create_sprite_script(p: &CreateSpriteParams, output: &str) -> (r: Result<String, String>)
    ensures
        reply_view(r) == create_sprite_result(*p, output@),
{
    if p.width == 0 || p.height == 0 {
        return Err(String::from_str(EMPTY_SIZE_MESSAGE));
    }
    if trim(p.output_path.as_str()).is_empty() {
        return Err(String::from_str(EMPTY_OUTPUT_MESSAGE));
    }
    let mode = match &p.color_mode {
        Some(m) => if str_eq(m.as_str(), "grayscale") {
            "ColorMode.GRAYSCALE"
        } else if str_eq(m.as_str(), "indexed") {
            "ColorMode.INDEXED"
        } else {
            "ColorMode.RGB"
        },
        None => "ColorMode.RGB",
    };
    Ok(
        fill4(
            CREATE_SPRITE_TEMPLATE,
            "w",
            natural(p.width as u64),
            "h",
            natural(p.height as u64),
            "cm",
            String::from_str(mode),
            "out",
            lua_path(output),
        ),
    )
}

/// The script that reports a sprite's size, colour mode, layers, frames,
/// tags, slices and palette size.
pub fn sprite_info_script() -> (r: String)
    ensures
        r@ == SPRITE_INFO_SCRIPT@,
{
    String::from_str(SPRITE_INFO_SCRIPT)
}

pub open spec fn resize_sprite_text(p: ResizeSpriteParams, output: Seq<char>) -> Seq<char> {
    fill(
        RESIZE_SPRITE_TEMPLATE@,
        seq![
            ("w"@, decimal_text(p.width as nat)),
            ("h"@, decimal_text(p.height as nat)),
            ("out"@, lua_literal(normalized(output))),
        ],
    )
}

/// The script that resizes a sprite and saves a copy at `output`.
pub fn resize_sprite_script(p: &ResizeSpriteParams, output: &str) -> (r: String)
    ensures
        r@ == resize_sprite_text(*p, output@),
{
    fill3(
        RESIZE_SPRITE_TEMPLATE,
        "w",
        natural(p.width as u64),
        "h",
        natural(p.height as u64),
        "out",
        lua_path(output),
    )
}

pub open spec fn crop_sprite_text(p: CropSpriteParams, output: Seq<char>) -> Seq<char> {
    fill(
        CROP_SPRITE_TEMPLATE@,
        seq![
            ("x"@, int_text(p.x as int)),
            ("y"@, int_text(p.y as int)),
            ("w"@, decimal_text(p.width as nat)),
            ("h"@, decimal_text(p.height as nat)),
            ("out"@, lua_literal(normalized(output))),
        ],
    )
}

/// The script that crops a sprite to a rectangle and saves a copy at `output`.
pub fn crop_sprite_script(p: &CropSpriteParams, output: &str) -> (r: String)
    ensures
        r@ == crop_sprite_text(*p, output@),
{
    fill5(
        CROP_SPRITE_TEMPLATE,
        "x",
        integer(p.x as i64),
        "y",
        integer(p.y as i64),
        "w",
        natural(p.width as u64),
        "h",
        natural(p.height as u64),
        "out",
        lua_path(output),
    )
}

/// Whether a direction already in lower case is one a sprite can flip in.
pub fn is_flip_direction(lower: &str) -> (r: bool)
    ensures
        r == (lower@ == "horizontal"@ || lower@ == "vertical"@),
{
    str_eq(lower, "horizontal") || str_eq(lower, "vertical")
}

pub open spec fn flip_sprite_result(p: FlipSpriteParams, output: Seq<char>) -> Result<Seq<char>, Seq<char>> {
    let lower = lower_of(p.direction@);
    if lower != "horizontal"@ && lower != "vertical"@ {
        Err(DIRECTION_MESSAGE@)
    } else {
        Ok(
            fill(
                FLIP_SPRITE_TEMPLATE@,
                seq![
                    ("orient"@, lua_literal(lower)),
                    ("out"@, lua_literal(normalized(output))),
                    ("dir"@, lua_literal(p.direction@)),
                ],
            ),
        )
    }
}

/// The script that flips a sprite horizontally or vertically (the direction
/// in any case) and saves a copy at `output`.
pub fn flip_sprite_script(p: &FlipSpriteParams, output: &str) -> (r: Result<String, String>)
    ensures
        reply_view(r) == flip_sprite_result(*p, output@),
{
    let lower = lowercase(p.direction.as_str());
    if !is_flip_direction(lower.as_str()) {
        return Err(String::from_str(DIRECTION_MESSAGE));
    }
    Ok(
        fill3(
            FLIP_SPRITE_TEMPLATE,
            "orient",
            lua_string(lower.as_str()),
            "out",
            lua_path(output),
            "dir",
            lua_string(p.direction.as_str()),
        ),
    )
}

pub open spec fn rotate_sprite_result(p: RotateSpriteParams, output: Seq<char>) -> Result<Seq<char>, Seq<char>> {
    if p.angle != 90 && p.angle != 180 && p.angle != 270 {
        Err(ANGLE_MESSAGE@)
    } else {
        Ok(
            fill(
                ROTATE_SPRITE_TEMPLATE@,
                seq![("angle"@, decimal_text(p.angle as nat)), ("out"@, lua_literal(normalized(output)))],
            ),
        )
    }
}

/// The script that rotates a sprite by 90, 180 or 270 degrees and saves a
/// copy at `output`.
pub fn rotate_sprite_script(p: &RotateSpriteParams, output: &str) -> (r: Result<String, String>)
    ensures
        reply_view(r) == rotate_sprite_result(*p, output@),
{
    if p.angle != 90 && p.angle != 180 && p.angle != 270 {
        return Err(String::from_str(ANGLE_MESSAGE));
    }
    Ok(fill2(ROTATE_SPRITE_TEMPLATE, "angle", natural(p.angle as u64), "out", lua_path(output)))
}

pub open spec fn canvas_size_text(p: CanvasSizeParams) -> Seq<char> {
    fill(
        CANVAS_SIZE_TEMPLATE@,
        seq![
            ("left"@, int_text(p.left as int)),
            ("top"@, int_text(p.top as int)),
            ("right"@, int_text(p.right as int)),
            ("bottom"@, int_text(p.bottom as int)),
        ],
    )
}

/// The script that grows (or, with negative margins, shrinks) the canvas.
pub fn canvas_size_script(p: &CanvasSizeParams) -> (r: String)
    ensures
        r@ == canvas_size_text(*p),
{
    fill4(
        CANVAS_SIZE_TEMPLATE,
        "left",
        integer(p.left as i64),
        "top",
        integer(p.top as i64),
        "right",
        integer(p.right as i64),
        "bottom",
        integer(p.bottom as i64),
    )
}

pub open spec fn duplicate_sprite_text(output: Seq<char>) -> Seq<char> {
    fill(DUPLICATE_SPRITE_TEMPLATE@, seq![("out"@, lua_literal(normalized(output)))])
}

/// The script that saves a copy of a sprite at `output`.
pub fn duplicate_sprite_script(output: &str) -> (r: String)
    ensures
        r@ == duplicate_sprite_text(output@),
{
    fill1(DUPLICATE_SPRITE_TEMPLATE, "out", lua_path(output))
}

pub open spec fn auto_crop_text(output: Option<Seq<char>>) -> Seq<char> {
    fill(AUTO_CROP_TEMPLATE@, seq![("save"@, save_code(output))])
}

/// The script that trims a sprite to its content and saves it, over itself
/// or as a copy at `output`.
pub fn auto_crop_script(output: Option<&str>) -> (r: String)
    ensures
        r@ == auto_crop_text(opt_text(output)),
{
    fill1(AUTO_CROP_TEMPLATE, "save", save_code_exec(output))
}

/// The scripting name of a colour mode given in lower case.
pub open spec fn color_format(lower: Seq<char>) -> Option<Seq<char>> {
    if lower == "rgb"@ {
        Some("rgb"@)
    } else if lower == "grayscale"@ {
        Some("gray"@)
    } else if lower == "indexed"@ {
        Some("indexed"@)
    } else {
        None
    }
}

/// The scripting name of a colour mode already in lower case, if it is one.
pub fn color_format_for(lower: &str) -> (r: Option<String>)
    ensures
        match r {
            Some(f) => color_format(lower@) == Some(f@),
            None => color_format(lower@) is None,
        },
{
    if str_eq(lower, "rgb") {
        Some(String::from_str("rgb"))
    } else if str_eq(lower, "grayscale") {
        Some(String::from_str("gray"))
    } else if str_eq(lower, "indexed") {
        Some(String::from_str("indexed"))
    } else {
        None
    }
}

pub open spec fn change_color_mode_result(p: ChangeColorModeParams, output: Option<Seq<char>>) -> Result<Seq<char>, Seq<char>> {
    match color_format(lower_of(p.color_mode@)) {
        Some(f) => Ok(
            fill(CHANGE_COLOR_MODE_TEMPLATE@, seq![("format"@, f), ("save"@, save_code(output))]),
        ),
        None => Err(COLOR_MODE_MESSAGE@),
    }
}

/// The script that converts a sprite to RGB, grayscale or indexed colour and
/// saves it, over itself or as a copy at `output`.
pub fn change_color_mode_script(p: &ChangeColorModeParams, output: Option<&str>) -> (r: Result<String, String>)
    ensures
        reply_view(r) == change_color_mode_result(*p, opt_text(output)),
{
    let lower = lowercase(p.color_mode.as_str());
    let format = match color_format_for(lower.as_str()) {
        Some(f) => f,
        None => {
            return Err(String::from_str(COLOR_MODE_MESSAGE));
        },
    };
    Ok(
        fill2(
            CHANGE_COLOR_MODE_TEMPLATE,
            "format",
            format,
            "save",
            save_code_exec(output),
        ),
    )
}

pub open spec fn reverse_frames_text(p: ReverseFramesParams) -> Seq<char> {
    let from = match p.from_frame {
        Some(f) => f,
        None => 1,
    };
    let to_code = match p.to_frame {
        Some(t) => "local toFrame = "@ + decimal_text(t as nat),
        None => "local toFrame = #spr.frames"@,
    };
    fill(REVERSE_FRAMES_TEMPLATE@, seq![("from"@, decimal_text(from as nat)), ("to_code"@, to_code)])
}

/// The script that reverses the order of a range of frames (by default from
/// the first to the last).
pub fn reverse_frames_script(p: &ReverseFramesParams) -> (r: String)
    ensures
        r@ == reverse_frames_text(*p),
{
    let from = match p.from_frame {
        Some(f) => f,
        None => 1,
    };
    let to_code = match p.to_frame {
        Some(t) => {
            let mut s = String::from_str("local toFrame = ");
            let d = natural(t as u64);
            s.append(d.as_str());
            s
        },
        None => String::from_str("local toFrame = #spr.frames"),
    };
    fill2(REVERSE_FRAMES_TEMPLATE, "from", natural(from as u64), "to_code", to_code)
}

} // verus!
