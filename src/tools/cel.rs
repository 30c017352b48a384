use vstd::prelude::*;
use vstd::string::*;

use crate::decimal::decimal_text;
use crate::lua_helpers::LUA_FIND_LAYER;
use crate::script_text::{lua_literal, lua_string};
use crate::script_values::{int_text, integer, natural};
use crate::template::{fill, fill2, fill3, fill4, fill5};
use crate::tools::layer::opacity_clamp;

verus! {

#[derive(Debug)]
pub struct ListCelsParams {
    /// Path to the sprite file
    pub file_path: String,
    /// Filter by layer name (optional)
    pub layer: Option<String>,
    /// Filter by frame number, 1-based (optional)
    pub frame: Option<u32>,
}

#[derive(Debug)]
pub struct MoveCelParams {
    /// Path to the sprite file
    pub file_path: String,
    /// Layer name of the cel to move
    pub layer: String,
    /// Frame number (1-based) of the cel to move
    pub frame: u32,
    /// New X position on the canvas
    pub x: i32,
    /// New Y position on the canvas
    pub y: i32,
}

#[derive(Debug)]
pub struct SetCelOpacityParams {
    /// Path to the sprite file
    pub file_path: String,
    /// Layer name of the cel
    pub layer: String,
    /// Frame number (1-based) of the cel
    pub frame: u32,
    /// Opacity value (0-255)
    pub opacity: u32,
}

#[derive(Debug)]
pub struct ClearCelParams {
    /// Path to the sprite file
    pub file_path: String,
    /// Layer name of the cel to clear
    pub layer: String,
    /// Frame number (1-based) of the cel to clear
    pub frame: u32,
}

#[derive(Debug)]
pub struct NewCelParams {
    /// Path to the sprite file
    pub file_path: String,
    /// Layer name where the new cel should be created
    pub layer: String,
    /// Frame number (1-based) for the new cel
    pub frame: u32,
}

pub const LAYER_FILTER_TEMPLATE: &'static str = r#"
{find_layer}
local target_layer = find_layer(spr.layers, {name})
if not target_layer then
    print(json.encode({{error = "Layer not found: " .. {name}}}))
    return
end"#;

pub const LIST_CELS_TEMPLATE: &'static str = r#"local spr = app.sprite
{filter_code}
{frame_filter}
local cels = {{}}
for i, cel in ipairs(spr.cels) do
    local include = true
    if target_layer and cel.layer ~= target_layer then include = false end
    if target_frame and cel.frameNumber ~= target_frame then include = false end
    if include then
        local c = {{}}
        c.layer = cel.layer.name
        c.frame = cel.frameNumber
        c.x = cel.position.x
        c.y = cel.position.y
        c.width = cel.image.width
        c.height = cel.image.height
        c.opacity = cel.opacity
        c.zIndex = cel.zIndex
        if cel.data and cel.data ~= "" then c.data = cel.data end
        table.insert(cels, c)
    end
end
print(json.encode({{cels = cels, total = #cels}}))"#;

pub const MOVE_CEL_TEMPLATE: &'static str = r#"local spr = app.sprite
{find_layer}
local layer = find_layer(spr.layers, {name})
if not layer then
    print(json.encode({{error = "Layer not found: " .. {name}}}))
    return
end
local cel = layer:cel({frame})
if not cel then
    print(json.encode({{error = "No cel at frame " .. {frame} .. " on layer " .. {name}}}))
    return
end
cel.position = Point({x}, {y})
spr:saveAs(spr.filename)
local result = {{}}
result.layer = cel.layer.name
result.frame = cel.frameNumber
result.x = cel.position.x
result.y = cel.position.y
result.status = "moved"
print(json.encode(result))"#;

pub const SET_CEL_OPACITY_TEMPLATE: &'static str = r#"local spr = app.sprite
{find_layer}
local layer = find_layer(spr.layers, {name})
if not layer then
    print(json.encode({{error = "Layer not found: " .. {name}}}))
    return
end
local cel = layer:cel({frame})
if not cel then
    print(json.encode({{error = "No cel at frame " .. {frame} .. " on layer " .. {name}}}))
    return
end
cel.opacity = {opacity}
spr:saveAs(spr.filename)
local result = {{}}
result.layer = cel.layer.name
result.frame = cel.frameNumber
result.opacity = cel.opacity
result.status = "updated"
print(json.encode(result))"#;

pub const CLEAR_CEL_TEMPLATE: &'static str = r#"local spr = app.sprite
{find_layer}
local layer = find_layer(spr.layers, {name})
if not layer then
    print(json.encode({{error = "Layer not found: " .. {name}}}))
    return
end
local cel = layer:cel({frame})
if cel then
    spr:deleteCel(cel)
end
spr:saveAs(spr.filename)
print(json.encode({{status = "cleared", layer = {name}, frame = {frame}}}))"#;

pub const NEW_CEL_TEMPLATE: &'static str = r#"local spr = app.sprite
{find_layer}
local layer = find_layer(spr.layers, {name})
if not layer then
    print(json.encode({{error = "Layer not found: " .. {name}}}))
    return
end
local frame = spr.frames[{frame}]
if not frame then
    print(json.encode({{error = "Frame {frame} does not exist"}}))
    return
end
local cel = spr:newCel(layer, frame)
spr:saveAs(spr.filename)
local result = {{}}
result.layer = cel.layer.name
result.frame = cel.frameNumber
result.x = cel.position.x
result.y = cel.position.y
result.width = cel.image.width
result.height = cel.image.height
result.opacity = cel.opacity
result.status = "created"
print(json.encode(result))"#;


pub open spec fn list_cels_text(p: ListCelsParams) -> Seq<char> {
    let filter_code = match p.layer {
        Some(l) => fill(
            LAYER_FILTER_TEMPLATE@,
            seq![("find_layer"@, LUA_FIND_LAYER@), ("name"@, lua_literal(l@))],
        ),
        None => Seq::empty(),
    };
    let frame_filter = match p.frame {
        Some(f) => "local target_frame = "@ + decimal_text(f as nat),
        None => "local target_frame = nil"@,
    };
    fill(
        LIST_CELS_TEMPLATE@,
        seq![("filter_code"@, filter_code), ("frame_filter"@, frame_filter)],
    )
}

/// The script that lists cels, only those of the given layer (an error where
/// it does not exist) and frame where these are given.
pub fn list_cels_script(p: &ListCelsParams) -> (r: String)
    ensures
        r@ == list_cels_text(*p),
{
    let filter_code = match &p.layer {
        Some(l) => fill2(
            LAYER_FILTER_TEMPLATE,
            "find_layer",
            String::from_str(LUA_FIND_LAYER),
            "name",
            lua_string(l.as_str()),
        ),
        None => String::new(),
    };
    let frame_filter = match p.frame {
        Some(f) => {
            let mut s = String::from_str("local target_frame = ");
            let d = natural(f as u64);
            s.append(d.as_str());
            s
        },
        None => String::from_str("local target_frame = nil"),
    };
    fill2(LIST_CELS_TEMPLATE, "filter_code", filter_code, "frame_filter", frame_filter)
}

pub open spec fn move_cel_text(p: MoveCelParams) -> Seq<char> {
    fill(
        MOVE_CEL_TEMPLATE@,
        seq![
            ("find_layer"@, LUA_FIND_LAYER@),
            ("name"@, lua_literal(p.layer@)),
            ("frame"@, decimal_text(p.frame as nat)),
            ("x"@, int_text(p.x as int)),
            ("y"@, int_text(p.y as int)),
        ],
    )
}

/// The script that moves the cel at a layer and frame to a new position.
pub fn move_cel_script(p: &MoveCelParams) -> (r: String)
    ensures
        r@ == move_cel_text(*p),
{
    fill5(
        MOVE_CEL_TEMPLATE,
        "find_layer",
        String::from_str(LUA_FIND_LAYER),
        "name",
        lua_string(p.layer.as_str()),
        "frame",
        natural(p.frame as u64),
        "x",
        integer(p.x as i64),
        "y",
        integer(p.y as i64),
    )
}

pub open spec fn set_cel_opacity_text(p: SetCelOpacityParams) -> Seq<char> {
    fill(
        SET_CEL_OPACITY_TEMPLATE@,
        seq![
            ("find_layer"@, LUA_FIND_LAYER@),
            ("name"@, lua_literal(p.layer@)),
            ("frame"@, decimal_text(p.frame as nat)),
            ("opacity"@, decimal_text(opacity_clamp(p.opacity) as nat)),
        ],
    )
}

/// The script that sets a cel's opacity, at most 255.
pub fn set_cel_opacity_script(p: &SetCelOpacityParams) -> (r: String)
    ensures
        r@ == set_cel_opacity_text(*p),
{
    let opacity = if p.opacity > 255 {
        255
    } else {
        p.opacity
    };
    fill4(
        SET_CEL_OPACITY_TEMPLATE,
        "find_layer",
        String::from_str(LUA_FIND_LAYER),
        "name",
        lua_string(p.layer.as_str()),
        "frame",
        natural(p.frame as u64),
        "opacity",
        natural(opacity as u64),
    )
}

pub open spec fn layer_frame_text(t: Seq<char>, layer: Seq<char>, frame: u32) -> Seq<char> {
    fill(
        t,
        seq![
            ("find_layer"@, LUA_FIND_LAYER@),
            ("name"@, lua_literal(layer)),
            ("frame"@, decimal_text(frame as nat)),
        ],
    )
}

fn layer_frame_exec(t: &str, layer: &str, frame: u32) -> (r: String)
    ensures
        r@ == layer_frame_text(t@, layer@, frame),
{
    fill3(
        t,
        "find_layer",
        String::from_str(LUA_FIND_LAYER),
        "name",
        lua_string(layer),
        "frame",
        natural(frame as u64),
    )
}

/// The script that deletes the cel at a layer and frame, if there is one.
pub fn clear_cel_script(p: &ClearCelParams) -> (r: String)
    ensures
        r@ == layer_frame_text(CLEAR_CEL_TEMPLATE@, p.layer@, p.frame),
{
    layer_frame_exec(CLEAR_CEL_TEMPLATE, p.layer.as_str(), p.frame)
}

/// The script that creates an empty cel at a layer and frame.
pub fn new_cel_script(p: &NewCelParams) -> (r: String)
    ensures
        r@ == layer_frame_text(NEW_CEL_TEMPLATE@, p.layer@, p.frame),
{
    layer_frame_exec(NEW_CEL_TEMPLATE, p.layer.as_str(), p.frame)
}

} // verus!
