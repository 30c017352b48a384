use vstd::prelude::*;
use vstd::string::*;

use crate::color::{
    color_rgba, hex_color_problem, is_hex_color, lenient_rgb, lenient_rgba, parse_hex_color_with_alpha,
    read_hex_rgb, read_hex_rgba, validate_hex_color, UNREADABLE_COLOR_MESSAGE,
};
use crate::decimal::decimal_text;
use crate::lua_helpers::{lua_select_layer, select_layer_text, LUA_FIND_LAYER};
use crate::script_text::{lua_literal, lua_string};
use crate::script_values::{int_text, natural, push_int, push_natural};
use crate::template::{fill, fill1, fill3, fill4, fill5, fill10};
use crate::text::push_char;
use crate::tools::layer::opacity_clamp;
use crate::reply::reply_view;

verus! {

#[derive(Debug)]
pub struct DrawPixelsParams {
    /// Path to the sprite file
    pub file_path: String,
    /// Array of pixel data: [{"x": 0, "y": 0, "color": "#ff0000"}, ...]
    pub pixels: Vec<PixelData>,
    /// Target layer name (if omitted, uses active layer)
    pub layer: Option<String>,
    /// Target frame number, 1-based (if omitted, uses frame 1)
    pub frame: Option<u32>,
}

#[derive(Debug)]
pub struct PixelData {
    /// X coordinate
    pub x: i32,
    /// Y coordinate
    pub y: i32,
    /// Color as hex string (e.g. "#ff0000", "#ff000080" with alpha)
    pub color: String,
}

#[derive(Debug)]
pub struct UseToolParams {
    /// Path to the sprite file
    pub file_path: String,
    /// Tool name: "pencil", "line", "rectangle", "filled_rectangle", "ellipse",
    /// "filled_ellipse", "paint_bucket", "spray", "eraser", "contour", "polygon"
    pub tool: String,
    /// Array of points: [{"x": 0, "y": 0}, ...] defining the tool stroke
    pub points: Vec<PointData>,
    /// Foreground color as hex string (e.g. "#ff0000")
    pub color: String,
    /// Brush size (default: 1)
    pub brush_size: Option<u32>,
    /// Opacity 0-255 (default: 255)
    pub opacity: Option<u32>,
    /// Target layer name (if omitted, uses active layer)
    pub layer: Option<String>,
    /// Target frame number, 1-based (if omitted, uses frame 1)
    pub frame: Option<u32>,
}

#[derive(Debug)]
pub struct PointData {
    /// X coordinate
    pub x: i32,
    /// Y coordinate
    pub y: i32,
}

#[derive(Debug)]
pub struct GetPixelDataParams {
    /// Path to the sprite file
    pub file_path: String,
    /// X coordinate of the region start
    pub x: u32,
    /// Y coordinate of the region start
    pub y: u32,
    /// Width of the region to read
    pub width: u32,
    /// Height of the region to read
    pub height: u32,
    /// Target layer name (if omitted, uses flattened image)
    pub layer: Option<String>,
    /// Target frame number, 1-based (if omitted, uses frame 1)
    pub frame: Option<u32>,
}

pub const DRAW_PIXELS_TEMPLATE: &'static str = r#"local spr = app.sprite
app.frame = spr.frames[{frame}]
{layer_select}

app.transaction("Draw Pixels", function()
    local cel = app.cel
    if not cel then
        cel = spr:newCel(app.layer, app.frame)
    end
    local img = cel.image
    local pos = cel.position
{pixel_code}
end)
spr:saveAs(spr.filename)
print(json.encode({{status = "drawn", pixelCount = {count}}}))"#;

pub const USE_TOOL_TEMPLATE: &'static str = r#"local spr = app.sprite
app.frame = spr.frames[{frame}]
{layer_select}

app.transaction("Use Tool", function()
    app.useTool{{
        tool = {tool},
        color = Color({r}, {g}, {b}, {a}),
        brush = Brush({{size = {bs}}}),
        points = {{ {points} }},
        opacity = {opacity},
        cel = app.cel
    }}
end)
spr:saveAs(spr.filename)
print(json.encode({{status = "drawn", tool = {tool}}}))"#;

pub const LAYER_IMAGE_TEMPLATE: &'static str = r#"
{find_layer}
local target_layer = find_layer(spr.layers, {name})
if not target_layer then
    print(json.encode({{error = "Layer not found"}}))
    return
end
local cel = target_layer:cel(spr.frames[{frame}])
if not cel then
    print(json.encode({{error = "No cel at this frame"}}))
    return
end
local img = cel.image
local offX = cel.position.x
local offY = cel.position.y"#;

pub const ACTIVE_IMAGE_TEMPLATE: &'static str = r#"
local flat = Image(spr.spec)
flat:drawSprite(spr, {frame})
local img = flat
local offX = 0
local offY = 0"#;

pub const GET_PIXEL_DATA_TEMPLATE: &'static str = r##"local spr = app.sprite
{image_source}

local pixels = {{}}
for py = {y}, {y} + {h} - 1 do
    for px = {x}, {x} + {w} - 1 do
        local ix = px - offX
        local iy = py - offY
        local p = {{}}
        p.x = px
        p.y = py
        if ix >= 0 and ix < img.width and iy >= 0 and iy < img.height then
            local pv = img:getPixel(ix, iy)
            local r = app.pixelColor.rgbaR(pv)
            local g = app.pixelColor.rgbaG(pv)
            local b = app.pixelColor.rgbaB(pv)
            local a = app.pixelColor.rgbaA(pv)
            p.color = string.format("#%02x%02x%02x%02x", r, g, b, a)
        else
            p.color = "#00000000"
        end
        table.insert(pixels, p)
    end
end
print(json.encode({{pixels = pixels, width = {w}, height = {h}}}))"##;

pub const EMPTY_PIXELS_MESSAGE: &'static str = "Pixels array cannot be empty";

pub const EMPTY_POINTS_MESSAGE: &'static str = "Points array cannot be empty";

/// The error for a colour `c` that is no hex colour, with what is wrong.
pub open spec fn color_error(label: Seq<char>, c: Seq<char>, problem: Seq<char>) -> Seq<char> {
    "Invalid "@ + label + " '"@ + c + "': "@ + problem
}

pub fn color_error_exec(label: &str, c: &str, problem: &str) -> (r: String)
    ensures
        r@ == color_error(label@, c@, problem@),
{
    let mut m = String::from_str("Invalid ");
    m.append(label);
    m.append(" '");
    m.append(c);
    m.append("': ");
    m.append(problem);
    m
}

/// Checks `c` as a hex colour; the error names it.
pub fn check_color(label: &str, c: &str) -> (r: Result<(), String>)
    ensures
        r is Ok <==> is_hex_color(c@),
        r matches Err(m) ==> (hex_color_problem(c@) matches Some(pr) && m@ == color_error(
            label@,
            c@,
            pr,
        )),
{
    match validate_hex_color(c) {
        Ok(()) => Ok(()),
        Err(problem) => Err(color_error_exec(label, c, problem.as_str())),
    }
}

/// Reads red, green and blue leniently; the error names a colour whose bytes
/// cannot be cut out.
pub fn read_color_rgb(c: &str) -> (r: Result<(u8, u8, u8), String>)
    ensures
        lenient_rgb(c@) matches Some(k) ==> r == Ok::<(u8, u8, u8), String>(k),
        lenient_rgb(c@) is None ==> (r matches Err(m) && m@ == color_error(
            "color"@,
            c@,
            UNREADABLE_COLOR_MESSAGE@,
        )),
{
    match read_hex_rgb(c) {
        Some(k) => Ok(k),
        None => Err(color_error_exec("color", c, UNREADABLE_COLOR_MESSAGE)),
    }
}

/// Reads red, green, blue and alpha leniently; the error names a colour
/// whose bytes cannot be cut out.
pub fn read_color_rgba(c: &str) -> (r: Result<(u8, u8, u8, u8), String>)
    ensures
        lenient_rgba(c@) matches Some(k) ==> r == Ok::<(u8, u8, u8, u8), String>(k),
        lenient_rgba(c@) is None ==> (r matches Err(m) && m@ == color_error(
            "color"@,
            c@,
            UNREADABLE_COLOR_MESSAGE@,
        )),
{
    match read_hex_rgba(c) {
        Some(k) => Ok(k),
        None => Err(color_error_exec("color", c, UNREADABLE_COLOR_MESSAGE)),
    }
}

/// Finds the layer by name and selects it, where a layer is given.
pub open spec fn layer_select_code(layer: Option<String>, error_on_missing: bool) -> Seq<char> {
    match layer {
        Some(l) => LUA_FIND_LAYER@ + select_layer_text(l@, error_on_missing),
        None => Seq::empty(),
    }
}

pub fn layer_select_exec(layer: &Option<String>, error_on_missing: bool) -> (r: String)
    ensures
        r@ == layer_select_code(*layer, error_on_missing),
{
    match layer {
        Some(l) => {
            let mut s = String::from_str(LUA_FIND_LAYER);
            let sel = lua_select_layer(l.as_str(), error_on_missing);
            s.append(sel.as_str());
            s
        },
        None => String::new(),
    }
}

pub open spec fn frame_or_first(frame: Option<u32>) -> u32 {
    match frame {
        Some(f) => f,
        None => 1,
    }
}

pub open spec fn pixel_line(px: PixelData) -> Seq<char> {
    let c = color_rgba(px.color@);
    "    img:drawPixel("@ + int_text(px.x as int) + ", "@ + int_text(px.y as int)
        + ", app.pixelColor.rgba("@ + decimal_text(c.0 as nat) + ", "@ + decimal_text(c.1 as nat)
        + ", "@ + decimal_text(c.2 as nat) + ", "@ + decimal_text(c.3 as nat) + "))\n"@
}

pub open spec fn pixels_code(pixels: Seq<PixelData>) -> Seq<char>
    decreases pixels.len(),
{
    if pixels.len() == 0 {
        Seq::empty()
    } else {
        pixels_code(pixels.drop_last()) + pixel_line(pixels.last())
    }
}

pub open spec fn all_pixel_colors_valid(pixels: Seq<PixelData>) -> bool {
    forall|i: int| 0 <= i < pixels.len() ==> is_hex_color(#[trigger] pixels[i].color@)
}

/// The first pixel whose colour is no hex colour, if any.
pub open spec fn first_bad_pixel(pixels: Seq<PixelData>, i: int) -> bool {
    &&& 0 <= i < pixels.len()
    &&& !is_hex_color(pixels[i].color@)
    &&& forall|j: int| 0 <= j < i ==> is_hex_color(#[trigger] pixels[j].color@)
}

pub open spec fn draw_pixels_text(p: DrawPixelsParams) -> Seq<char> {
    fill(
        DRAW_PIXELS_TEMPLATE@,
        seq![
            ("frame"@, decimal_text(frame_or_first(p.frame) as nat)),
            ("layer_select"@, layer_select_code(p.layer, true)),
            ("pixel_code"@, pixels_code(p.pixels@)),
            ("count"@, decimal_text(p.pixels@.len())),
        ],
    )
}

fn pixel_line_exec(px: &PixelData) -> (r: String)
    requires
        is_hex_color(px.color@),
    ensures
        r@ == pixel_line(*px),
{
    let (r, g, b, a) = parse_hex_color_with_alpha(px.color.as_str());
    let mut s = String::from_str("    img:drawPixel(");
    push_int(&mut s, px.x as i64);
    s.append(", ");
    push_int(&mut s, px.y as i64);
    s.append(", app.pixelColor.rgba(");
    push_natural(&mut s, r as u64);
    s.append(", ");
    push_natural(&mut s, g as u64);
    s.append(", ");
    push_natural(&mut s, b as u64);
    s.append(", ");
    push_natural(&mut s, a as u64);
    s.append("))\n");
    s
}

/// The script that sets the given pixels, on the given layer (an error where
/// it does not exist) and frame (by default the first). There must be at
/// least one pixel, and every colour must be a hex colour; the first one
/// that is not is reported.
pub fn draw_pixels_script(p: &DrawPixelsParams) -> (r: Result<String, String>)
    ensures
        p.pixels@.len() == 0 ==> (r matches Err(m) && m@ == EMPTY_PIXELS_MESSAGE@),
        p.pixels@.len() > 0 && all_pixel_colors_valid(p.pixels@) ==> (r matches Ok(s) && s@
            == draw_pixels_text(*p)),
        p.pixels@.len() > 0 && !all_pixel_colors_valid(p.pixels@) ==> (r matches Err(m)
            && exists|i: int|
            first_bad_pixel(p.pixels@, i) && m@ == color_error(
                "pixel color"@,
                p.pixels@[i].color@,
                hex_color_problem(p.pixels@[i].color@)->0,
            )),
{
    let n = p.pixels.len();
    if n == 0 {
        return Err(String::from_str(EMPTY_PIXELS_MESSAGE));
    }
    let mut i: usize = 0;
    while i < n
        invariant
            n == p.pixels@.len(),
            i <= n,
            forall|j: int| 0 <= j < i ==> is_hex_color(#[trigger] p.pixels@[j].color@),
        decreases n - i,
    {
        match check_color("pixel color", p.pixels[i].color.as_str()) {
            Ok(()) => {},
            Err(m) => {
                assert(first_bad_pixel(p.pixels@, i as int));
                return Err(m);
            },
        }
        i = i + 1;
    }
    let mut code = String::new();
    let mut k: usize = 0;
    while k < n
        invariant
            n == p.pixels@.len(),
            k <= n,
            all_pixel_colors_valid(p.pixels@),
            code@ == pixels_code(p.pixels@.subrange(0, k as int)),
        decreases n - k,
    {
        let line = pixel_line_exec(&p.pixels[k]);
        code.append(line.as_str());
        proof {
            let q = p.pixels@.subrange(0, k + 1);
            assert(q.drop_last() =~= p.pixels@.subrange(0, k as int));
            assert(q.last() == p.pixels@[k as int]);
        }
        k = k + 1;
    }
    assert(p.pixels@.subrange(0, n as int) =~= p.pixels@);
    let frame = match p.frame {
        Some(f) => f,
        None => 1,
    };
    Ok(
        fill4(
            DRAW_PIXELS_TEMPLATE,
            "frame",
            natural(frame as u64),
            "layer_select",
            layer_select_exec(&p.layer, true),
            "pixel_code",
            code,
            "count",
            natural(n as u64),
        ),
    )
}

pub open spec fn point_text(pt: PointData) -> Seq<char> {
    "Point("@ + int_text(pt.x as int) + ", "@ + int_text(pt.y as int) + seq![')']
}

/// The points, comma separated.
pub open spec fn points_text(points: Seq<PointData>) -> Seq<char>
    decreases points.len(),
{
    if points.len() == 0 {
        Seq::empty()
    } else if points.len() == 1 {
        point_text(points[0])
    } else {
        points_text(points.drop_last()) + ", "@ + point_text(points.last())
    }
}

pub open spec fn use_tool_result(p: UseToolParams) -> Result<Seq<char>, Seq<char>> {
    if p.points@.len() == 0 {
        Err(EMPTY_POINTS_MESSAGE@)
    } else if !is_hex_color(p.color@) {
        Err(color_error("color"@, p.color@, hex_color_problem(p.color@)->0))
    } else {
        let c = color_rgba(p.color@);
        let brush: u32 = match p.brush_size {
            Some(b) => b,
            None => 1,
        };
        let opacity: u32 = match p.opacity {
            Some(o) => opacity_clamp(o),
            None => 255,
        };
        Ok(
            fill(
                USE_TOOL_TEMPLATE@,
                seq![
                    ("frame"@, decimal_text(frame_or_first(p.frame) as nat)),
                    ("layer_select"@, layer_select_code(p.layer, false)),
                    ("tool"@, lua_literal(p.tool@)),
                    ("r"@, decimal_text(c.0 as nat)),
                    ("g"@, decimal_text(c.1 as nat)),
                    ("b"@, decimal_text(c.2 as nat)),
                    ("a"@, decimal_text(c.3 as nat)),
                    ("bs"@, decimal_text(brush as nat)),
                    ("points"@, points_text(p.points@)),
                    ("opacity"@, decimal_text(opacity as nat)),
                ],
            ),
        )
    }
}

fn point_exec(pt: &PointData) -> (r: String)
    ensures
        r@ == point_text(*pt),
{
    let mut s = String::from_str("Point(");
    push_int(&mut s, pt.x as i64);
    s.append(", ");
    push_int(&mut s, pt.y as i64);
    push_char(&mut s, ')');
    s
}

fn points_exec(points: &Vec<PointData>) -> (r: String)
    ensures
        r@ == points_text(points@),
{
    let n = points.len();
    let mut s = String::new();
    let mut k: usize = 0;
    while k < n
        invariant
            n == points@.len(),
            k <= n,
            s@ == points_text(points@.subrange(0, k as int)),
        decreases n - k,
    {
        if k > 0 {
            s.append(", ");
        }
        let t = point_exec(&points[k]);
        s.append(t.as_str());
        proof {
            let q = points@.subrange(0, k + 1);
            assert(q.drop_last() =~= points@.subrange(0, k as int));
            if k == 0 {
                assert(q.len() == 1);
                assert(points_text(points@.subrange(0, 0)) =~= Seq::<char>::empty());
            }
        }
        k = k + 1;
    }
    assert(points@.subrange(0, n as int) =~= points@);
    s
}

/// The script that applies a tool (pencil, line, rectangle and the like)
/// along the given points, with the given colour, brush size (by default 1)
/// and opacity (by default and at most 255), on the given layer where it
/// exists and frame (by default the first).
pub fn use_tool_script(p: &UseToolParams) -> (r: Result<String, String>)
    ensures
        reply_view(r) == use_tool_result(*p),
{
    if p.points.len() == 0 {
        return Err(String::from_str(EMPTY_POINTS_MESSAGE));
    }
    match check_color("color", p.color.as_str()) {
        Ok(()) => {},
        Err(m) => {
            return Err(m);
        },
    }
    let (r, g, b, a) = parse_hex_color_with_alpha(p.color.as_str());
    let frame = match p.frame {
        Some(f) => f,
        None => 1,
    };
    let brush = match p.brush_size {
        Some(b) => b,
        None => 1,
    };
    let opacity = match p.opacity {
        Some(o) => o,
        None => 255,
    };
    let opacity = if opacity > 255 {
        255
    } else {
        opacity
    };
    Ok(
        fill10(
            USE_TOOL_TEMPLATE,
            "frame",
            natural(frame as u64),
            "layer_select",
            layer_select_exec(&p.layer, false),
            "tool",
            lua_string(p.tool.as_str()),
            "r",
            natural(r as u64),
            "g",
            natural(g as u64),
            "b",
            natural(b as u64),
            "a",
            natural(a as u64),
            "bs",
            natural(brush as u64),
            "points",
            points_exec(&p.points),
            "opacity",
            natural(opacity as u64),
        ),
    )
}

pub open spec fn image_source_text(p: GetPixelDataParams) -> Seq<char> {
    let frame = decimal_text(frame_or_first(p.frame) as nat);
    match p.layer {
        Some(l) => fill(
            LAYER_IMAGE_TEMPLATE@,
            seq![("find_layer"@, LUA_FIND_LAYER@), ("name"@, lua_literal(l@)), ("frame"@, frame)],
        ),
        None => fill(ACTIVE_IMAGE_TEMPLATE@, seq![("frame"@, frame)]),
    }
}

pub open spec fn get_pixel_data_text(p: GetPixelDataParams) -> Seq<char> {
    fill(
        GET_PIXEL_DATA_TEMPLATE@,
        seq![
            ("image_source"@, image_source_text(p)),
            ("x"@, decimal_text(p.x as nat)),
            ("y"@, decimal_text(p.y as nat)),
            ("w"@, decimal_text(p.width as nat)),
            ("h"@, decimal_text(p.height as nat)),
        ],
    )
}

/// The script that reads the colours of a rectangle of pixels, from the
/// given layer (an error where it does not exist) or the active one.
pub fn get_pixel_data_script(p: &GetPixelDataParams) -> (r: String)
    ensures
        r@ == get_pixel_data_text(*p),
{
    let frame = match p.frame {
        Some(f) => f,
        None => 1,
    };
    let source = match &p.layer {
        Some(l) => fill3(
            LAYER_IMAGE_TEMPLATE,
            "find_layer",
            String::from_str(LUA_FIND_LAYER),
            "name",
            lua_string(l.as_str()),
            "frame",
            natural(frame as u64),
        ),
        None => fill1(ACTIVE_IMAGE_TEMPLATE, "frame", natural(frame as u64)),
    };
    fill5(
        GET_PIXEL_DATA_TEMPLATE,
        "image_source",
        source,
        "x",
        natural(p.x as u64),
        "y",
        natural(p.y as u64),
        "w",
        natural(p.width as u64),
        "h",
        natural(p.height as u64),
    )
}

} // verus!
