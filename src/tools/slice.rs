use vstd::prelude::*;
use vstd::string::*;

use crate::color::{hex_body_len, lenient_rgba, strip_hashes, utf8_len, UNREADABLE_COLOR_MESSAGE};
use crate::decimal::decimal_text;
use crate::script_text::{lua_literal, lua_string};
use crate::script_values::{int_text, integer, natural, push_int, push_natural};
use crate::template::{fill, fill1, fill6};
use crate::text::push_char;
use crate::tools::drawing::{color_error, read_color_rgba};
use crate::reply::reply_view;

verus! {

#[derive(Debug)]
pub struct CreateSliceParams {
    /// Path to the sprite file
    pub file_path: String,
    /// Name for the new slice
    pub name: String,
    /// X coordinate of slice bounds
    pub x: i32,
    /// Y coordinate of slice bounds
    pub y: i32,
    /// Width of slice bounds
    pub width: u32,
    /// Height of slice bounds
    pub height: u32,
    /// 9-slice center rectangle (for UI scaling). Format: {x, y, width, height} relative to slice bounds.
    pub center: Option<SliceRect>,
    /// Pivot point for the slice (anchor point for game engines). Format: {x, y} relative to slice bounds.
    pub pivot: Option<SlicePoint>,
    /// User-defined color for the slice in hex (e.g. "#ff0000")
    pub color: Option<String>,
    /// User-defined data string (can store JSON metadata for game engines)
    pub data: Option<String>,
}

#[derive(Debug)]
pub struct SliceRect {
    /// X offset relative to slice bounds
    pub x: i32,
    /// Y offset relative to slice bounds
    pub y: i32,
    /// Width of center rectangle
    pub width: u32,
    /// Height of center rectangle
    pub height: u32,
}

#[derive(Debug)]
pub struct SlicePoint {
    /// X coordinate of pivot
    pub x: i32,
    /// Y coordinate of pivot
    pub y: i32,
}

#[derive(Debug)]
pub struct DeleteSliceParams {
    /// Path to the sprite file
    pub file_path: String,
    /// Name of the slice to delete
    pub name: String,
}

pub const CREATE_SLICE_TEMPLATE: &'static str = r#"local spr = app.sprite
local slice = spr:newSlice(Rectangle({x}, {y}, {w}, {h}))
slice.name = {name}
{extra}
spr:saveAs(spr.filename)
local result = {{}}
result.name = slice.name
result.bounds = {{
    x = slice.bounds.x,
    y = slice.bounds.y,
    width = slice.bounds.width,
    height = slice.bounds.height
}}
if slice.center then
    result.center = {{
        x = slice.center.x,
        y = slice.center.y,
        width = slice.center.width,
        height = slice.center.height
    }}
end
if slice.pivot then
    result.pivot = {{
        x = slice.pivot.x,
        y = slice.pivot.y
    }}
end
result.status = "created"
print(json.encode(result))"#;

pub const DELETE_SLICE_TEMPLATE: &'static str = r#"local spr = app.sprite
spr:deleteSlice({name})
spr:saveAs(spr.filename)
print(json.encode({{status = "deleted", slice = {name}}}))"#;

pub const LIST_SLICES_SCRIPT: &'static str = r##"local spr = app.sprite
local slices = {}
for i, slice in ipairs(spr.slices) do
    local s = {}
    s.name = slice.name
    if slice.bounds then
        s.bounds = {
            x = slice.bounds.x,
            y = slice.bounds.y,
            width = slice.bounds.width,
            height = slice.bounds.height
        }
    end
    if slice.center then
        s.center = {
            x = slice.center.x,
            y = slice.center.y,
            width = slice.center.width,
            height = slice.center.height
        }
    end
    if slice.pivot then
        s.pivot = {
            x = slice.pivot.x,
            y = slice.pivot.y
        }
    end
    if slice.color then
        s.color = string.format("#%02x%02x%02x%02x", slice.color.red, slice.color.green, slice.color.blue, slice.color.alpha)
    end
    if slice.data and slice.data ~= "" then
        s.data = slice.data
    end
    table.insert(slices, s)
end
print(json.encode({slices = slices, total = #slices}))"##;

/// The script that lists every slice with its bounds, centre, pivot, colour
/// and user data.
pub fn list_slices_script() -> (r: String)
    ensures
        r@ == LIST_SLICES_SCRIPT@,
{
    String::from_str(LIST_SLICES_SCRIPT)
}

pub open spec fn center_line(c: SliceRect) -> Seq<char> {
    "slice.center = Rectangle("@ + int_text(c.x as int) + ", "@ + int_text(c.y as int) + ", "@
        + decimal_text(c.width as nat) + ", "@ + decimal_text(c.height as nat) + ")\n"@
}

pub open spec fn pivot_line(pt: SlicePoint) -> Seq<char> {
    "slice.pivot = Point("@ + int_text(pt.x as int) + ", "@ + int_text(pt.y as int) + ")\n"@
}

/// A colour with fewer than six bytes after its `#`s sets nothing.
pub open spec fn color_too_short(c: Seq<char>) -> bool {
    utf8_len(strip_hashes(c)) < 6
}

pub open spec fn color_line(c: Seq<char>) -> Seq<char> {
    let k = lenient_rgba(c)->0;
    "slice.color = Color("@ + decimal_text(k.0 as nat) + ", "@ + decimal_text(k.1 as nat) + ", "@
        + decimal_text(k.2 as nat) + ", "@ + decimal_text(k.3 as nat) + ")\n"@
}

/// The lines that set the slice's optional properties.
pub open spec fn slice_extra_code(p: CreateSliceParams) -> Seq<char> {
    (match p.center {
        Some(c) => center_line(c),
        None => Seq::empty(),
    }) + (match p.pivot {
        Some(pt) => pivot_line(pt),
        None => Seq::empty(),
    }) + (match p.color {
        Some(c) => if color_too_short(c@) {
            Seq::empty()
        } else {
            color_line(c@)
        },
        None => Seq::empty(),
    }) + (match p.data {
        Some(d) => "slice.data = "@ + lua_literal(d@) + seq!['\n'],
        None => Seq::empty(),
    })
}

pub open spec fn create_slice_result(p: CreateSliceParams) -> Result<Seq<char>, Seq<char>> {
    if p.color is Some && !color_too_short(p.color->0@) && lenient_rgba(p.color->0@) is None {
        Err(color_error("color"@, p.color->0@, UNREADABLE_COLOR_MESSAGE@))
    } else {
        Ok(
            fill(
                CREATE_SLICE_TEMPLATE@,
                seq![
                    ("x"@, int_text(p.x as int)),
                    ("y"@, int_text(p.y as int)),
                    ("w"@, decimal_text(p.width as nat)),
                    ("h"@, decimal_text(p.height as nat)),
                    ("name"@, lua_literal(p.name@)),
                    ("extra"@, slice_extra_code(p)),
                ],
            ),
        )
    }
}

fn center_line_exec(c: &SliceRect) -> (r: String)
    ensures
        r@ == center_line(*c),
{
    let mut s = String::from_str("slice.center = Rectangle(");
    push_int(&mut s, c.x as i64);
    s.append(", ");
    push_int(&mut s, c.y as i64);
    s.append(", ");
    push_natural(&mut s, c.width as u64);
    s.append(", ");
    push_natural(&mut s, c.height as u64);
    s.append(")\n");
    s
}

fn pivot_line_exec(pt: &SlicePoint) -> (r: String)
    ensures
        r@ == pivot_line(*pt),
{
    let mut s = String::from_str("slice.pivot = Point(");
    push_int(&mut s, pt.x as i64);
    s.append(", ");
    push_int(&mut s, pt.y as i64);
    s.append(")\n");
    s
}

fn color_line_exec(k: (u8, u8, u8, u8)) -> (r: String)
    ensures
        r@ == "slice.color = Color("@ + decimal_text(k.0 as nat) + ", "@ + decimal_text(k.1 as nat)
            + ", "@ + decimal_text(k.2 as nat) + ", "@ + decimal_text(k.3 as nat) + ")\n"@,
{
    let mut s = String::from_str("slice.color = Color(");
    push_natural(&mut s, k.0 as u64);
    s.append(", ");
    push_natural(&mut s, k.1 as u64);
    s.append(", ");
    push_natural(&mut s, k.2 as u64);
    s.append(", ");
    push_natural(&mut s, k.3 as u64);
    s.append(")\n");
    s
}

/// The script that creates a slice with the given bounds and, where given,
/// centre, pivot, colour and user data. The colour is read leniently, and
/// left out where fewer than six bytes follow its `#`s.
pub fn create_slice_script(p: &CreateSliceParams) -> (r: Result<String, String>)
    ensures
        reply_view(r) == create_slice_result(*p),
{
    let center = match &p.center {
        Some(c) => center_line_exec(c),
        None => String::new(),
    };
    let pivot = match &p.pivot {
        Some(pt) => pivot_line_exec(pt),
        None => String::new(),
    };
    let color = match &p.color {
        Some(c) => if hex_body_len(c.as_str()) < 6 {
            String::new()
        } else {
            match read_color_rgba(c.as_str()) {
                Ok(k) => color_line_exec(k),
                Err(m) => {
                    return Err(m);
                },
            }
        },
        None => String::new(),
    };
    let data = match &p.data {
        Some(d) => {
            let mut s = String::from_str("slice.data = ");
            let lit = lua_string(d.as_str());
            s.append(lit.as_str());
            push_char(&mut s, '\n');
            s
        },
        None => String::new(),
    };
    let mut extra = center;
    extra.append(pivot.as_str());
    extra.append(color.as_str());
    extra.append(data.as_str());
    assert(extra@ =~= slice_extra_code(*p));
    Ok(
        fill6(
            CREATE_SLICE_TEMPLATE,
            "x",
            integer(p.x as i64),
            "y",
            integer(p.y as i64),
            "w",
            natural(p.width as u64),
            "h",
            natural(p.height as u64),
            "name",
            lua_string(p.name.as_str()),
            "extra",
            extra,
        ),
    )
}

pub open spec fn delete_slice_text(p: DeleteSliceParams) -> Seq<char> {
    fill(DELETE_SLICE_TEMPLATE@, seq![("name"@, lua_literal(p.name@))])
}

/// The script that deletes a slice by name.
pub fn delete_slice_script(p: &DeleteSliceParams) -> (r: String)
    ensures
        r@ == delete_slice_text(*p),
{
    fill1(DELETE_SLICE_TEMPLATE, "name", lua_string(p.name.as_str()))
}

} // verus!
