use vstd::prelude::*;
use vstd::string::*;

use crate::color::{lenient_rgba, read_hex_rgba, UNREADABLE_COLOR_MESSAGE};
use crate::decimal::decimal_text;
use crate::script_text::{lua_literal, lua_path, normalized};
use crate::script_values::{bool_literal, bool_text, natural, push_natural};
use crate::template::{fill, fill1, fill2};
use crate::tools::drawing::{color_error, read_color_rgba};
use crate::reply::reply_view;

verus! {

#[derive(Debug)]
pub struct GetPaletteParams {
    /// Path to the sprite file
    pub file_path: String,
    /// Maximum number of colors to return (default: all)
    pub max_colors: Option<u32>,
}

#[derive(Debug)]
pub struct SetPaletteColorParams {
    /// Path to the sprite file
    pub file_path: String,
    /// Array of palette entries: [{"index": 0, "color": "#ff0000"}, ...]
    pub colors: Vec<PaletteEntry>,
}

#[derive(Debug)]
pub struct PaletteEntry {
    /// Palette index
    pub index: u32,
    /// Color as hex string (e.g. "#ff0000")
    pub color: String,
}

#[derive(Debug)]
pub struct ResizePaletteParams {
    /// Path to the sprite file
    pub file_path: String,
    /// New palette size (number of colors)
    pub size: u32,
}

#[derive(Debug)]
pub struct LoadPaletteParams {
    /// Path to the sprite file
    pub file_path: String,
    /// Path to the palette file to load (.gpl, .pal, .act, .col, .png, etc.)
    pub palette_path: String,
}

#[derive(Debug)]
pub struct SavePaletteParams {
    /// Path to the sprite file
    pub file_path: String,
    /// Output path for the palette file (e.g. "palette.gpl", "colors.pal", "palette.png")
    pub output_path: String,
}

#[derive(Debug)]
pub struct ColorQuantizationParams {
    /// Path to the sprite file
    pub file_path: String,
    /// Maximum number of colors in the quantized palette (2-256, default: 256)
    pub max_colors: Option<u32>,
    /// Use alpha channel in quantization (default: false)
    pub with_alpha: Option<bool>,
}

pub const SET_PALETTE_COLOR_TEMPLATE: &'static str = r#"local spr = app.sprite
local pal = spr.palettes[1]
app.transaction("Set Palette Colors", function()
{set_code}
end)
spr:saveAs(spr.filename)
print(json.encode({{status = "updated", colorsSet = {count}}}))"#;

pub const RESIZE_PALETTE_TEMPLATE: &'static str = r#"local spr = app.sprite
local pal = spr.palettes[1]
local oldSize = #pal
app.command.PaletteSize {{
    ui = false,
    size = {size}
}}
spr:saveAs(spr.filename)
pal = spr.palettes[1]
print(json.encode({{status = "resized", oldSize = oldSize, newSize = #pal}}))"#;

pub const LOAD_PALETTE_TEMPLATE: &'static str = r#"local spr = app.sprite
spr:loadPalette({path})
spr:saveAs(spr.filename)
local pal = spr.palettes[1]
print(json.encode({{status = "loaded", paletteSize = #pal}}))"#;

pub const SAVE_PALETTE_TEMPLATE: &'static str = r#"local spr = app.sprite
local pal = spr.palettes[1]
pal:saveAs({out})
print(json.encode({{status = "saved", paletteSize = #pal, filename = {out}}}))"#;

pub const COLOR_QUANTIZATION_TEMPLATE: &'static str = r#"local spr = app.sprite
app.command.ColorQuantization {{
    ui = false,
    withAlpha = {alpha},
    maxColors = {max_colors}
}}
spr:saveAs(spr.filename)
local pal = spr.palettes[1]
print(json.encode({{status = "quantized", paletteSize = #pal, maxColors = {max_colors}}}))"#;

pub const GET_PALETTE_TEMPLATE: &'static str = r##"local spr = app.sprite
local pal = spr.palettes[1]
{max_str}
local colors = {{}}
local count = math.min(maxColors, #pal)
for i = 0, count - 1 do
    local c = pal:getColor(i)
    local entry = {{}}
    entry.index = i
    entry.color = string.format("#%02x%02x%02x%02x", c.red, c.green, c.blue, c.alpha)
    entry.red = c.red
    entry.green = c.green
    entry.blue = c.blue
    entry.alpha = c.alpha
    table.insert(colors, entry)
end
print(json.encode({{colors = colors, total = #pal}}))"##;

pub const PALETTE_SIZE_MESSAGE: &'static str = "Palette size must be greater than 0";

pub open spec fn get_palette_text(p: GetPaletteParams) -> Seq<char> {
    let max_str = match p.max_colors {
        Some(m) => "local maxColors = "@ + decimal_text(m as nat),
        None => "local maxColors = #pal"@,
    };
    fill(GET_PALETTE_TEMPLATE@, seq![("max_str"@, max_str)])
}

/// The script that lists the palette's colours, at most `max_colors` of them
/// where given.
pub fn get_palette_script(p: &GetPaletteParams) -> (r: String)
    ensures
        r@ == get_palette_text(*p),
{
    let max_str = match p.max_colors {
        Some(m) => {
            let mut s = String::from_str("local maxColors = ");
            let d = natural(m as u64);
            s.append(d.as_str());
            s
        },
        None => String::from_str("local maxColors = #pal"),
    };
    fill1(GET_PALETTE_TEMPLATE, "max_str", max_str)
}

pub open spec fn entry_line(e: PaletteEntry) -> Seq<char> {
    let c = lenient_rgba(e.color@)->0;
    "    pal:setColor("@ + decimal_text(e.index as nat) + ", Color("@ + decimal_text(c.0 as nat)
        + ", "@ + decimal_text(c.1 as nat) + ", "@ + decimal_text(c.2 as nat) + ", "@
        + decimal_text(c.3 as nat) + "))\n"@
}

pub open spec fn entries_code(entries: Seq<PaletteEntry>) -> Seq<char>
    decreases entries.len(),
{
    if entries.len() == 0 {
        Seq::empty()
    } else {
        entries_code(entries.drop_last()) + entry_line(entries.last())
    }
}

pub open spec fn first_bad_entry(entries: Seq<PaletteEntry>, i: int) -> bool {
    &&& 0 <= i < entries.len()
    &&& lenient_rgba(entries[i].color@) is None
    &&& forall|j: int| 0 <= j < i ==> lenient_rgba(#[trigger] entries[j].color@) is Some
}

pub open spec fn all_entries_valid(entries: Seq<PaletteEntry>) -> bool {
    forall|i: int| 0 <= i < entries.len() ==> lenient_rgba(#[trigger] entries[i].color@) is Some
}

pub open spec fn set_palette_color_text(p: SetPaletteColorParams) -> Seq<char> {
    fill(
        SET_PALETTE_COLOR_TEMPLATE@,
        seq![
            ("set_code"@, entries_code(p.colors@)),
            ("count"@, decimal_text(p.colors@.len())),
        ],
    )
}

fn entry_line_exec(e: &PaletteEntry) -> (r: String)
    requires
        lenient_rgba(e.color@) is Some,
    ensures
        r@ == entry_line(*e),
{
    let (r, g, b, a) = match read_hex_rgba(e.color.as_str()) {
        Some(k) => k,
        None => (0, 0, 0, 0),
    };
    let mut s = String::from_str("    pal:setColor(");
    push_natural(&mut s, e.index as u64);
    s.append(", Color(");
    push_natural(&mut s, r as u64);
    s.append(", ");
    push_natural(&mut s, g as u64);
    s.append(", ");
    push_natural(&mut s, b as u64);
    s.append(", ");
    push_natural(&mut s, a as u64);
    s.append("))\n");
    s
}

/// The script that sets palette entries to the given colours, read
/// leniently; the first colour whose bytes cannot be cut out is reported.
pub fn set_palette_color_script(p: &SetPaletteColorParams) -> (r: Result<String, String>)
    ensures
        all_entries_valid(p.colors@) ==> (r matches Ok(s) && s@ == set_palette_color_text(*p)),
        !all_entries_valid(p.colors@) ==> (r matches Err(m) && exists|i: int|
            first_bad_entry(p.colors@, i) && m@ == color_error(
                "color"@,
                p.colors@[i].color@,
                UNREADABLE_COLOR_MESSAGE@,
            )),
{
    let n = p.colors.len();
    let mut i: usize = 0;
    while i < n
        invariant
            n == p.colors@.len(),
            i <= n,
            forall|j: int| 0 <= j < i ==> lenient_rgba(#[trigger] p.colors@[j].color@) is Some,
        decreases n - i,
    {
        match read_color_rgba(p.colors[i].color.as_str()) {
            Ok(_) => {},
            Err(m) => {
                assert(first_bad_entry(p.colors@, i as int));
                return Err(m);
            },
        }
        i = i + 1;
    }
    let mut code = String::new();
    let mut k: usize = 0;
    while k < n
        invariant
            n == p.colors@.len(),
            k <= n,
            all_entries_valid(p.colors@),
            code@ == entries_code(p.colors@.subrange(0, k as int)),
        decreases n - k,
    {
        let line = entry_line_exec(&p.colors[k]);
        code.append(line.as_str());
        proof {
            let q = p.colors@.subrange(0, k + 1);
            assert(q.drop_last() =~= p.colors@.subrange(0, k as int));
            assert(q.last() == p.colors@[k as int]);
        }
        k = k + 1;
    }
    assert(p.colors@.subrange(0, n as int) =~= p.colors@);
    Ok(fill2(SET_PALETTE_COLOR_TEMPLATE, "set_code", code, "count", natural(n as u64)))
}

pub open spec fn resize_palette_result(p: ResizePaletteParams) -> Result<Seq<char>, Seq<char>> {
    if p.size == 0 {
        Err(PALETTE_SIZE_MESSAGE@)
    } else {
        Ok(fill(RESIZE_PALETTE_TEMPLATE@, seq![("size"@, decimal_text(p.size as nat))]))
    }
}

/// The script that resizes the palette to a size above zero.
pub fn resize_palette_script(p: &ResizePaletteParams) -> (r: Result<String, String>)
    ensures
        reply_view(r) == resize_palette_result(*p),
{
    if p.size == 0 {
        return Err(String::from_str(PALETTE_SIZE_MESSAGE));
    }
    Ok(fill1(RESIZE_PALETTE_TEMPLATE, "size", natural(p.size as u64)))
}

pub open spec fn load_palette_text(p: LoadPaletteParams) -> Seq<char> {
    fill(LOAD_PALETTE_TEMPLATE@, seq![("path"@, lua_literal(normalized(p.palette_path@)))])
}

/// The script that loads the palette from a file.
pub fn load_palette_script(p: &LoadPaletteParams) -> (r: String)
    ensures
        r@ == load_palette_text(*p),
{
    fill1(LOAD_PALETTE_TEMPLATE, "path", lua_path(p.palette_path.as_str()))
}

pub open spec fn save_palette_text(output: Seq<char>) -> Seq<char> {
    fill(SAVE_PALETTE_TEMPLATE@, seq![("out"@, lua_literal(normalized(output)))])
}

/// The script that saves the palette to `output`.
pub fn save_palette_script(output: &str) -> (r: String)
    ensures
        r@ == save_palette_text(output@),
{
    fill1(SAVE_PALETTE_TEMPLATE, "out", lua_path(output))
}

/// The number of colours asked for, by default 256, kept between 2 and 256.
pub open spec fn quantization_colors(max_colors: Option<u32>) -> u32 {
    let m = match max_colors {
        Some(m) => m,
        None => 256,
    };
    if m < 2 {
        2
    } else if m > 256 {
        256
    } else {
        m
    }
}

pub open spec fn color_quantization_text(p: ColorQuantizationParams) -> Seq<char> {
    fill(
        COLOR_QUANTIZATION_TEMPLATE@,
        seq![
            ("alpha"@, bool_text(p.with_alpha == Some(true))),
            ("max_colors"@, decimal_text(quantization_colors(p.max_colors) as nat)),
        ],
    )
}

/// The script that reduces the sprite to a palette of at most the given
/// number of colours.
pub fn color_quantization_script(p: &ColorQuantizationParams) -> (r: String)
    ensures
        r@ == color_quantization_text(*p),
{
    let m = match p.max_colors {
        Some(m) => m,
        None => 256,
    };
    let m = if m < 2 {
        2
    } else if m > 256 {
        256
    } else {
        m
    };
    let alpha = match p.with_alpha {
        Some(true) => true,
        _ => false,
    };
    fill2(
        COLOR_QUANTIZATION_TEMPLATE,
        "alpha",
        bool_literal(alpha),
        "max_colors",
        natural(m as u64),
    )
}

} // verus!
