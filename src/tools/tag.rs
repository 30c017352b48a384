use vstd::prelude::*;
use vstd::string::*;

use crate::color::{lenient_rgb, UNREADABLE_COLOR_MESSAGE};
use crate::decimal::decimal_text;
use crate::script_text::{lua_literal, lua_string};
use crate::script_values::natural;
use crate::template::{fill, fill1, fill5, str_eq};
use crate::tools::drawing::{color_error, read_color_rgb};
use crate::reply::reply_view;

verus! {

#[derive(Debug)]
pub struct CreateTagParams {
    /// Path to the sprite file
    pub file_path: String,
    /// Tag name
    pub name: String,
    /// First frame number (1-based)
    pub from_frame: u32,
    /// Last frame number (1-based)
    pub to_frame: u32,
    /// Animation direction: "forward", "reverse", "ping_pong", "ping_pong_reverse" (default: "forward")
    pub ani_dir: Option<String>,
    /// Tag color as hex string (e.g. "#ff0000")
    pub color: Option<String>,
}

#[derive(Debug)]
pub struct DeleteTagParams {
    /// Path to the sprite file
    pub file_path: String,
    /// Tag name to delete
    pub name: String,
}

pub const LIST_TAGS_SCRIPT: &'static str = r#"local spr = app.sprite
local tags = {}
for i, tag in ipairs(spr.tags) do
    local t = {}
    t.name = tag.name
    t.fromFrame = tag.fromFrame.frameNumber
    t.toFrame = tag.toFrame.frameNumber
    t.frames = tag.frames
    t.aniDir = tostring(tag.aniDir)
    t.repeats = tag.repeats
    table.insert(tags, t)
end
print(json.encode({tags = tags, total = #tags}))"#;

pub const CREATE_TAG_TEMPLATE: &'static str = r#"local spr = app.sprite
local tag = spr:newTag({from}, {to})
tag.name = {name}
tag.aniDir = {ani}
{color}
spr:saveAs(spr.filename)
local result = {{}}
result.name = tag.name
result.fromFrame = tag.fromFrame.frameNumber
result.toFrame = tag.toFrame.frameNumber
result.aniDir = tostring(tag.aniDir)
result.status = "created"
print(json.encode(result))"#;

pub const DELETE_TAG_TEMPLATE: &'static str = r#"local spr = app.sprite
spr:deleteTag({name})
spr:saveAs(spr.filename)
print(json.encode({{status = "deleted", tag = {name}}}))"#;


/// The script that lists every tag with its frame range, direction and colour.
pub fn list_tags_script() -> (r: String)
    ensures
        r@ == LIST_TAGS_SCRIPT@,
{
    String::from_str(LIST_TAGS_SCRIPT)
}

pub open spec fn ani_dir_constant(dir: Option<String>) -> Seq<char> {
    match dir {
        Some(d) => if d@ == "reverse"@ {
            "AniDir.REVERSE"@
        } else if d@ == "ping_pong"@ {
            "AniDir.PING_PONG"@
        } else if d@ == "ping_pong_reverse"@ {
            "AniDir.PING_PONG_REVERSE"@
        } else {
            "AniDir.FORWARD"@
        },
        None => "AniDir.FORWARD"@,
    }
}

pub open spec fn tag_color_line(c: Seq<char>) -> Seq<char> {
    let k = lenient_rgb(c)->0;
    "tag.color = Color("@ + decimal_text(k.0 as nat) + ", "@ + decimal_text(k.1 as nat) + ", "@
        + decimal_text(k.2 as nat) + ")\n"@
}

pub open spec fn create_tag_result(p: CreateTagParams) -> Result<Seq<char>, Seq<char>> {
    let color_code = match p.color {
        Some(c) => tag_color_line(c@),
        None => Seq::empty(),
    };
    if p.color is Some && lenient_rgb(p.color->0@) is None {
        Err(color_error("color"@, p.color->0@, UNREADABLE_COLOR_MESSAGE@))
    } else {
        Ok(
            fill(
                CREATE_TAG_TEMPLATE@,
                seq![
                    ("from"@, decimal_text(p.from_frame as nat)),
                    ("to"@, decimal_text(p.to_frame as nat)),
                    ("name"@, lua_literal(p.name@)),
                    ("ani"@, ani_dir_constant(p.ani_dir)),
                    ("color"@, color_code),
                ],
            ),
        )
    }
}

fn tag_color_exec(k: (u8, u8, u8)) -> (r: String)
    ensures
        r@ == "tag.color = Color("@ + decimal_text(k.0 as nat) + ", "@ + decimal_text(k.1 as nat)
            + ", "@ + decimal_text(k.2 as nat) + ")\n"@,
{
    let mut s = String::from_str("tag.color = Color(");
    let t = natural(k.0 as u64);
    s.append(t.as_str());
    s.append(", ");
    let t = natural(k.1 as u64);
    s.append(t.as_str());
    s.append(", ");
    let t = natural(k.2 as u64);
    s.append(t.as_str());
    s.append(")\n");
    s
}

/// The script that creates a tag over a frame range, with a direction
/// (forward by default) and, where given, a colour (read leniently).
pub fn create_tag_script(p: &CreateTagParams) -> (r: Result<String, String>)
    ensures
        reply_view(r) == create_tag_result(*p),
{
    let ani = match &p.ani_dir {
        Some(d) => if str_eq(d.as_str(), "reverse") {
            "AniDir.REVERSE"
        } else if str_eq(d.as_str(), "ping_pong") {
            "AniDir.PING_PONG"
        } else if str_eq(d.as_str(), "ping_pong_reverse") {
            "AniDir.PING_PONG_REVERSE"
        } else {
            "AniDir.FORWARD"
        },
        None => "AniDir.FORWARD",
    };
    let color = match &p.color {
        Some(c) => match read_color_rgb(c.as_str()) {
            Ok(k) => tag_color_exec(k),
            Err(m) => {
                return Err(m);
            },
        },
        None => String::new(),
    };
    Ok(
        fill5(
            CREATE_TAG_TEMPLATE,
            "from",
            natural(p.from_frame as u64),
            "to",
            natural(p.to_frame as u64),
            "name",
            lua_string(p.name.as_str()),
            "ani",
            String::from_str(ani),
            "color",
            color,
        ),
    )
}

pub open spec fn delete_tag_text(p: DeleteTagParams) -> Seq<char> {
    fill(DELETE_TAG_TEMPLATE@, seq![("name"@, lua_literal(p.name@))])
}

/// The script that deletes a tag by name.
pub fn delete_tag_script(p: &DeleteTagParams) -> (r: String)
    ensures
        r@ == delete_tag_text(*p),
{
    fill1(DELETE_TAG_TEMPLATE, "name", lua_string(p.name.as_str()))
}

} // verus!
