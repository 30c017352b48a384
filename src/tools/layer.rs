use vstd::prelude::*;
use vstd::string::*;

use crate::decimal::decimal_text;
use crate::lua_helpers::LUA_FIND_LAYER;
use crate::script_text::{lua_literal, lua_path, lua_string, normalized};
use crate::script_values::{bool_literal, bool_text, lower_of, lowercase, natural, opt_text};
use crate::template::{fill, fill1, fill2, fill3, str_eq};

verus! {

#[derive(Debug)]
pub struct DuplicateLayerParams {
    /// Path to the sprite file
    pub file_path: String,
    /// Name of the layer to duplicate
    pub name: String,
    /// Name for the duplicated layer (optional, defaults to "name Copy")
    pub new_name: Option<String>,
}

#[derive(Debug)]
pub struct MergeDownLayerParams {
    /// Path to the sprite file
    pub file_path: String,
    /// Name of the upper layer to merge down into the layer below
    pub name: String,
}

#[derive(Debug)]
pub struct FlattenLayersParams {
    /// Path to the sprite file
    pub file_path: String,
    /// If true, save to a different path instead of overwriting
    pub output_path: Option<String>,
}

#[derive(Debug)]
pub struct AddLayerParams {
    /// Path to the sprite file
    pub file_path: String,
    /// Name for the new layer
    pub name: String,
    /// Create a group layer instead of a normal layer (default: false)
    pub is_group: Option<bool>,
    /// Insert after this layer name (if omitted, adds at top)
    pub after_layer: Option<String>,
}

#[derive(Debug)]
pub struct RemoveLayerParams {
    /// Path to the sprite file
    pub file_path: String,
    /// Name of the layer to remove
    pub name: String,
}

#[derive(Debug)]
pub struct SetLayerPropertyParams {
    /// Path to the sprite file
    pub file_path: String,
    /// Name of the layer to modify
    pub name: String,
    /// New name for the layer
    pub new_name: Option<String>,
    /// Set visibility (true=visible, false=hidden)
    pub visible: Option<bool>,
    /// Set opacity (0-255)
    pub opacity: Option<u32>,
    /// Set blend mode ("normal", "multiply", "screen", "overlay", "darken", "lighten", etc.)
    pub blend_mode: Option<String>,
}

pub const LIST_LAYERS_SCRIPT: &'static str = r#"local spr = app.sprite
local layers = {}
local function collect(lyrs, depth, parent_name)
    for i, layer in ipairs(lyrs) do
        local l = {}
        l.name = layer.name
        l.isVisible = layer.isVisible
        l.isEditable = layer.isEditable
        l.isGroup = layer.isGroup
        l.stackIndex = layer.stackIndex
        l.depth = depth
        l.parent = parent_name
        if layer.opacity then l.opacity = layer.opacity end
        if layer.blendMode then l.blendMode = tostring(layer.blendMode) end
        l.isBackground = layer.isBackground or false
        l.isTilemap = layer.isTilemap or false
        l.numCels = #layer.cels
        table.insert(layers, l)
        if layer.isGroup and layer.layers then
            collect(layer.layers, depth + 1, layer.name)
        end
    end
end
collect(spr.layers, 0, nil)
print(json.encode({layers = layers, total = #layers}))"#;

pub const ADD_LAYER_AFTER_TEMPLATE: &'static str = r#"
local target = nil
for i, l in ipairs(spr.layers) do
    if l.name == {name} then target = l break end
end
if target then
    new_layer.stackIndex = target.stackIndex + 1
end"#;

pub const ADD_LAYER_TEMPLATE: &'static str = r#"local spr = app.sprite
local new_layer = spr:{create_fn}()
new_layer.name = {name}
{after_code}
spr:saveAs(spr.filename)
local result = {{}}
result.name = new_layer.name
result.isGroup = new_layer.isGroup
result.stackIndex = new_layer.stackIndex
result.status = "created"
print(json.encode(result))"#;

pub const REMOVE_LAYER_TEMPLATE: &'static str = r#"local spr = app.sprite
spr:deleteLayer({name})
spr:saveAs(spr.filename)
print(json.encode({{status = "deleted", layer = {name}}}))"#;

pub const SET_LAYER_PROPERTY_TEMPLATE: &'static str = r#"local spr = app.sprite
{find_layer}
local layer = find_layer(spr.layers, {name})
if layer then
{props}
    spr:saveAs(spr.filename)
    local result = {{}}
    result.name = layer.name
    result.isVisible = layer.isVisible
    if layer.opacity then result.opacity = layer.opacity end
    if layer.blendMode then result.blendMode = tostring(layer.blendMode) end
    result.status = "updated"
    print(json.encode(result))
else
    print(json.encode({{error = "Layer not found: " .. {name}}}))
end"#;

pub const DUPLICATE_LAYER_TEMPLATE: &'static str = r#"local spr = app.sprite
{find_layer}
local layer = find_layer(spr.layers, {name})
if not layer then
    print(json.encode({{error = "Layer not found: " .. {name}}}))
    return
end
app.layer = layer
app.command.DuplicateLayer()
{rename}
spr:saveAs(spr.filename)
local result = {{}}
result.name = app.layer.name
result.isGroup = app.layer.isGroup
result.stackIndex = app.layer.stackIndex
result.status = "duplicated"
print(json.encode(result))"#;

pub const MERGE_DOWN_LAYER_TEMPLATE: &'static str = r#"local spr = app.sprite
{find_layer}
local layer = find_layer(spr.layers, {name})
if not layer then
    print(json.encode({{error = "Layer not found: " .. {name}}}))
    return
end
app.layer = layer
app.command.MergeDownLayer()
spr:saveAs(spr.filename)
local result = {{}}
result.name = app.layer.name
result.status = "merged"
print(json.encode(result))"#;

pub const FLATTEN_LAYERS_TEMPLATE: &'static str = r#"local spr = app.sprite
app.command.FlattenLayers()
{save}
local result = {{}}
result.numLayers = #spr.layers
result.status = "flattened"
print(json.encode(result))"#;


pub const NO_PROPERTIES_MESSAGE: &'static str = "No properties specified to change";

pub const SAVE_IN_PLACE: &'static str = "spr:saveAs(spr.filename)";

/// The script that lists every layer, groups included, with its properties.
pub fn list_layers_script() -> (r: String)
    ensures
        r@ == LIST_LAYERS_SCRIPT@,
{
    String::from_str(LIST_LAYERS_SCRIPT)
}

pub open spec fn add_layer_text(p: AddLayerParams) -> Seq<char> {
    let create_fn = if p.is_group == Some(true) {
        "newGroup"@
    } else {
        "newLayer"@
    };
    let after_code = match p.after_layer {
        Some(a) => fill(ADD_LAYER_AFTER_TEMPLATE@, seq![("name"@, lua_literal(a@))]),
        None => Seq::empty(),
    };
    fill(
        ADD_LAYER_TEMPLATE@,
        seq![
            ("create_fn"@, create_fn),
            ("name"@, lua_literal(p.name@)),
            ("after_code"@, after_code),
        ],
    )
}

/// The script that adds a layer (or a group) and, where asked, moves it
/// above another layer.
pub fn add_layer_script(p: &AddLayerParams) -> (r: String)
    ensures
        r@ == add_layer_text(*p),
{
    let create_fn = match p.is_group {
        Some(true) => String::from_str("newGroup"),
        _ => String::from_str("newLayer"),
    };
    let after_code = match &p.after_layer {
        Some(a) => fill1(ADD_LAYER_AFTER_TEMPLATE, "name", lua_string(a.as_str())),
        None => String::new(),
    };
    fill3(
        ADD_LAYER_TEMPLATE,
        "create_fn",
        create_fn,
        "name",
        lua_string(p.name.as_str()),
        "after_code",
        after_code,
    )
}

pub open spec fn remove_layer_text(p: RemoveLayerParams) -> Seq<char> {
    fill(REMOVE_LAYER_TEMPLATE@, seq![("name"@, lua_literal(p.name@))])
}

/// The script that deletes a layer by name.
pub fn remove_layer_script(p: &RemoveLayerParams) -> (r: String)
    ensures
        r@ == remove_layer_text(*p),
{
    fill1(REMOVE_LAYER_TEMPLATE, "name", lua_string(p.name.as_str()))
}

/// The scripting constant for a blend mode given in lower case; an unknown
/// name means normal blending.
pub open spec fn blend_mode_constant(lower: Seq<char>) -> Seq<char> {
    if lower == "multiply"@ {
        "BlendMode.MULTIPLY"@
    } else if lower == "screen"@ {
        "BlendMode.SCREEN"@
    } else if lower == "overlay"@ {
        "BlendMode.OVERLAY"@
    } else if lower == "darken"@ {
        "BlendMode.DARKEN"@
    } else if lower == "lighten"@ {
        "BlendMode.LIGHTEN"@
    } else if lower == "color_dodge"@ {
        "BlendMode.COLOR_DODGE"@
    } else if lower == "color_burn"@ {
        "BlendMode.COLOR_BURN"@
    } else if lower == "hard_light"@ {
        "BlendMode.HARD_LIGHT"@
    } else if lower == "soft_light"@ {
        "BlendMode.SOFT_LIGHT"@
    } else if lower == "difference"@ {
        "BlendMode.DIFFERENCE"@
    } else if lower == "exclusion"@ {
        "BlendMode.EXCLUSION"@
    } else if lower == "addition"@ {
        "BlendMode.ADDITION"@
    } else if lower == "subtract"@ {
        "BlendMode.SUBTRACT"@
    } else if lower == "divide"@ {
        "BlendMode.DIVIDE"@
    } else {
        "BlendMode.NORMAL"@
    }
}

/// The blend mode constant for a name already in lower case.
pub fn blend_mode_for(lower: &str) -> (r: String)
    ensures
        r@ == blend_mode_constant(lower@),
{
    let r = if str_eq(lower, "multiply") {
        "BlendMode.MULTIPLY"
    } else if str_eq(lower, "screen") {
        "BlendMode.SCREEN"
    } else if str_eq(lower, "overlay") {
        "BlendMode.OVERLAY"
    } else if str_eq(lower, "darken") {
        "BlendMode.DARKEN"
    } else if str_eq(lower, "lighten") {
        "BlendMode.LIGHTEN"
    } else if str_eq(lower, "color_dodge") {
        "BlendMode.COLOR_DODGE"
    } else if str_eq(lower, "color_burn") {
        "BlendMode.COLOR_BURN"
    } else if str_eq(lower, "hard_light") {
        "BlendMode.HARD_LIGHT"
    } else if str_eq(lower, "soft_light") {
        "BlendMode.SOFT_LIGHT"
    } else if str_eq(lower, "difference") {
        "BlendMode.DIFFERENCE"
    } else if str_eq(lower, "exclusion") {
        "BlendMode.EXCLUSION"
    } else if str_eq(lower, "addition") {
        "BlendMode.ADDITION"
    } else if str_eq(lower, "subtract") {
        "BlendMode.SUBTRACT"
    } else if str_eq(lower, "divide") {
        "BlendMode.DIVIDE"
    } else {
        "BlendMode.NORMAL"
    };
    String::from_str(r)
}

pub open spec fn opacity_clamp(o: u32) -> u32 {
    if o > 255 {
        255
    } else {
        o
    }
}

/// One assignment line per property that is given, in a fixed order.
pub open spec fn layer_property_code(p: SetLayerPropertyParams) -> Seq<char> {
    (match p.new_name {
        Some(n) => "    layer.name = "@ + lua_literal(n@) + seq!['\n'],
        None => Seq::empty(),
    }) + (match p.visible {
        Some(v) => "    layer.isVisible = "@ + bool_text(v) + seq!['\n'],
        None => Seq::empty(),
    }) + (match p.opacity {
        Some(o) => "    layer.opacity = "@ + decimal_text(opacity_clamp(o) as nat) + seq!['\n'],
        None => Seq::empty(),
    }) + (match p.blend_mode {
        Some(b) => "    layer.blendMode = "@ + blend_mode_constant(lower_of(b@)) + seq!['\n'],
        None => Seq::empty(),
    })
}

pub open spec fn set_layer_property_text(p: SetLayerPropertyParams) -> Seq<char> {
    fill(
        SET_LAYER_PROPERTY_TEMPLATE@,
        seq![
            ("find_layer"@, LUA_FIND_LAYER@),
            ("name"@, lua_literal(p.name@)),
            ("props"@, layer_property_code(p)),
        ],
    )
}

fn property_line(code: &mut String, head: &str, value: &str)
    ensures
        final(code)@ == old(code)@ + head@ + value@ + seq!['\n'],
{
    code.append(head);
    code.append(value);
    crate::text::push_char(code, '\n');
}

/// The script that changes the given properties of a layer: its name,
/// visibility, opacity (at most 255) and blend mode. At least one must be
/// given.
pub fn set_layer_property_script(p: &SetLayerPropertyParams) -> (r: Result<String, String>)
    ensures
        layer_property_code(*p).len() == 0 ==> (r matches Err(m) && m@ == NO_PROPERTIES_MESSAGE@),
        layer_property_code(*p).len() > 0 ==> (r matches Ok(s) && s@ == set_layer_property_text(*p)),
{
    let mut code = String::new();
    match &p.new_name {
        Some(n) => {
            let lit = lua_string(n.as_str());
            property_line(&mut code, "    layer.name = ", lit.as_str());
        },
        None => {},
    }
    match p.visible {
        Some(v) => {
            let b = bool_literal(v);
            property_line(&mut code, "    layer.isVisible = ", b.as_str());
        },
        None => {},
    }
    match p.opacity {
        Some(o) => {
            let clamped = if o > 255 {
                255
            } else {
                o
            };
            let t = natural(clamped as u64);
            property_line(&mut code, "    layer.opacity = ", t.as_str());
        },
        None => {},
    }
    match &p.blend_mode {
        Some(b) => {
            let lower = lowercase(b.as_str());
            let c = blend_mode_for(lower.as_str());
            property_line(&mut code, "    layer.blendMode = ", c.as_str());
        },
        None => {},
    }
    assert(code@ =~= layer_property_code(*p));
    if code.as_str().is_empty() {
        return Err(String::from_str(NO_PROPERTIES_MESSAGE));
    }
    Ok(
        fill3(
            SET_LAYER_PROPERTY_TEMPLATE,
            "find_layer",
            String::from_str(LUA_FIND_LAYER),
            "name",
            lua_string(p.name.as_str()),
            "props",
            code,
        ),
    )
}

pub open spec fn duplicate_layer_text(p: DuplicateLayerParams) -> Seq<char> {
    let rename = match p.new_name {
        Some(n) => "app.layer.name = "@ + lua_literal(n@),
        None => Seq::empty(),
    };
    fill(
        DUPLICATE_LAYER_TEMPLATE@,
        seq![
            ("find_layer"@, LUA_FIND_LAYER@),
            ("name"@, lua_literal(p.name@)),
            ("rename"@, rename),
        ],
    )
}

/// The script that duplicates a layer and, where asked, renames the copy.
pub fn duplicate_layer_script(p: &DuplicateLayerParams) -> (r: String)
    ensures
        r@ == duplicate_layer_text(*p),
{
    let rename = match &p.new_name {
        Some(n) => {
            let mut s = String::from_str("app.layer.name = ");
            let lit = lua_string(n.as_str());
            s.append(lit.as_str());
            s
        },
        None => String::new(),
    };
    fill3(
        DUPLICATE_LAYER_TEMPLATE,
        "find_layer",
        String::from_str(LUA_FIND_LAYER),
        "name",
        lua_string(p.name.as_str()),
        "rename",
        rename,
    )
}

pub open spec fn merge_down_layer_text(p: MergeDownLayerParams) -> Seq<char> {
    fill(
        MERGE_DOWN_LAYER_TEMPLATE@,
        seq![("find_layer"@, LUA_FIND_LAYER@), ("name"@, lua_literal(p.name@))],
    )
}

/// The script that merges a layer into the one below it.
pub fn merge_down_layer_script(p: &MergeDownLayerParams) -> (r: String)
    ensures
        r@ == merge_down_layer_text(*p),
{
    fill2(
        MERGE_DOWN_LAYER_TEMPLATE,
        "find_layer",
        String::from_str(LUA_FIND_LAYER),
        "name",
        lua_string(p.name.as_str()),
    )
}

/// How a changed sprite is saved: over itself, or as a copy at `output`.
pub open spec fn save_code(output: Option<Seq<char>>) -> Seq<char> {
    match output {
        Some(o) => "spr:saveCopyAs("@ + lua_literal(normalized(o)) + seq![')'],
        None => SAVE_IN_PLACE@,
    }
}

pub fn save_code_exec(output: Option<&str>) -> (r: String)
    ensures
        r@ == save_code(opt_text(output)),
{
    match output {
        Some(o) => {
            let mut s = String::from_str("spr:saveCopyAs(");
            let lit = lua_path(o);
            s.append(lit.as_str());
            crate::text::push_char(&mut s, ')');
            s
        },
        None => String::from_str(SAVE_IN_PLACE),
    }
}

pub open spec fn flatten_layers_text(output: Option<Seq<char>>) -> Seq<char> {
    fill(FLATTEN_LAYERS_TEMPLATE@, seq![("save"@, save_code(output))])
}

/// The script that flattens all layers and saves, over the sprite or as a
/// copy at `output` (already resolved against the output directory).
pub fn flatten_layers_script(output: Option<&str>) -> (r: String)
    ensures
        r@ == flatten_layers_text(opt_text(output)),
{
    let save = save_code_exec(output);
    fill1(FLATTEN_LAYERS_TEMPLATE, "save", save)
}

} // verus!
