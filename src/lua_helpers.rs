//! Reusable snippets of script source.
use vstd::prelude::*;
use vstd::string::*;

use crate::script_text::{lua_literal, lua_string};

verus! {

/// Script function that finds a layer by name, searching groups recursively.
/// After including this snippet, call: `find_layer(spr.layers, "name")`.
pub const LUA_FIND_LAYER: &'static str = "
local function find_layer(lyrs, name)
    for i, l in ipairs(lyrs) do
        if l.name == name then return l end
        if l.isGroup and l.layers then
            local found = find_layer(l.layers, name)
            if found then return found end
        end
    end
    return nil
end";

pub const SELECT_OPEN: &'static str = "\nlocal target_layer = find_layer(spr.layers, ";

pub const SELECT_STRICT_MIDDLE: &'static str = ")
if not target_layer then
    print(json.encode({error = \"Layer not found: \" .. ";

pub const SELECT_STRICT_CLOSE: &'static str = "}))
    return
end
app.layer = target_layer";

pub const SELECT_LENIENT_CLOSE: &'static str = ")\nif target_layer then app.layer = target_layer end";

/// The snippet that `lua_select_layer` produces.
pub open spec fn select_layer_text(name: Seq<char>, error_on_missing: bool) -> Seq<char> {
    if error_on_missing {
        SELECT_OPEN@ + lua_literal(name) + SELECT_STRICT_MIDDLE@ + lua_literal(name)
            + SELECT_STRICT_CLOSE@
    } else {
        SELECT_OPEN@ + lua_literal(name) + SELECT_LENIENT_CLOSE@
    }
}

/// Snippet that makes the layer called `layer_name` the active one, found with
/// `find_layer` (include `LUA_FIND_LAYER` first). Where no such layer exists it
/// either prints an error object and returns (`error_on_missing`), or leaves
/// the active layer as it is.
pub fn lua_select_layer(layer_name: &str, error_on_missing: bool) -> (r: String)
    ensures
        r@ == select_layer_text(layer_name@, error_on_missing),
{
    let name = lua_string(layer_name);
    let mut out = String::new();
    out.append(SELECT_OPEN);
    out.append(name.as_str());
    if error_on_missing {
        out.append(SELECT_STRICT_MIDDLE);
        out.append(name.as_str());
        out.append(SELECT_STRICT_CLOSE);
    } else {
        out.append(SELECT_LENIENT_CLOSE);
    }
    assert(out@ =~= select_layer_text(layer_name@, error_on_missing));
    out
}

} // verus!
