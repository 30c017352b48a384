use aseprite_mcp::lua_helpers::{lua_select_layer, LUA_FIND_LAYER};
use aseprite_mcp::script_text::{lua_path, lua_string, normalize_path};

/// Reads a double-quoted literal back by the scripting language's rules for
/// the escapes that appear in generated text.
fn decode(lit: &str) -> Option<String> {
    let chars: Vec<char> = lit.chars().collect();
    if chars.first() != Some(&'"') || chars.last() != Some(&'"') || chars.len() < 2 {
        return None;
    }
    let body = &chars[1..chars.len() - 1];
    let mut out = String::new();
    let mut i = 0;
    while i < body.len() {
        let c = body[i];
        if c == '"' || c == '\n' || c == '\r' {
            return None;
        }
        if c != '\\' {
            out.push(c);
            i += 1;
            continue;
        }
        let e = *body.get(i + 1)?;
        match e {
            'n' => out.push('\n'),
            'r' => out.push('\r'),
            't' => out.push('\t'),
            '\\' | '"' | '\'' => out.push(e),
            d if d.is_ascii_digit() => {
                let mut v = 0u32;
                let mut k = 0;
                while k < 3 && i + 1 + k < body.len() && body[i + 1 + k].is_ascii_digit() {
                    v = v * 10 + body[i + 1 + k].to_digit(10).unwrap();
                    k += 1;
                }
                out.push(char::from_u32(v)?);
                i += 1 + k;
                continue;
            }
            _ => return None,
        }
        i += 2;
    }
    Some(out)
}

#[test]
fn lua_string_plain_text_is_quoted() {
    assert_eq!(lua_string("hello"), "\"hello\"");
    assert_eq!(lua_string(""), "\"\"");
}

#[test]
fn lua_string_escapes_special_characters() {
    assert_eq!(lua_string("a\\b"), "\"a\\\\b\"");
    assert_eq!(lua_string("say \"hi\""), "\"say \\\"hi\\\"\"");
    assert_eq!(lua_string("l1\nl2\r"), "\"l1\\nl2\\r\"");
    assert_eq!(lua_string("x\0y"), "\"x\\000y\"");
}

#[test]
fn lua_string_keeps_unicode() {
    assert_eq!(lua_string("café ✓"), "\"café ✓\"");
}

#[test]
fn lua_string_round_trips_through_the_literal_grammar() {
    let samples = [
        "",
        "plain",
        "back\\slash",
        "\"quoted\"",
        "multi\nline\r\ntext",
        "nul\0end",
        "nul at end\0",
        "\0\u{30}\u{39}9 digits after nul",
        "\\\"\n\r\0mixed\\n",
        "tabs\tand ünïcödé",
        "end with backslash\\",
    ];
    for s in samples {
        assert_eq!(decode(&lua_string(s)).as_deref(), Some(s), "sample {:?}", s);
    }
}

#[test]
fn lua_string_nul_before_digit_round_trips() {
    let lit = lua_string("\u{0}1");
    assert_eq!(lit, "\"\\0001\"");
    assert_eq!(decode(&lit).as_deref(), Some("\u{0}1"));
    assert_eq!(decode(&lua_string("\u{0}123\u{0}")).as_deref(), Some("\u{0}123\u{0}"));
}

#[test]
fn normalize_path_replaces_backslashes() {
    assert_eq!(normalize_path("C:\\Users\\me\\art.aseprite"), "C:/Users/me/art.aseprite");
    assert_eq!(normalize_path("already/fine.png"), "already/fine.png");
    assert_eq!(normalize_path(""), "");
}

#[test]
fn normalize_path_output_has_no_backslash_and_same_segments() {
    let input = "a\\b/c\\\\d\\e.png";
    let out = normalize_path(input);
    assert!(!out.contains('\\'));
    let before: Vec<&str> = input.split(|c| c == '/' || c == '\\').collect();
    let after: Vec<&str> = out.split('/').collect();
    assert_eq!(before, after);
}

#[test]
fn lua_path_normalizes_then_escapes() {
    assert_eq!(lua_path("C:\\dir\\my \"file\".png"), "\"C:/dir/my \\\"file\\\".png\"");
}

#[test]
fn select_layer_strict_snippet() {
    let s = lua_select_layer("Back\"ground", true);
    let expected = "\nlocal target_layer = find_layer(spr.layers, \"Back\\\"ground\")\nif not target_layer then\n    print(json.encode({error = \"Layer not found: \" .. \"Back\\\"ground\"}))\n    return\nend\napp.layer = target_layer";
    assert_eq!(s, expected);
}

#[test]
fn select_layer_lenient_snippet() {
    let s = lua_select_layer("Layer 1", false);
    let expected = "\nlocal target_layer = find_layer(spr.layers, \"Layer 1\")\nif target_layer then app.layer = target_layer end";
    assert_eq!(s, expected);
}

#[test]
fn find_layer_snippet_defines_function() {
    assert!(LUA_FIND_LAYER.contains("local function find_layer(lyrs, name)"));
    assert!(LUA_FIND_LAYER.trim_end().ends_with("end"));
}
