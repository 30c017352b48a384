use aseprite_mcp::output::ScriptOutput;
use aseprite_mcp::runner::RunError;
use aseprite_mcp::color::{read_hex_rgb, read_hex_rgba};
use aseprite_mcp::template::fill2;
use aseprite_mcp::tools::cel::{set_cel_opacity_script, SetCelOpacityParams};
use aseprite_mcp::tools::drawing::{
    draw_pixels_script, use_tool_script, DrawPixelsParams, PixelData, PointData, UseToolParams,
};
use aseprite_mcp::tools::export::{
    export_sprite_args, export_sprite_reply, export_spritesheet_args, export_spritesheet_reply,
    ExportSpriteParams, ExportSpritesheetParams,
};
use aseprite_mcp::tools::filter::{brightness_contrast_script, despeckle_script, BrightnessContrastParams, DespeckleParams};
use aseprite_mcp::tools::frame::{set_frame_duration_script, SetFrameDurationParams};
use aseprite_mcp::tools::layer::{
    blend_mode_for,
    flatten_layers_script, remove_layer_script, set_layer_property_script, RemoveLayerParams,
    SetLayerPropertyParams,
};
use aseprite_mcp::tools::palette::{
    set_palette_color_script, PaletteEntry, SetPaletteColorParams,
    color_quantization_script, resize_palette_script, ColorQuantizationParams, ResizePaletteParams,
};
use aseprite_mcp::tools::effects::{outline_script, replace_color_script, OutlineParams, ReplaceColorParams};
use aseprite_mcp::tools::selection::{select_by_color_script, SelectByColorParams};
use aseprite_mcp::tools::slice::{create_slice_script, CreateSliceParams, SlicePoint};
use aseprite_mcp::tools::sprite::{
    color_format_for, is_flip_direction,
    change_color_mode_script, create_sprite_script, flip_sprite_script, rotate_sprite_script,
    ChangeColorModeParams, CreateSpriteParams, FlipSpriteParams, RotateSpriteParams,
};
use aseprite_mcp::tools::tag::{create_tag_script, CreateTagParams};

fn s(v: &str) -> String {
    v.to_string()
}

#[test]
fn template_fills_names_and_braces() {
    let r = fill2("t = {{a = {x}}} {y}{x} {z}", "x", s("1"), "y", s("\"q\""));
    assert_eq!(r, "t = {a = 1} \"q\"1 {z}");
}

#[test]
fn remove_layer_exact_script() {
    let r = remove_layer_script(&RemoveLayerParams { file_path: s("a.ase"), name: s("Sky \"1\"") });
    assert_eq!(
        r,
        "local spr = app.sprite\nspr:deleteLayer(\"Sky \\\"1\\\"\")\nspr:saveAs(spr.filename)\nprint(json.encode({status = \"deleted\", layer = \"Sky \\\"1\\\"\"}))"
    );
}

#[test]
fn set_layer_property_needs_a_property() {
    let p = SetLayerPropertyParams {
        file_path: s("a.ase"),
        name: s("L"),
        new_name: None,
        visible: None,
        opacity: None,
        blend_mode: None,
    };
    assert_eq!(set_layer_property_script(&p), Err(s("No properties specified to change")));
}

#[test]
fn set_layer_property_lines_in_order_with_clamp_and_case_folding() {
    let p = SetLayerPropertyParams {
        file_path: s("a.ase"),
        name: s("L"),
        new_name: Some(s("M")),
        visible: Some(false),
        opacity: Some(300),
        blend_mode: Some(s("MULTIPLY")),
    };
    let r = set_layer_property_script(&p).unwrap();
    assert!(r.contains(
        "    layer.name = \"M\"\n    layer.isVisible = false\n    layer.opacity = 255\n    layer.blendMode = BlendMode.MULTIPLY\n"
    ));
    let unknown = SetLayerPropertyParams { blend_mode: Some(s("sparkle")), ..p };
    assert!(set_layer_property_script(&unknown).unwrap().contains("layer.blendMode = BlendMode.NORMAL"));
}

#[test]
fn flatten_saves_in_place_or_as_copy() {
    assert!(flatten_layers_script(None).contains("\nspr:saveAs(spr.filename)\n"));
    assert!(flatten_layers_script(Some("C:\\out\\f.png")).contains("spr:saveCopyAs(\"C:/out/f.png\")"));
}

#[test]
fn create_sprite_rejects_empty_size_and_blank_output() {
    let p = CreateSpriteParams { width: 0, height: 4, output_path: s("x.ase"), color_mode: None };
    assert_eq!(create_sprite_script(&p, "x.ase"), Err(s("Width and height must be greater than 0")));
    let p = CreateSpriteParams { width: 4, height: 4, output_path: s("  "), color_mode: None };
    assert_eq!(create_sprite_script(&p, "  "), Err(s("Output path cannot be empty")));
}

#[test]
fn create_sprite_script_values() {
    let p = CreateSpriteParams {
        width: 32,
        height: 16,
        output_path: s("o.ase"),
        color_mode: Some(s("indexed")),
    };
    let r = create_sprite_script(&p, "/abs/o.ase").unwrap();
    assert!(r.contains("32"));
    assert!(r.contains("16"));
    assert!(r.contains("ColorMode.INDEXED"));
    assert!(r.contains("\"/abs/o.ase\""));
}

#[test]
fn flip_accepts_any_case_and_rejects_others() {
    let p = FlipSpriteParams { file_path: s("a.ase"), direction: s("Horizontal"), output_path: None };
    let r = flip_sprite_script(&p, "a.ase").unwrap();
    assert!(r.contains("orientation = \"horizontal\""));
    assert!(r.contains("direction = \"Horizontal\""));
    let bad = FlipSpriteParams { direction: s("diagonal"), ..p };
    assert_eq!(flip_sprite_script(&bad, "a.ase"), Err(s("direction must be 'horizontal' or 'vertical'")));
}

#[test]
fn rotate_only_right_angles() {
    let p = RotateSpriteParams { file_path: s("a.ase"), angle: 45, output_path: None };
    assert_eq!(rotate_sprite_script(&p, "a.ase"), Err(s("angle must be 90, 180, or 270")));
    let ok = RotateSpriteParams { angle: 270, ..p };
    assert!(rotate_sprite_script(&ok, "a.ase").unwrap().contains("angle = 270"));
}

#[test]
fn change_color_mode_maps_grayscale_to_gray() {
    let p = ChangeColorModeParams { file_path: s("a.ase"), color_mode: s("GrayScale"), output_path: None };
    assert!(change_color_mode_script(&p, None).unwrap().contains("\"gray\""));
    let bad = ChangeColorModeParams { color_mode: s("cmyk"), ..p };
    assert_eq!(
        change_color_mode_script(&bad, None),
        Err(s("color_mode must be 'rgb', 'grayscale', or 'indexed'"))
    );
}

#[test]
fn draw_pixels_errors() {
    let empty = DrawPixelsParams { file_path: s("a.ase"), pixels: vec![], layer: None, frame: None };
    assert_eq!(draw_pixels_script(&empty), Err(s("Pixels array cannot be empty")));
    let bad = DrawPixelsParams {
        file_path: s("a.ase"),
        pixels: vec![
            PixelData { x: 0, y: 0, color: s("#ff0000") },
            PixelData { x: 1, y: 0, color: s("#12") },
            PixelData { x: 2, y: 0, color: s("zzzzzz") },
        ],
        layer: None,
        frame: None,
    };
    assert_eq!(
        draw_pixels_script(&bad),
        Err(s("Invalid pixel color '#12': expected 6 or 8 hex digits (got 2), format: #rrggbb or #rrggbbaa"))
    );
}

#[test]
fn draw_pixels_lines() {
    let p = DrawPixelsParams {
        file_path: s("a.ase"),
        pixels: vec![
            PixelData { x: -1, y: 2, color: s("#ff000080") },
            PixelData { x: 3, y: 4, color: s("00ff00") },
        ],
        layer: Some(s("Ink")),
        frame: Some(2),
    };
    let r = draw_pixels_script(&p).unwrap();
    assert!(r.contains(
        "    img:drawPixel(-1, 2, app.pixelColor.rgba(255, 0, 0, 128))\n    img:drawPixel(3, 4, app.pixelColor.rgba(0, 255, 0, 255))\n"
    ));
    assert!(r.contains("find_layer(spr.layers, \"Ink\")"));
}

#[test]
fn use_tool_points_and_defaults() {
    let p = UseToolParams {
        file_path: s("a.ase"),
        tool: s("line"),
        points: vec![PointData { x: 0, y: 0 }, PointData { x: 5, y: -3 }],
        color: s("#0000ff"),
        brush_size: None,
        opacity: Some(999),
        layer: None,
        frame: None,
    };
    let r = use_tool_script(&p).unwrap();
    assert!(r.contains("Point(0, 0), Point(5, -3)"));
    assert!(r.contains("\"line\""));
    let bad = UseToolParams { color: s("blue"), ..p };
    assert_eq!(
        use_tool_script(&bad),
        Err(s("Invalid color 'blue': expected 6 or 8 hex digits (got 4), format: #rrggbb or #rrggbbaa"))
    );
}

#[test]
fn cel_opacity_is_clamped() {
    let p = SetCelOpacityParams { file_path: s("a.ase"), layer: s("L"), frame: 1, opacity: 1000 };
    assert!(set_cel_opacity_script(&p).contains("cel.opacity = 255"));
}

#[test]
fn frame_duration_in_seconds() {
    let mk = |ms| SetFrameDurationParams { file_path: s("a.ase"), frame_number: 3, duration_ms: ms };
    assert!(set_frame_duration_script(&mk(1500)).contains("1.5"));
    assert!(set_frame_duration_script(&mk(2000)).contains(" 2\n") || set_frame_duration_script(&mk(2000)).contains(" 2 "));
    assert!(set_frame_duration_script(&mk(33)).contains("0.033"));
    assert!(set_frame_duration_script(&mk(120)).contains("0.12"));
    for ms in [0u32, 1, 10, 100, 999, 1000, 1001, 123456] {
        let expected = format!("{}", ms as f64 / 1000.0);
        assert!(set_frame_duration_script(&mk(ms)).contains(&expected), "{} ms", ms);
    }
}

#[test]
fn filters_clamp_their_values() {
    let r = brightness_contrast_script(&BrightnessContrastParams { file_path: s("a"), brightness: -500, contrast: 40 });
    assert!(r.contains("-100"));
    assert!(r.contains("40"));
    let d = despeckle_script(&DespeckleParams { file_path: s("a"), width: Some(0), height: None });
    assert!(d.contains("1"));
    assert!(d.contains("3"));
}

#[test]
fn palette_rules() {
    assert_eq!(
        resize_palette_script(&ResizePaletteParams { file_path: s("a"), size: 0 }),
        Err(s("Palette size must be greater than 0"))
    );
    let q = color_quantization_script(&ColorQuantizationParams { file_path: s("a"), max_colors: Some(1), with_alpha: Some(true) });
    assert!(q.contains("2"));
    assert!(q.contains("true"));
}

#[test]
fn select_by_color_hex_text() {
    let r = select_by_color_script(&SelectByColorParams { file_path: s("a"), color: s("#FF8000"), tolerance: Some(900) }).unwrap();
    assert!(r.contains("#ff8000"));
    assert!(r.contains("255"));
}

#[test]
fn slice_and_tag_extras() {
    let p = CreateSliceParams {
        file_path: s("a"),
        name: s("btn"),
        x: 1,
        y: 2,
        width: 3,
        height: 4,
        center: None,
        pivot: Some(SlicePoint { x: -1, y: 1 }),
        color: Some(s("#10203040")),
        data: Some(s("d")),
    };
    let r = create_slice_script(&p).unwrap();
    assert!(r.contains("slice.pivot = Point(-1, 1)\nslice.color = Color(16, 32, 48, 64)\nslice.data = \"d\"\n"));
    let t = CreateTagParams {
        file_path: s("a"),
        name: s("run"),
        from_frame: 1,
        to_frame: 4,
        ani_dir: Some(s("ping_pong")),
        color: Some(s("#gggggg")),
    };
    // Pairs that are no hex byte read as 0, as the colour was always read.
    assert!(create_tag_script(&t).unwrap().contains("tag.color = Color(0, 0, 0)\n"));
    let t = CreateTagParams { color: None, ..t };
    assert!(create_tag_script(&t).unwrap().contains("AniDir.PING_PONG"));
}

#[test]
fn export_arguments_and_replies() {
    let p = ExportSpriteParams {
        file_path: s("a.ase"),
        output_path: s("a.png"),
        scale: Some(2),
        layer: None,
        tag: Some(s("walk")),
    };
    assert_eq!(
        export_sprite_args(&p, "/out/a.png"),
        vec![s("a.ase"), s("--scale"), s("2"), s("--tag"), s("walk"), s("--save-as"), s("/out/a.png")]
    );
    let ok = Ok(ScriptOutput { stdout: s(""), stderr: s(""), success: true });
    assert_eq!(export_sprite_reply(&ok, "a.ase", "/out/a.png"), Ok(s("Exported a.ase -> /out/a.png")));
    assert_eq!(
        export_sprite_reply(&Err(RunError::SpawnFailed(s("x"))), "a.ase", "b.png"),
        Err(s("Export failed: Failed to spawn Aseprite process"))
    );
    let sheet = ExportSpritesheetParams {
        file_path: s("a.ase"),
        output_image: s("s.png"),
        output_data: Some(s("s.json")),
        sheet_type: None,
        columns: Some(4),
        trim: Some(true),
    };
    assert_eq!(
        export_spritesheet_args(&sheet, "s.png", Some("s.json")),
        vec![s("a.ase"), s("--sheet"), s("s.png"), s("--data"), s("s.json"), s("--sheet-columns"), s("4"), s("--trim")]
    );
    assert_eq!(
        export_spritesheet_reply(&ok, "s.png", Some("s.json")),
        Ok(s("Spritesheet exported: s.png, data: s.json"))
    );
    let failed = Ok(ScriptOutput { stdout: s(""), stderr: s("no such file"), success: false });
    assert_eq!(export_spritesheet_reply(&failed, "s.png", None), Err(s("Error: no such file")));
}

#[test]
fn case_folded_names() {
    assert_eq!(blend_mode_for("color_dodge"), "BlendMode.COLOR_DODGE");
    assert_eq!(blend_mode_for("Multiply"), "BlendMode.NORMAL");
    assert_eq!(color_format_for("grayscale"), Some(s("gray")));
    assert_eq!(color_format_for("rgb"), Some(s("rgb")));
    assert_eq!(color_format_for("RGB"), None);
    assert!(is_flip_direction("vertical"));
    assert!(!is_flip_direction("Vertical"));
}

#[test]
fn lenient_colour_reading() {
    assert_eq!(read_hex_rgb("#+f0a0b"), Some((15, 10, 11)));
    assert_eq!(read_hex_rgb("-1ff00"), Some((0, 255, 0)));
    assert_eq!(read_hex_rgb("#zz0000"), Some((0, 0, 0)));
    assert_eq!(read_hex_rgb("##FF8000"), Some((255, 128, 0)));
    assert_eq!(read_hex_rgb("#ff00"), None);
    assert_eq!(read_hex_rgb("éééé"), Some((0, 0, 0)));
    assert_eq!(read_hex_rgb("aéaaaa"), None);
    assert_eq!(read_hex_rgba("#ff000080"), Some((255, 0, 0, 128)));
    assert_eq!(read_hex_rgba("#ff0000zz"), Some((255, 0, 0, 255)));
    assert_eq!(read_hex_rgba("#ff00001"), Some((255, 0, 0, 255)));
    assert_eq!(read_hex_rgba("#ff0000é"), Some((255, 0, 0, 255)));
    assert_eq!(read_hex_rgba("#ff0000aé"), None);
    assert_eq!(read_hex_rgba("#ff0000"), Some((255, 0, 0, 255)));
}

#[test]
fn slice_colour_is_left_out_when_short_and_fails_only_where_it_cannot_be_cut() {
    let base = CreateSliceParams {
        file_path: s("a"),
        name: s("btn"),
        x: 0,
        y: 0,
        width: 1,
        height: 1,
        center: None,
        pivot: None,
        color: Some(s("#fff")),
        data: None,
    };
    let r = create_slice_script(&base).unwrap();
    assert!(!r.contains("slice.color"));
    let odd = CreateSliceParams { color: Some(s("#12345z")), ..base };
    assert!(create_slice_script(&odd).unwrap().contains("slice.color = Color(18, 52, 0, 255)\n"));
    let cut = CreateSliceParams { color: Some(s("aéaaaa")), ..odd };
    assert_eq!(
        create_slice_script(&cut),
        Err(s("Invalid color 'aéaaaa': cannot read it as #rrggbb or #rrggbbaa"))
    );
}

#[test]
fn effects_and_palette_read_colours_leniently() {
    let r = replace_color_script(&ReplaceColorParams {
        file_path: s("a"),
        from_color: s("#gg0000"),
        to_color: s("#00ff00"),
        tolerance: None,
    });
    assert!(r.is_ok());
    assert_eq!(
        outline_script(&OutlineParams { file_path: s("a"), color: s("#abc"), layer: None, frame: None }),
        Err(s("Invalid color '#abc': cannot read it as #rrggbb or #rrggbbaa"))
    );
    let pal = set_palette_color_script(&SetPaletteColorParams {
        file_path: s("a"),
        colors: vec![PaletteEntry { index: 3, color: s("#zz00ff") }],
    })
    .unwrap();
    assert!(pal.contains("    pal:setColor(3, Color(0, 0, 255, 255))\n"));
}
