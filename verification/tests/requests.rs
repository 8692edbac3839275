use babelfont::{
    Axis, DesignLocation, Features, Font, Glyph, Layer, LayerType, Master, MetricType,
    OutlinePen, PathBuilder, Shape, Tag, UserCoord,
};
use babelfont_fontc_web::{
    apply_subset, clear_font_cache, compile_babelfont, compile_cached_font, compile_font,
    compile_narrowed, interpolate_at, interpolate_glyph, layer_answer, store_font,
    CompilationOptions, Error, FontCache, Payload,
};
use fontdrasil::coords::DesignCoord;
use write_fonts::read::{FontRef, TableProvider};

fn square(size: f32) -> Shape {
    let mut pen = PathBuilder::new();
    pen.move_to(0.0, 0.0);
    pen.line_to(size, 0.0);
    pen.line_to(size, size);
    pen.line_to(0.0, size);
    pen.close();
    Shape::Path(pen.build().remove(0))
}

fn at_weight(weight: f64) -> DesignLocation {
    DesignLocation::from(vec![(Tag::new(b"wght"), DesignCoord::new(weight))])
}

fn two_master_font(glyph_names: &[&str]) -> Font {
    let mut font = Font::new();
    font.names.family_name = "Sample".into();
    let mut axis = Axis::new("Weight", Tag::new(b"wght"));
    axis.min = Some(UserCoord::new(400.0));
    axis.default = Some(UserCoord::new(400.0));
    axis.max = Some(UserCoord::new(700.0));
    font.axes.push(axis);
    font.masters.push(Master::new("Regular", "regular", at_weight(400.0)));
    font.masters.push(Master::new("Bold", "bold", at_weight(700.0)));
    for (index, name) in glyph_names.iter().enumerate() {
        let mut glyph = Glyph::new(name);
        glyph.exported = true;
        glyph.codepoints = vec![name.chars().next().unwrap() as u32];
        for (master, size, width) in [("regular", 100.0, 500.0), ("bold", 400.0, 800.0)] {
            let mut layer = Layer::new(width + index as f32);
            layer.active = true;
            layer.id = Some(master.to_string());
            layer.master = LayerType::DefaultForMaster(master.to_string());
            layer.shapes.push(square(size + index as f32));
            glyph.layers.push(layer);
        }
        font.glyphs.push(glyph);
    }
    font
}

fn sample_text() -> String {
    serde_json::to_string(&two_master_font(&["A", "B", "C"])).unwrap()
}

fn sample_cache() -> FontCache {
    let mut cache = FontCache::new();
    store_font(&mut cache, &sample_text()).unwrap();
    cache
}

fn record(fields: Vec<(&str, Payload)>) -> Payload {
    Payload::Record(fields.into_iter().map(|(key, value)| (key.to_string(), value)).collect())
}

fn subset_of(names: &[&str]) -> Payload {
    record(vec![(
        "subset_glyphs",
        Payload::List(names.iter().map(|name| Payload::Text(name.to_string())).collect()),
    )])
}

fn weight(value: f64) -> Result<Vec<(String, DesignCoord)>, String> {
    Ok(vec![("wght".to_string(), DesignCoord::new(value))])
}

/// The tables of a compiled font. In `head` the time of compilation and the
/// checksum that depends on it are blanked, so that two compilations of one
/// source compare equal whenever they were made.
fn tables(bytes: &[u8]) -> Vec<(String, Vec<u8>)> {
    let font = FontRef::new(bytes).unwrap();
    font.table_directory
        .table_records()
        .iter()
        .map(|record| {
            let tag = record.tag();
            let mut data = font.table_data(tag).unwrap().as_bytes().to_vec();
            if tag == write_fonts::types::Tag::new(b"head") {
                for at in (8..12).chain(28..36) {
                    data[at] = 0;
                }
            }
            (tag.to_string(), data)
        })
        .collect()
}

fn glyph_names(bytes: &[u8]) -> Vec<String> {
    let font = FontRef::new(bytes).unwrap();
    let count = font.maxp().unwrap().num_glyphs();
    let post = font.post().unwrap();
    (0..count)
        .map(|id| post.glyph_name(write_fonts::types::GlyphId16::new(id)).unwrap().to_string())
        .collect()
}

#[test]
fn new_cache_is_empty() {
    assert!(!FontCache::new().is_cached());
}

#[test]
fn store_fills_the_cache() {
    let mut cache = FontCache::new();
    cache.store(two_master_font(&["A"]));
    assert!(cache.is_cached());
    cache.clear();
    assert!(!cache.is_cached());
}

#[test]
fn store_font_fills_the_cache() {
    let mut cache = FontCache::new();
    assert!(store_font(&mut cache, &sample_text()).is_ok());
    assert!(cache.is_cached());
}

#[test]
fn store_font_refuses_what_is_no_font() {
    let mut cache = FontCache::new();
    match store_font(&mut cache, "{\"upm\": ") {
        Err(Error::ParseError(diagnostic)) => assert!(diagnostic.contains("EOF"), "{}", diagnostic),
        other => panic!("stored as {:?}", other),
    }
    assert!(!cache.is_cached());
    let refused = store_font(&mut cache, "[1, 2, 3]").unwrap_err();
    assert!(refused.message().starts_with("JSON parse error: "));
    assert!(!cache.is_cached());
}

#[test]
fn failed_store_keeps_the_font_that_was_there() {
    let mut cache = sample_cache();
    let before = interpolate_glyph(&mut cache, "A", weight(550.0)).unwrap();
    assert!(matches!(store_font(&mut cache, "not a font"), Err(Error::ParseError(_))));
    assert!(cache.is_cached());
    assert_eq!(interpolate_glyph(&mut cache, "A", weight(550.0)).unwrap(), before);
}

#[test]
fn later_store_replaces_the_font() {
    let mut cache = sample_cache();
    assert!(interpolate_glyph(&mut cache, "C", weight(500.0)).is_ok());
    let narrower = serde_json::to_string(&two_master_font(&["A"])).unwrap();
    store_font(&mut cache, &narrower).unwrap();
    assert!(matches!(
        interpolate_glyph(&mut cache, "C", weight(500.0)),
        Err(Error::InterpolationError(_))
    ));
    assert!(interpolate_glyph(&mut cache, "A", weight(500.0)).is_ok());
}

#[test]
fn with_cached_runs_on_the_held_font() {
    let mut cache = sample_cache();
    assert_eq!(cache.with_cached(|font| font.glyphs.len()).unwrap(), 3);
    assert!(cache.is_cached());
}

#[test]
fn with_cached_refuses_on_an_empty_cache() {
    let mut cache = FontCache::new();
    assert!(matches!(cache.with_cached(|font| font.glyphs.len()), Err(Error::NotCached)));
}

#[test]
fn clear_then_compile_is_not_cached() {
    let mut cache = sample_cache();
    clear_font_cache(&mut cache);
    assert!(!cache.is_cached());
    assert!(matches!(compile_cached_font(&mut cache, &Payload::Undefined), Err(Error::NotCached)));
    assert!(matches!(compile_cached_font(&mut cache, &subset_of(&["A"])), Err(Error::NotCached)));
}

#[test]
fn clear_then_interpolate_is_not_cached() {
    let mut cache = sample_cache();
    clear_font_cache(&mut cache);
    assert!(matches!(interpolate_glyph(&mut cache, "A", weight(550.0)), Err(Error::NotCached)));
}

#[test]
fn clear_of_an_empty_cache() {
    let mut cache = FontCache::new();
    clear_font_cache(&mut cache);
    assert!(!cache.is_cached());
    assert!(matches!(compile_cached_font(&mut cache, &Payload::Null), Err(Error::NotCached)));
}

#[test]
fn empty_cache_comes_before_a_bad_location() {
    let mut cache = FontCache::new();
    assert!(matches!(
        interpolate_glyph(&mut cache, "A", Err("no mapping".to_string())),
        Err(Error::NotCached)
    ));
    let bad = Ok(vec![("ww".to_string(), DesignCoord::new(1.0))]);
    assert!(matches!(interpolate_glyph(&mut cache, "A", bad), Err(Error::NotCached)));
}

#[test]
fn compile_once_gives_a_font() {
    let bytes = compile_babelfont(&sample_text(), &Payload::Undefined).unwrap();
    assert_eq!(glyph_names(&bytes), vec![".notdef", "A", "B", "C"]);
}

#[test]
fn compile_once_refuses_what_is_no_font() {
    match compile_babelfont("{", &Payload::Undefined) {
        Err(Error::ParseError(diagnostic)) => assert!(!diagnostic.is_empty()),
        other => panic!("compiled to {:?}", other),
    }
}

#[test]
fn compile_refuses_a_font_without_masters() {
    let mut font = two_master_font(&["A"]);
    font.masters.clear();
    match compile_font(font, &Payload::Undefined) {
        Err(Error::CompilationError(diagnostic)) => {
            assert_eq!(diagnostic, "the font has no masters")
        },
        other => panic!("compiled to {:?}", other),
    }
}

#[test]
fn stored_font_compiles_to_the_same_bytes() {
    let text = sample_text();
    let once = compile_babelfont(&text, &Payload::Undefined).unwrap();
    let mut cache = FontCache::new();
    store_font(&mut cache, &text).unwrap();
    let cached = compile_cached_font(&mut cache, &Payload::Undefined).unwrap();
    assert_eq!(tables(&cached), tables(&once));
    let again = compile_cached_font(&mut cache, &record(vec![])).unwrap();
    assert_eq!(tables(&again), tables(&once));
}

#[test]
fn empty_subset_list_changes_nothing() {
    let text = sample_text();
    let plain = compile_babelfont(&text, &Payload::Undefined).unwrap();
    let empty = compile_babelfont(&text, &subset_of(&[])).unwrap();
    assert_eq!(tables(&empty), tables(&plain));
    let no_texts = record(vec![("subset_glyphs", Payload::List(vec![Payload::Other]))]);
    assert_eq!(tables(&compile_babelfont(&text, &no_texts).unwrap()), tables(&plain));
}

#[test]
fn apply_subset_with_no_names_keeps_the_font() {
    let mut font = two_master_font(&["A", "B", "C"]);
    let before = serde_json::to_string(&font).unwrap();
    assert!(apply_subset(&mut font, vec![]).is_ok());
    assert_eq!(serde_json::to_string(&font).unwrap(), before);
}

#[test]
fn apply_subset_drops_the_other_glyphs() {
    let mut font = two_master_font(&["A", "B", "C"]);
    assert!(apply_subset(&mut font, vec!["A".to_string(), "C".to_string()]).is_ok());
    let kept: Vec<String> = font.glyphs.iter().map(|glyph| glyph.name.to_string()).collect();
    assert_eq!(kept, vec!["A", "C"]);
}

#[test]
fn apply_subset_keeps_the_order_of_the_font() {
    let mut font = two_master_font(&["A", "B", "C", "D"]);
    let wanted = ["D", "Z", "B", "D", "A"].iter().map(|name| name.to_string()).collect();
    assert!(apply_subset(&mut font, wanted).is_ok());
    let kept: Vec<String> = font.glyphs.iter().map(|glyph| glyph.name.to_string()).collect();
    assert_eq!(kept, vec!["A", "B", "D"]);
}

#[test]
fn apply_subset_of_no_glyph_the_font_has_empties_it() {
    let mut font = two_master_font(&["A", "B"]);
    assert!(apply_subset(&mut font, vec!["Z".to_string()]).is_ok());
    assert!(font.glyphs.is_empty());
}

#[test]
fn subset_fails_on_features_that_cannot_be_read() {
    let mut font = two_master_font(&["A", "B"]);
    font.features = Features::from_fea("feature liga {\n    sub A by ;;; {\n} liga;\n");
    let kept = apply_subset(&mut font, vec!["A".to_string()]).unwrap_err();
    assert!(matches!(kept, Error::SubsetError(_)), "{:?}", kept);
    assert!(kept.message().starts_with("Subsetting failed: "));
    let left: Vec<String> = font.glyphs.iter().map(|glyph| glyph.name.to_string()).collect();
    assert_eq!(left, vec!["A", "B"]);
}

#[test]
fn compile_reports_a_subset_that_failed() {
    let mut font = two_master_font(&["A", "B"]);
    font.features = Features::from_fea("feature liga {\n    sub A by ;;; {\n} liga;\n");
    let text = serde_json::to_string(&font).unwrap();
    assert!(matches!(
        compile_babelfont(&text, &subset_of(&["A"])),
        Err(Error::SubsetError(_))
    ));
    assert!(matches!(
        compile_babelfont(&text, &Payload::Undefined),
        Err(Error::CompilationError(_))
    ));
}

#[test]
fn compile_once_with_a_subset() {
    let bytes = compile_babelfont(&sample_text(), &subset_of(&["A", "B"])).unwrap();
    assert_eq!(glyph_names(&bytes), vec![".notdef", "A", "B"]);
}

#[test]
fn subset_passes_over_what_is_no_text() {
    let payload = record(vec![(
        "subset_glyphs",
        Payload::List(vec![Payload::Other, Payload::Text("B".to_string()), Payload::Null]),
    )]);
    let bytes = compile_babelfont(&sample_text(), &payload).unwrap();
    assert_eq!(glyph_names(&bytes), vec![".notdef", "B"]);
}

#[test]
fn subset_of_no_glyph_the_font_has() {
    let refused = compile_babelfont(&sample_text(), &subset_of(&["Z"])).unwrap_err();
    assert!(matches!(refused, Error::CompilationError(_)), "{:?}", refused);
    assert_eq!(refused.message(), "Compilation failed: the font has no masters");
}

#[test]
fn cached_compile_with_a_subset_keeps_the_cache_whole() {
    let mut cache = sample_cache();
    let before = interpolate_glyph(&mut cache, "C", weight(550.0)).unwrap();
    let bytes = compile_cached_font(&mut cache, &subset_of(&["A", "B"])).unwrap();
    assert_eq!(glyph_names(&bytes), vec![".notdef", "A", "B"]);
    assert_eq!(interpolate_glyph(&mut cache, "C", weight(550.0)).unwrap(), before);
    let whole = compile_cached_font(&mut cache, &Payload::Undefined).unwrap();
    assert_eq!(glyph_names(&whole), vec![".notdef", "A", "B", "C"]);
}

#[test]
fn interpolation_depends_on_the_location() {
    let mut cache = sample_cache();
    let regular = interpolate_glyph(&mut cache, "A", weight(400.0)).unwrap();
    let between = interpolate_glyph(&mut cache, "A", weight(550.0)).unwrap();
    assert_ne!(between, regular);
    let layer: Layer = serde_json::from_str(&between).unwrap();
    assert_eq!(layer.width, 650.0);
    let layer: Layer = serde_json::from_str(&regular).unwrap();
    assert_eq!(layer.width, 500.0);
}

#[test]
fn interpolation_is_repeatable() {
    let mut cache = sample_cache();
    let first = interpolate_glyph(&mut cache, "B", weight(600.0)).unwrap();
    let second = interpolate_glyph(&mut cache, "B", weight(600.0)).unwrap();
    assert_eq!(first, second);
}

#[test]
fn interpolation_refuses_a_short_tag() {
    let mut cache = sample_cache();
    let location = Ok(vec![("ww".to_string(), DesignCoord::new(550.0))]);
    match interpolate_glyph(&mut cache, "A", location) {
        Err(Error::InvalidTag { key, reason }) => {
            assert_eq!(key, "ww");
            assert_eq!(reason, "an axis tag has exactly 4 characters");
        },
        other => panic!("interpolated to {:?}", other),
    }
}

#[test]
fn interpolation_refuses_the_first_bad_key() {
    let mut cache = sample_cache();
    let location = Ok(vec![
        ("wght".to_string(), DesignCoord::new(550.0)),
        ("width".to_string(), DesignCoord::new(1.0)),
        ("ww".to_string(), DesignCoord::new(1.0)),
    ]);
    let refused = interpolate_glyph(&mut cache, "A", location).unwrap_err();
    assert_eq!(refused.message(), "Invalid tag 'width': Invalid length (5)");
}

#[test]
fn interpolation_refuses_a_mapping_that_was_not_read() {
    let mut cache = sample_cache();
    let refused =
        interpolate_glyph(&mut cache, "A", Err("expected value at line 1".to_string())).unwrap_err();
    assert!(matches!(&refused, Error::LocationParseError(d) if d == "expected value at line 1"));
    assert_eq!(refused.message(), "Location parse error: expected value at line 1");
}

#[test]
fn interpolation_of_an_unknown_glyph() {
    let mut cache = sample_cache();
    match interpolate_glyph(&mut cache, "Z", weight(550.0)) {
        Err(Error::InterpolationError(diagnostic)) => {
            assert!(diagnostic.contains("GlyphNotFound"), "{}", diagnostic)
        },
        other => panic!("interpolated to {:?}", other),
    }
}

#[test]
fn interpolate_at_needs_no_cache() {
    let font = two_master_font(&["A"]);
    let text = interpolate_at(&font, "A", weight(700.0)).unwrap();
    let layer: Layer = serde_json::from_str(&text).unwrap();
    assert_eq!(layer.width, 800.0);
    assert!(matches!(
        interpolate_at(&font, "A", Err("x".to_string())),
        Err(Error::LocationParseError(_))
    ));
}

/// What each switch leaves its mark on: whether the font has a `GPOS` table
/// and a `GSUB` table, the ascender in `hhea`, the length of `glyf` and the
/// name of the second glyph.
fn marks(text: &str, options: &Payload) -> (bool, bool, i16, usize, String) {
    let bytes = compile_babelfont(text, options).unwrap();
    let font = FontRef::new(&bytes).unwrap();
    let tag = |name: &[u8; 4]| write_fonts::types::Tag::new(name);
    (
        font.table_data(tag(b"GPOS")).is_some(),
        font.table_data(tag(b"GSUB")).is_some(),
        font.hhea().unwrap().ascender().to_i16(),
        font.table_data(tag(b"glyf")).unwrap().as_bytes().len(),
        glyph_names(&bytes)[1].clone(),
    )
}

#[test]
fn each_switch_reaches_the_compiler_as_itself() {
    let mut font = two_master_font(&["A", "B", "C"]);
    font.glyphs[0].production_name = Some("uni0041".into());
    for master in font.masters.iter_mut() {
        master.kerning.insert(("A".into(), "B".into()), -50);
        master.metrics.insert(MetricType::Ascender, 777);
        master.metrics.insert(MetricType::HheaAscender, 777);
    }
    font.features = Features::from_fea("feature liga {\n    sub A by B;\n} liga;\n");
    let text = serde_json::to_string(&font).unwrap();
    let on = |name: &str| record(vec![(name, Payload::Bool(true))]);

    let (kerning, features, ascender, outlines, second) = marks(&text, &Payload::Undefined);
    assert!(kerning && features);
    assert_eq!(ascender, 777);
    assert_eq!(second, "uni0041");
    let plain = (kerning, features, ascender, outlines, second);

    assert_eq!(marks(&text, &record(vec![])), plain);
    assert_eq!(marks(&text, &on("skip_nothing")), plain);
    assert_eq!(
        marks(&text, &on("skip_kerning")),
        (false, true, 777, outlines, "uni0041".to_string())
    );
    assert_eq!(
        marks(&text, &on("skip_features")),
        (true, false, 777, outlines, "uni0041".to_string())
    );
    let (kerning, features, ascender, glyf, second) = marks(&text, &on("skip_metrics"));
    assert!(kerning && features);
    assert_ne!(ascender, 777);
    assert_eq!((glyf, second.as_str()), (outlines, "uni0041"));
    let (kerning, features, ascender, glyf, second) = marks(&text, &on("skip_outlines"));
    assert!(kerning && features);
    assert!(glyf < outlines);
    assert_eq!((ascender, second.as_str()), (777, "uni0041"));
    assert_eq!(
        marks(&text, &on("dont_use_production_names")),
        (true, true, 777, outlines, "A".to_string())
    );
}

#[test]
fn compile_narrowed_refuses_a_font_without_masters() {
    let mut font = two_master_font(&["A"]);
    font.masters.clear();
    assert_eq!(
        compile_narrowed(font, CompilationOptions::default()),
        Err(Error::CompilationError("the font has no masters".to_string()))
    );
}

#[test]
fn compile_narrowed_compiles_the_font_as_it_is() {
    let font = two_master_font(&["A", "B", "C"]);
    let bytes = compile_narrowed(font, CompilationOptions::default()).unwrap();
    assert_eq!(glyph_names(&bytes), vec![".notdef", "A", "B", "C"]);
}

#[test]
fn compile_narrowed_takes_the_switches_it_is_given() {
    let length_of_glyf = |switches: CompilationOptions| {
        let bytes = compile_narrowed(two_master_font(&["A", "B"]), switches).unwrap();
        let font = FontRef::new(&bytes).unwrap();
        font.table_data(write_fonts::types::Tag::new(b"glyf")).unwrap().as_bytes().len()
    };
    let plain = CompilationOptions::default();
    let bare = CompilationOptions { skip_outlines: true, ..plain };
    assert!(length_of_glyf(bare) < length_of_glyf(plain));
}

#[test]
fn compile_reports_the_compiler_under_its_own_name() {
    let mut font = two_master_font(&["A", "B"]);
    font.features = Features::from_fea("feature liga {\n    sub A by ;;; {\n} liga;\n");
    match compile_narrowed(font, CompilationOptions::default()) {
        Err(Error::CompilationError(diagnostic)) => assert!(!diagnostic.is_empty()),
        other => panic!("compiled to {:?}", other),
    }
}

#[test]
fn layer_answer_reports_the_engine_in_its_words() {
    assert_eq!(
        layer_answer(Err("GlyphNotFound { glyph: \"Z\" }".to_string())),
        Err(Error::InterpolationError("GlyphNotFound { glyph: \"Z\" }".to_string()))
    );
    assert_eq!(
        layer_answer(Err(String::new())),
        Err(Error::InterpolationError(String::new()))
    );
}

#[test]
fn layer_answer_writes_the_layer_out() {
    let mut layer = Layer::new(512.0);
    layer.shapes.push(square(40.0));
    let expected = serde_json::to_string(&layer).unwrap();
    assert_eq!(layer_answer(Ok(layer)), Ok(expected));
}

#[test]
fn store_font_replaces_with_the_font_it_read() {
    let mut cache = sample_cache();
    let other = serde_json::to_string(&two_master_font(&["X", "Y"])).unwrap();
    store_font(&mut cache, &other).unwrap();
    let held: Vec<String> = cache
        .with_cached(|font| font.glyphs.iter().map(|glyph| glyph.name.to_string()).collect())
        .unwrap();
    assert_eq!(held, vec!["X", "Y"]);
}
