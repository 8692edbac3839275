//! The collaborators: the font model, its reader, the glyph-retention
//! transform, the compiler, the interpolation engine and the layer writer.
//!
//! Nothing in this file is proved. Each function below calls into another
//! crate, or into a part of std that comes without a contract, and states of
//! the call what the rest of the library relies on.
//!
//! Three of the collaborators give up on some inputs instead of answering,
//! and what they answer can differ from one run to the next. Each of them is
//! therefore described by a relation between what it is given and what it may
//! answer. The relation holds of no answer at all where the collaborator
//! gives up, so "there is an answer" is the condition under which it may be
//! called.

use vstd::prelude::*;
use vstd::string::*;
use vstd::utf8::*;
use babelfont::convertors::fontir::BabelfontIrSource;
use babelfont::filters::{FontFilter, RetainGlyphs};
use babelfont::{Font, Layer};
use fontdrasil::coords::{DesignCoord, DesignLocation};
use write_fonts::types::Tag;
use crate::compile::retained;
use crate::location::Location;
use crate::options::{texts, CompilationOptions};
use crate::tag::{decodable, padded};

verus! {

/// A parsed font source of babelfont: glyphs, masters, axes and metadata.
/// The library holds such a value and hands it on; it never looks inside.
#[verifier::external_type_specification]
#[verifier::external_body]
pub struct ExFont(babelfont::Font);

/// A layer of babelfont: the outline of one glyph at one location.
#[verifier::external_type_specification]
#[verifier::external_body]
pub struct ExLayer(babelfont::Layer);

/// The marker of fontdrasil for coordinates in design space.
#[verifier::external_type_specification]
#[verifier::external_body]
pub struct ExDesignSpace(fontdrasil::coords::DesignSpace);

/// A coordinate of fontdrasil on one axis, in the space `Space`.
#[verifier::external_type_specification]
#[verifier::external_body]
#[verifier::reject_recursive_types(Space)]
pub struct ExCoord<Space>(fontdrasil::coords::Coord<Space>);

/// `Clone::clone` as derived for `babelfont::Font`: the copy holds what the
/// font holds, field by field.
pub assume_specification[ <babelfont::Font as Clone>::clone ](font: &babelfont::Font) -> (copy:
    babelfont::Font)
    ensures
        copy == *font,
;

/// How many masters `font` has.
pub uninterp spec fn master_count(font: babelfont::Font) -> nat;

/// The length of the font's public list of masters.
#[verifier::external_body]
pub(crate) fn count_masters(font: &Font) -> (count: usize)
    ensures
        count == master_count(*font),
{
    font.masters.len()
}

/// What the reader may make of a text: `reads_to(text, outcome)` holds where
/// reading `text` may give `outcome`, a font or the display text of the
/// reader's error.
pub uninterp spec fn reads_to(text: Seq<char>, outcome: Result<babelfont::Font, Seq<char>>) -> bool;

/// True of the texts that the reader takes for a font description.
pub open spec fn is_font_text(text: Seq<char>) -> bool {
    exists|font: babelfont::Font| #[trigger]
        reads_to(text, Ok::<babelfont::Font, Seq<char>>(font))
}

/// `serde_json::from_str` at `babelfont::Font`. A refusal comes back as the
/// display text of the reader's error. Whether the reader takes a text
/// depends on the text alone. The font it builds does not: the reader fills
/// some of the font's tables in the order of a hashed map, and where several
/// entries are at fault that order picks the one it complains of.
#[verifier::external_body]
pub(crate) fn read_font(text: &str) -> (outcome: Result<Font, String>)
    ensures
        match outcome {
            Ok(font) => reads_to(text@, Ok(font)),
            Err(diagnostic) => reads_to(text@, Err(diagnostic@)),
        },
        outcome is Ok <==> is_font_text(text@),
{
    serde_json::from_str::<Font>(text).map_err(|e| e.to_string())
}

/// The names of the font's glyphs, in the order of the font's glyph list.
pub uninterp spec fn glyph_names(font: babelfont::Font) -> Seq<Seq<char>>;

/// What the glyph-retention transform may make of a font:
/// `narrows_to(before, names, after, outcome)` holds where the transform,
/// given `before` and `names`, answers in every run, and may leave the font
/// as `after` and answer `outcome`, nothing or the debug text of its error.
pub uninterp spec fn narrows_to(
    before: babelfont::Font,
    names: Seq<Seq<char>>,
    after: babelfont::Font,
    outcome: Result<(), Seq<char>>,
) -> bool;

/// True where the transform answers on `font` and `names`.
pub open spec fn filter_returns(font: babelfont::Font, names: Seq<Seq<char>>) -> bool {
    exists|after: babelfont::Font, outcome: Result<(), Seq<char>>| #[trigger]
        narrows_to(font, names, after, outcome)
}

/// `RetainGlyphs::new` and `FontFilter::apply` of babelfont: drops every
/// glyph that is not named, and what depended on it. A refusal comes back as
/// the debug text of the filter's error.
///
/// The filter first rewrites the feature code and the outlines of composite
/// glyphs, and may fail there; neither step adds, drops, renames or moves a
/// glyph. Only then, as the one step that touches the glyph list and one that
/// cannot fail, it keeps of that list what is named. Of the font's other
/// parts nothing is stated. The filter's pass over the feature code gives up
/// on some glyph ranges: such fonts are left out.
#[verifier::external_body]
pub(crate) fn retain_glyphs(font: &mut Font, names: Vec<String>) -> (outcome: Result<(), String>)
    requires
        filter_returns(*old(font), texts(names@)),
    ensures
        match outcome {
            Ok(_) => narrows_to(
                *old(font),
                texts(names@),
                *final(font),
                Ok::<(), Seq<char>>(()),
            ),
            Err(diagnostic) => narrows_to(
                *old(font),
                texts(names@),
                *final(font),
                Err::<(), Seq<char>>(diagnostic@),
            ),
        },
        outcome is Ok ==> glyph_names(*final(font)) == retained(
            glyph_names(*old(font)),
            texts(names@),
        ),
        outcome is Err ==> glyph_names(*final(font)) == glyph_names(*old(font)),
{
    RetainGlyphs::new(names).apply(font).map_err(|e| format!("{:?}", e))
}

/// What the compiler may make of a font: `compiles_to(font, options,
/// outcome)` holds where the compiler, given `font` and `options`, answers in
/// every run, and may answer `outcome`, the bytes of a binary font or the
/// debug text of its error.
pub uninterp spec fn compiles_to(
    font: babelfont::Font,
    options: CompilationOptions,
    outcome: Result<Seq<u8>, Seq<char>>,
) -> bool;

/// True where the compiler answers on `font` and `options`.
pub open spec fn compiler_returns(font: babelfont::Font, options: CompilationOptions) -> bool {
    exists|outcome: Result<Seq<u8>, Seq<char>>| #[trigger] compiles_to(font, options, outcome)
}

/// `BabelfontIrSource::compile` of babelfont, with the switches of `options`
/// and the compiler's defaults for what it offers beyond them. A refusal
/// comes back as the debug text of the compiler's error. The bytes are no
/// function of font and switches: the compiler stamps them with the time at
/// which it ran. The compiler asserts on entry that the font has a master,
/// runs the glyph-retention transform over the exported glyphs, and its work
/// items give up on sources that contradict each other: such fonts are left
/// out.
#[verifier::external_body]
pub(crate) fn run_compiler(font: Font, options: CompilationOptions) -> (outcome: Result<
    Vec<u8>,
    String,
>)
    requires
        master_count(font) > 0,
        compiler_returns(font, options),
    ensures
        match outcome {
            Ok(bytes) => compiles_to(font, options, Ok(bytes@)),
            Err(diagnostic) => compiles_to(font, options, Err(diagnostic@)),
        },
{
    let options = babelfont::convertors::fontir::CompilationOptions {
        skip_kerning: options.skip_kerning,
        skip_features: options.skip_features,
        skip_metrics: options.skip_metrics,
        skip_outlines: options.skip_outlines,
        dont_use_production_names: options.dont_use_production_names,
        ..Default::default()
    };
    BabelfontIrSource::compile(font, options).map_err(|e| format!("{:?}", e))
}

/// What the interpolation engine may make of a glyph:
/// `interpolates_to(font, glyph_name, location, outcome)` holds where the
/// engine, given these, answers in every run, and may answer `outcome`, a
/// layer or the debug text of its error.
pub uninterp spec fn interpolates_to(
    font: babelfont::Font,
    glyph_name: Seq<char>,
    location: Seq<(Seq<char>, DesignCoord)>,
    outcome: Result<babelfont::Layer, Seq<char>>,
) -> bool;

/// True where the engine answers on `font`, `glyph_name` and `location`.
pub open spec fn engine_returns(
    font: babelfont::Font,
    glyph_name: Seq<char>,
    location: Seq<(Seq<char>, DesignCoord)>,
) -> bool {
    exists|outcome: Result<babelfont::Layer, Seq<char>>| #[trigger]
        interpolates_to(font, glyph_name, location, outcome)
}

/// `Font::interpolate_glyph` of babelfont at the design location that holds
/// the entries of `location`; of a tag that is given twice the location keeps
/// the last coordinate. A refusal comes back as the debug text of the
/// engine's error. The layer is no function of what the engine is given: the
/// engine walks the glyph's anchors in the order of a hashed set. Where the
/// axes of the font and the coordinates of the location are so far apart that
/// their differences overflow, the engine gives up: such requests are left
/// out.
#[verifier::external_body]
pub(crate) fn run_interpolation(font: &Font, glyph_name: &str, location: &Location) -> (outcome:
    Result<Layer, String>)
    requires
        engine_returns(*font, glyph_name@, location@),
    ensures
        match outcome {
            Ok(layer) => interpolates_to(*font, glyph_name@, location@, Ok(layer)),
            Err(diagnostic) => interpolates_to(*font, glyph_name@, location@, Err(diagnostic@)),
        },
{
    let at: DesignLocation =
        location.entries.iter().map(|entry| (Tag::new(&entry.0.bytes), entry.1)).collect();
    font.interpolate_glyph(glyph_name, &at).map_err(|e| format!("{:?}", e))
}

/// What the writer makes of a layer: its text, or the display text of the
/// writer's error.
pub uninterp spec fn layer_text(layer: babelfont::Layer) -> Result<Seq<char>, Seq<char>>;

/// `serde_json::to_string` at `babelfont::Layer`. A refusal comes back as the
/// display text of the writer's error. The answer depends on the layer alone:
/// every list and every map in a layer is written in the order it has.
#[verifier::external_body]
pub(crate) fn write_layer(layer: &Layer) -> (outcome: Result<String, String>)
    ensures
        match outcome {
            Ok(text) => layer_text(*layer) == Ok::<Seq<char>, Seq<char>>(text@),
            Err(diagnostic) => layer_text(*layer) == Err::<Seq<char>, Seq<char>>(diagnostic@),
        },
{
    serde_json::to_string(layer).map_err(|e| e.to_string())
}

/// The decoder's own words on a key that it does not take.
pub uninterp spec fn decode_fault(key: Seq<char>) -> Seq<char>;

/// `Tag::from_str` of font-types, reached as `write_fonts::types::Tag`.
///
/// The decoder reads the key's UTF-8 bytes. It takes them exactly where
/// [`decodable`] holds, and then answers with the bytes padded to four with
/// spaces. On any other key it answers with an error, whose display text is
/// handed back; that text depends on the key alone.
#[verifier::external_body]
pub(crate) fn decode_tag(key: &str) -> (outcome: Result<[u8; 4], String>)
    ensures
        outcome is Ok <==> decodable(key.spec_bytes()),
        outcome matches Ok(bytes) ==> bytes@ == padded(key.spec_bytes()),
        outcome matches Err(reason) ==> reason@ == decode_fault(key@),
{
    key.parse::<Tag>().map(|tag| tag.into_bytes()).map_err(|e| e.to_string())
}

/// `String::from_utf8` of std: the text that `bytes` encode, where they are the
/// UTF-8 encoding of one.
#[verifier::external_body]
pub(crate) fn utf8_text(bytes: Vec<u8>) -> (text: Option<String>)
    ensures
        text is Some <==> valid_utf8(bytes@),
        text matches Some(decoded) ==> decoded@ == decode_utf8(bytes@),
{
    String::from_utf8(bytes).ok()
}

} // verus!
