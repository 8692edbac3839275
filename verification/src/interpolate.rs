//! From a glyph name and a location to the glyph's layer at that location.

use vstd::prelude::*;
use babelfont::{Font, Layer};
use fontdrasil::coords::DesignCoord;
use crate::cache::{refusal, FontCache};
use crate::engine::{engine_returns, interpolates_to, layer_text, run_interpolation, write_layer};
use crate::error::{reports, settle, Error, Stage};
use crate::location::{keyed, parse_location, parsed};

verus! {

/// What is made of the engine's answer: its refusal is reported as
/// `InterpolationError` with its words; its layer is written out, and the
/// answer is the writer's text, or the writer's refusal reported as
/// `SerializationError` with its words.
pub open spec fn is_layer_answer(outcome: Result<Layer, Seq<char>>, answer: Result<String, Error>) -> bool {
    match outcome {
        Err(diagnostic) => reports(Stage::Interpolation, diagnostic, answer),
        Ok(layer) => match layer_text(layer) {
            Ok(text) => answer matches Ok(given) && given@ == text,
            Err(diagnostic) => reports(Stage::Serialization, diagnostic, answer),
        },
    }
}

/// Turns the engine's answer into the answer of the request.
pub fn layer_answer(outcome: Result<Layer, String>) -> (answer: Result<String, Error>)
    ensures
        match outcome {
            Ok(layer) => is_layer_answer(Ok(layer), answer),
            Err(diagnostic) => is_layer_answer(Err(diagnostic@), answer),
        },
{
    match settle(Stage::Interpolation, outcome) {
        Err(error) => Err(error),
        Ok(layer) => settle(Stage::Serialization, write_layer(&layer)),
    }
}

/// True where the engine does not give up on the request: where the location
/// was read and every key of it is an axis tag, the engine answers on it.
pub open spec fn can_interpolate(
    font: Font,
    glyph_name: Seq<char>,
    location: Result<Vec<(String, DesignCoord)>, String>,
) -> bool {
    location matches Ok(entries) ==> (parsed(keyed(entries@)) matches Ok(pairs) ==> engine_returns(
        font,
        glyph_name,
        pairs,
    ))
}

/// True of every answer to interpolating `glyph_name` of `font` at
/// `location`.
///
/// `location` is what reading the caller's mapping gave: its entries, or the
/// reader's diagnostic. A mapping that could not be read and a key that is no
/// axis tag each decide the answer by themselves. Past those, the answer is
/// what [`is_layer_answer`] makes of an answer of the engine to this font,
/// this glyph name and the location as it was read.
pub open spec fn is_interpolation_answer(
    font: Font,
    glyph_name: Seq<char>,
    location: Result<Vec<(String, DesignCoord)>, String>,
    answer: Result<String, Error>,
) -> bool {
    match location {
        Err(diagnostic) => reports(Stage::LocationParse, diagnostic@, answer),
        Ok(entries) => match parsed(keyed(entries@)) {
            Err(fault) => answer matches Err(error) && error@ == fault,
            Ok(pairs) => exists|outcome: Result<Layer, Seq<char>>| #[trigger]
                interpolates_to(font, glyph_name, pairs, outcome) && is_layer_answer(
                    outcome,
                    answer,
                ),
        },
    }
}

/// Interpolates the glyph `glyph_name` of `font` at `location` and writes the
/// layer out as text. The engine is asked only once the location is read and
/// every key of it is an axis tag.
///
/// The engine gives up on some locations. Those are not to be passed.
pub fn interpolate_at(
    font: &Font,
    glyph_name: &str,
    location: Result<Vec<(String, DesignCoord)>, String>,
) -> (answer: Result<String, Error>)
    requires
        can_interpolate(*font, glyph_name@, location),
    ensures
        is_interpolation_answer(*font, glyph_name@, location, answer),
{
    match settle(Stage::LocationParse, location) {
        Err(error) => Err(error),
        Ok(entries) => match parse_location(&entries) {
            Err(error) => Err(error),
            Ok(at) => layer_answer(run_interpolation(font, glyph_name, &at)),
        },
    }
}

/// Interpolates a glyph of the cached font. The cache is left as it was.
///
/// The location is not to be one on which the engine gives up with the
/// cached font.
pub fn interpolate_glyph(
    cache: &mut FontCache,
    glyph_name: &str,
    location: Result<Vec<(String, DesignCoord)>, String>,
) -> (result: Result<String, Error>)
    requires
        old(cache)@ matches Some(font) ==> can_interpolate(font, glyph_name@, location),
    ensures
        final(cache)@ == old(cache)@,
        match old(cache)@ {
            None => result matches Err(error) && Some(error@) == refusal(old(cache)@),
            Some(font) => is_interpolation_answer(font, glyph_name@, location, result),
        },
{
    let ghost asked = location;
    let on_font = |font: &Font| -> (answer: Result<String, Error>)
        requires
            can_interpolate(*font, glyph_name@, asked),
        ensures
            is_interpolation_answer(*font, glyph_name@, asked, answer),
        { interpolate_at(font, glyph_name, location) };
    match cache.with_cached(on_font) {
        Ok(answer) => answer,
        Err(refused) => Err(refused),
    }
}

} // verus!
