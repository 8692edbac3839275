//! From a font and an options payload to a binary font.

use vstd::prelude::*;
use vstd::string::*;
use babelfont::Font;
use crate::cache::{refusal, FontCache};
use crate::engine::{
    compiler_returns, compiles_to, count_masters, filter_returns, glyph_names, is_font_text,
    master_count, narrows_to, read_font, reads_to, retain_glyphs, run_compiler,
};
use crate::error::{reports, settle, Error, Fault, Stage};
use crate::options::{
    resolve_options, resolved, spec_subset_glyphs, subset_glyphs, texts, CompilationOptions,
};
use crate::payload::Payload;

verus! {

/// What the compiler is spared: a font without a master is refused here.
pub open spec fn no_masters() -> Fault {
    Fault::CompilationError("the font has no masters"@)
}

/// What is left of the glyphs `present` once only those in `wanted` are
/// kept: the same names in the same order, without the ones not asked for.
pub open spec fn retained(present: Seq<Seq<char>>, wanted: Seq<Seq<char>>) -> Seq<Seq<char>> {
    present.filter(|name: Seq<char>| wanted.contains(name))
}

/// True of every answer to narrowing `before` to `names` that leaves the
/// font as `after`: the transform's own answer, its refusal reported as
/// `SubsetError` with its words.
pub open spec fn is_subset_answer(
    before: Font,
    names: Seq<Seq<char>>,
    after: Font,
    answer: Result<(), Error>,
) -> bool {
    exists|outcome: Result<(), Seq<char>>| #[trigger]
        narrows_to(before, names, after, outcome) && match outcome {
            Ok(_) => answer is Ok,
            Err(diagnostic) => reports(Stage::Subset, diagnostic, answer),
        }
}

/// Narrows `font` to the glyphs in `names`. An empty list asks for nothing:
/// the font passes through as it is. Any other list leaves the font with
/// those of its glyphs that the list names, in the order they had, unless
/// the transform fails: then no glyph has left the font.
///
/// The transform gives up on some fonts. Those are not to be passed with a
/// list that names a glyph.
pub fn apply_subset(font: &mut Font, names: Vec<String>) -> (result: Result<(), Error>)
    requires
        names@.len() > 0 ==> filter_returns(*old(font), texts(names@)),
    ensures
        names@.len() == 0 ==> result is Ok && *final(font) == *old(font),
        names@.len() > 0 ==> is_subset_answer(*old(font), texts(names@), *final(font), result),
        names@.len() > 0 && result is Ok ==> glyph_names(*final(font)) == retained(
            glyph_names(*old(font)),
            texts(names@),
        ),
        result matches Err(error) ==> error@ is SubsetError && names@.len() > 0 && glyph_names(
            *final(font),
        ) == glyph_names(*old(font)),
{
    if names.len() == 0 {
        Ok(())
    } else {
        settle(Stage::Subset, retain_glyphs(font, names))
    }
}

/// True of every answer to compiling `font`, narrowed already, with
/// `switches`: the refusal [`no_masters`] where the font has no master, else
/// the compiler's own answer to this font and these switches, its refusal
/// reported as `CompilationError` with its words.
pub open spec fn is_narrowed_answer(
    font: Font,
    switches: CompilationOptions,
    answer: Result<Vec<u8>, Error>,
) -> bool {
    if master_count(font) == 0 {
        answer matches Err(error) && error@ == no_masters()
    } else {
        exists|outcome: Result<Seq<u8>, Seq<char>>| #[trigger]
            compiles_to(font, switches, outcome) && match outcome {
                Ok(bytes) => answer matches Ok(given) && given@ == bytes,
                Err(diagnostic) => reports(Stage::Compilation, diagnostic, answer),
            }
    }
}

/// Compiles a font that needs no more narrowing. A font without a master is
/// refused before the compiler sees it.
///
/// The compiler gives up on some fonts. Those are not to be passed.
pub fn compile_narrowed(font: Font, switches: CompilationOptions) -> (result: Result<
    Vec<u8>,
    Error,
>)
    requires
        master_count(font) > 0 ==> compiler_returns(font, switches),
    ensures
        is_narrowed_answer(font, switches, result),
{
    if count_masters(&font) == 0 {
        Err(Error::CompilationError(String::from_str("the font has no masters")))
    } else {
        settle(Stage::Compilation, run_compiler(font, switches))
    }
}

/// True where neither the transform nor the compiler gives up on compiling
/// `font` under `options`: the transform answers where a subset is asked
/// for, and the compiler answers on every font that the transform may leave.
pub open spec fn can_compile(font: Font, options: Payload) -> bool {
    let names = spec_subset_glyphs(options);
    let switches = resolved(options);
    if names.len() == 0 {
        master_count(font) > 0 ==> compiler_returns(font, switches)
    } else {
        &&& filter_returns(font, names)
        &&& forall|after: Font, outcome: Result<(), Seq<char>>| #[trigger]
            narrows_to(font, names, after, outcome) && outcome is Ok && master_count(after) > 0
                ==> compiler_returns(after, switches)
    }
}

/// True of every answer to compiling `font` under `options`. Without a
/// subset the font goes to the compiler as it is. With one it is narrowed
/// first: a refusal of the transform is the answer, and otherwise the font
/// that the transform left goes to the compiler. The compiler is given the
/// switches that `options` resolve to.
pub open spec fn is_compile_answer(font: Font, options: Payload, answer: Result<Vec<u8>, Error>) -> bool {
    let names = spec_subset_glyphs(options);
    let switches = resolved(options);
    if names.len() == 0 {
        is_narrowed_answer(font, switches, answer)
    } else {
        exists|after: Font, outcome: Result<(), Seq<char>>| #[trigger]
            narrows_to(font, names, after, outcome) && match outcome {
                Ok(_) => is_narrowed_answer(after, switches, answer),
                Err(diagnostic) => reports(Stage::Subset, diagnostic, answer),
            }
    }
}

/// Compiles `font` as `options` asks: narrowed to the glyphs that the
/// payload names, if it names any, and with the switches that it resolves to.
pub fn compile_font(font: Font, options: &Payload) -> (result: Result<Vec<u8>, Error>)
    requires
        can_compile(font, *options),
    ensures
        is_compile_answer(font, *options, result),
{
    let mut narrowed = font;
    let names = subset_glyphs(options);
    assert(texts(names@).len() == names@.len());
    match apply_subset(&mut narrowed, names) {
        Err(error) => Err(error),
        Ok(()) => compile_narrowed(narrowed, resolve_options(options)),
    }
}

/// True of every answer to compiling the font description `text` under
/// `options`: a refusal of the reader reported as `ParseError` with its
/// words, else an answer to compiling a font that the reader may build.
pub open spec fn is_one_shot_answer(text: Seq<char>, options: Payload, answer: Result<Vec<u8>, Error>) -> bool {
    exists|outcome: Result<Font, Seq<char>>| #[trigger]
        reads_to(text, outcome) && match outcome {
            Ok(font) => is_compile_answer(font, options, answer),
            Err(diagnostic) => reports(Stage::Parse, diagnostic, answer),
        }
}

/// Whatever compiling a stored font answers, compiling its description in one
/// go may answer too: where `font` is a font that the reader may build from
/// `text`, every answer to compiling `font` under `options` is an answer to
/// compiling `text` under them.
pub proof fn lemma_stored_font_compiles_like_its_text(
    text: Seq<char>,
    font: Font,
    options: Payload,
    answer: Result<Vec<u8>, Error>,
)
    requires
        reads_to(text, Ok::<Font, Seq<char>>(font)),
        is_compile_answer(font, options, answer),
    ensures
        is_one_shot_answer(text, options, answer),
{
}

/// Compiles a font description in one go. The cache plays no part.
///
/// The description is not to be one of a font on which the transform or the
/// compiler gives up.
pub fn compile_babelfont(babelfont_json: &str, options: &Payload) -> (result: Result<
    Vec<u8>,
    Error,
>)
    requires
        forall|font: Font| #[trigger]
            reads_to(babelfont_json@, Ok::<Font, Seq<char>>(font)) ==> can_compile(font, *options),
    ensures
        is_one_shot_answer(babelfont_json@, *options, result),
        is_font_text(babelfont_json@) <==> !(result matches Err(error) && error@ is ParseError),
{
    match settle(Stage::Parse, read_font(babelfont_json)) {
        Err(error) => Err(error),
        Ok(font) => compile_font(font, options),
    }
}

/// Compiles the cached font. The compiler works on a copy: the cache keeps
/// the font as it was stored, whatever subset is asked for.
///
/// The cached font is not to be one on which the transform or the compiler
/// gives up.
pub fn compile_cached_font(cache: &mut FontCache, options: &Payload) -> (result: Result<
    Vec<u8>,
    Error,
>)
    requires
        old(cache)@ matches Some(font) ==> can_compile(font, *options),
    ensures
        final(cache)@ == old(cache)@,
        match old(cache)@ {
            None => result matches Err(error) && Some(error@) == refusal(old(cache)@),
            Some(font) => is_compile_answer(font, *options, result),
        },
{
    let on_copy = |font: &Font| -> (answer: Result<Vec<u8>, Error>)
        requires
            can_compile(*font, *options),
        ensures
            is_compile_answer(*font, *options, answer),
        { compile_font(font.clone(), options) };
    let compiled = cache.with_cached(on_copy);
    match compiled {
        Ok(bytes) => bytes,
        Err(refused) => Err(refused),
    }
}

/// The entry point of an earlier format. It compiles nothing and says so.
pub fn compile_glyphs(_glyphs_json: &str) -> (result: Result<Vec<u8>, Error>)
    ensures
        result matches Err(error) && error@ == Fault::Superseded,
{
    Err(Error::Superseded)
}

} // verus!
