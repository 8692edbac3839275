//! The cache: one slot that holds at most one parsed font.

use vstd::prelude::*;
use babelfont::Font;
use crate::engine::{is_font_text, read_font, reads_to};
use crate::error::{reports, settle, Error, Fault, Stage};

verus! {

/// The single slot in which a parsed font waits for further requests.
///
/// The slot starts empty. A font enters it by [`FontCache::store`], is
/// replaced by a later store and leaves by [`FontCache::clear`]; nothing else
/// empties it. Whoever works on the cache holds it exclusively for as long as
/// one request takes.
pub struct FontCache {
    slot: Option<Font>,
}

impl View for FontCache {
    type V = Option<Font>;

    /// The font that the slot holds, if any.
    closed spec fn view(&self) -> Option<Font> {
        self.slot
    }
}

/// What a request that needs the cached font is answered with before any
/// work is done: the refusal `NotCached` on an empty slot, nothing on a full
/// one.
pub open spec fn refusal(slot: Option<Font>) -> Option<Fault> {
    match slot {
        None => Some(Fault::NotCached),
        Some(_) => None,
    }
}

/// The slot after [`FontCache::clear`], whatever it held.
pub open spec fn cleared(slot: Option<Font>) -> Option<Font> {
    None
}

/// Once the cache is cleared, a request that needs the cached font is
/// refused with `NotCached`, whatever the cache held before.
pub proof fn lemma_cleared_cache_refuses(slot: Option<Font>)
    ensures
        refusal(cleared(slot)) == Some(Fault::NotCached),
{
}

impl FontCache {
    /// An empty cache.
    pub fn new() -> (cache: FontCache)
        ensures
            cache@ is None,
    {
        FontCache { slot: None }
    }

    /// True where a font is held.
    pub fn is_cached(&self) -> (held: bool)
        ensures
            held == self@ is Some,
    {
        self.slot.is_some()
    }

    /// Puts `font` into the slot. What was held before is dropped.
    pub fn store(&mut self, font: Font)
        ensures
            final(self)@ == Some(font),
    {
        self.slot = Some(font);
    }

    /// Empties the slot.
    pub fn clear(&mut self)
        ensures
            final(self)@ is None,
            final(self)@ == cleared(old(self)@),
    {
        self.slot = None;
    }

    /// Runs `op` on the held font and hands back what it returns. On an
    /// empty slot `op` is not run. The slot is left as it was.
    pub fn with_cached<R, F: FnOnce(&Font) -> R>(&mut self, op: F) -> (result: Result<R, Error>)
        requires
            old(self)@ matches Some(font) ==> op.requires((&font,)),
        ensures
            final(self)@ == old(self)@,
            match old(self)@ {
                None => result matches Err(error) && Some(error@) == refusal(old(self)@),
                Some(font) => result matches Ok(value) && op.ensures((&font,), value),
            },
    {
        match &self.slot {
            None => Err(Error::NotCached),
            Some(font) => Ok(op(font)),
        }
    }
}

/// True of every way in which storing the font description `text` can end:
/// the slot holds a font that the reader may build from the text, or the
/// reader's refusal is reported as `ParseError` with its words and the slot
/// is as it was.
pub open spec fn is_store_answer(
    text: Seq<char>,
    before: Option<Font>,
    after: Option<Font>,
    answer: Result<(), Error>,
) -> bool {
    exists|outcome: Result<Font, Seq<char>>| #[trigger]
        reads_to(text, outcome) && match outcome {
            Ok(font) => answer is Ok && after == Some(font),
            Err(diagnostic) => reports(Stage::Parse, diagnostic, answer) && after == before,
        }
}

/// Reads a font description and puts the font into the cache, in place of
/// what was there. A description that cannot be read leaves the cache as it
/// was.
pub fn store_font(cache: &mut FontCache, babelfont_json: &str) -> (result: Result<(), Error>)
    ensures
        result is Ok <==> is_font_text(babelfont_json@),
        is_store_answer(babelfont_json@, old(cache)@, final(cache)@, result),
{
    match settle(Stage::Parse, read_font(babelfont_json)) {
        Ok(font) => {
            cache.store(font);
            Ok(())
        },
        Err(error) => Err(error),
    }
}

/// Empties the cache. This cannot fail.
pub fn clear_font_cache(cache: &mut FontCache)
    ensures
        final(cache)@ is None,
        final(cache)@ == cleared(old(cache)@),
{
    cache.clear();
}

} // verus!
