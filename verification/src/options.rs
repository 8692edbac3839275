//! From an options payload to the fixed record the compiler is given.

use vstd::prelude::*;
use crate::payload::{lookup, Payload};

verus! {

/// What to leave out of a compiled font. With every switch off the compiler
/// builds everything and names glyphs for production.
#[derive(Clone, Copy, Debug, PartialEq, Eq, Structural)]
pub struct CompilationOptions {
    pub skip_kerning: bool,
    pub skip_features: bool,
    pub skip_metrics: bool,
    pub skip_outlines: bool,
    pub dont_use_production_names: bool,
}

impl CompilationOptions {
    /// The record with every switch off.
    pub open spec fn all_off() -> CompilationOptions {
        CompilationOptions {
            skip_kerning: false,
            skip_features: false,
            skip_metrics: false,
            skip_outlines: false,
            dont_use_production_names: false,
        }
    }
}

impl Default for CompilationOptions {
    fn default() -> (options: CompilationOptions)
        ensures
            options == CompilationOptions::all_off(),
    {
        CompilationOptions {
            skip_kerning: false,
            skip_features: false,
            skip_metrics: false,
            skip_outlines: false,
            dont_use_production_names: false,
        }
    }
}

/// The switch `key` as `options` sets it: the field's value where the field
/// is there and is a boolean, `default` in every other case.
pub open spec fn spec_get_option(options: Payload, key: Seq<char>, default: bool) -> bool {
    match options.spec_field(key) {
        Some(Payload::Bool(flag)) => flag,
        _ => default,
    }
}

/// Reads one switch from an options payload. A payload without the field, a
/// field of another type and a payload that is no record all give `default`.
pub fn get_option(options: &Payload, key: &str, default: bool) -> (flag: bool)
    ensures
        flag == spec_get_option(*options, key@, default),
{
    match options.field(key) {
        Some(Payload::Bool(flag)) => *flag,
        _ => default,
    }
}

/// The record that `options` resolves to.
pub open spec fn resolved(options: Payload) -> CompilationOptions {
    CompilationOptions {
        skip_kerning: spec_get_option(options, "skip_kerning"@, false),
        skip_features: spec_get_option(options, "skip_features"@, false),
        skip_metrics: spec_get_option(options, "skip_metrics"@, false),
        skip_outlines: spec_get_option(options, "skip_outlines"@, false),
        dont_use_production_names: spec_get_option(options, "dont_use_production_names"@, false),
    }
}

/// Resolves an options payload. There is no payload on which this fails, and
/// a payload that was not passed resolves to the record with every switch
/// off.
pub fn resolve_options(options: &Payload) -> (record: CompilationOptions)
    ensures
        record == resolved(*options),
        options.is_absent() ==> record == CompilationOptions::all_off(),
{
    CompilationOptions {
        skip_kerning: get_option(options, "skip_kerning", false),
        skip_features: get_option(options, "skip_features", false),
        skip_metrics: get_option(options, "skip_metrics", false),
        skip_outlines: get_option(options, "skip_outlines", false),
        dont_use_production_names: get_option(options, "dont_use_production_names", false),
    }
}

/// True of the five names under which a switch is looked up.
pub open spec fn is_switch_name(key: Seq<char>) -> bool {
    ||| key == "skip_kerning"@
    ||| key == "skip_features"@
    ||| key == "skip_metrics"@
    ||| key == "skip_outlines"@
    ||| key == "dont_use_production_names"@
}

/// A payload that is no record resolves to the record with every switch off.
/// That covers the payload a host passes when it passes none.
pub proof fn lemma_defaults_without_fields(options: Payload)
    requires
        !(options is Record),
    ensures
        resolved(options) == CompilationOptions::all_off(),
{
}

/// A field that is there but holds no boolean resolves like a missing one.
pub proof fn lemma_wrong_type_is_default(options: Payload, key: Seq<char>, default: bool)
    requires
        !(options.spec_field(key) matches Some(Payload::Bool(_))),
    ensures
        spec_get_option(options, key, default) == default,
{
}

/// A field under a name that is no switch changes nothing about the record:
/// a record resolves as it did before such a field was set.
pub proof fn lemma_unknown_field_is_ignored(
    held: Vec<(String, Payload)>,
    extended: Vec<(String, Payload)>,
)
    requires
        extended@.len() > 0,
        extended@.drop_last() == held@,
        !is_switch_name(extended@.last().0@),
    ensures
        resolved(Payload::Record(extended)) == resolved(Payload::Record(held)),
{
    assert forall|key: Seq<char>| is_switch_name(key) implies lookup(extended@, key) == lookup(
        held@,
        key,
    ) by {}
    assert(is_switch_name("skip_kerning"@));
    assert(is_switch_name("skip_features"@));
    assert(is_switch_name("skip_metrics"@));
    assert(is_switch_name("skip_outlines"@));
    assert(is_switch_name("dont_use_production_names"@));
}

/// The name under which a host asks for a subset.
pub open spec fn subset_key() -> Seq<char> {
    "subset_glyphs"@
}

/// The texts among `items`, in their order; what is no text is passed over.
pub open spec fn text_items(items: Seq<Payload>) -> Seq<Seq<char>>
    decreases items.len(),
{
    if items.len() == 0 {
        Seq::empty()
    } else {
        let before = text_items(items.drop_last());
        match items.last() {
            Payload::Text(name) => before.push(name@),
            _ => before,
        }
    }
}

/// The glyph names that `options` asks to keep: the texts of the list under
/// `subset_glyphs`. A payload without such a list asks for none.
pub open spec fn spec_subset_glyphs(options: Payload) -> Seq<Seq<char>> {
    match options.spec_field(subset_key()) {
        Some(Payload::List(items)) => text_items(items@),
        _ => Seq::empty(),
    }
}

/// A payload that holds no list under `subset_glyphs` asks for no subset, and
/// so does one whose list holds no text.
pub proof fn lemma_no_names_without_list(options: Payload)
    requires
        match options.spec_field(subset_key()) {
            Some(Payload::List(items)) => forall|i: int|
                0 <= i < items@.len() ==> !(#[trigger] items@[i] is Text),
            _ => true,
        },
    ensures
        spec_subset_glyphs(options).len() == 0,
{
    if let Some(Payload::List(items)) = options.spec_field(subset_key()) {
        lemma_no_text_no_name(items@);
    }
}

/// A list without a text names no glyph.
proof fn lemma_no_text_no_name(items: Seq<Payload>)
    requires
        forall|i: int| 0 <= i < items.len() ==> !(#[trigger] items[i] is Text),
    ensures
        text_items(items).len() == 0,
    decreases items.len(),
{
    if items.len() > 0 {
        lemma_no_text_no_name(items.drop_last());
    }
}

/// Each name as a sequence of characters.
pub open spec fn texts(names: Seq<String>) -> Seq<Seq<char>> {
    names.map_values(|name: String| name@)
}

/// Reads the glyph names to keep from an options payload.
pub fn subset_glyphs(options: &Payload) -> (names: Vec<String>)
    ensures
        texts(names@) == spec_subset_glyphs(*options),
{
    let mut names: Vec<String> = Vec::new();
    match options.field("subset_glyphs") {
        Some(Payload::List(items)) => {
            let mut i: usize = 0;
            assert(items@.take(0) == Seq::<Payload>::empty());
            assert(texts(names@) == Seq::<Seq<char>>::empty());
            while i < items.len()
                invariant
                    i <= items.len(),
                    texts(names@) == text_items(items@.take(i as int)),
                decreases items.len() - i,
            {
                let ghost upto = items@.take(i + 1);
                assert(upto.last() == items@[i as int]);
                assert(upto.drop_last() == items@.take(i as int));
                match &items[i] {
                    Payload::Text(name) => {
                        let ghost before = names@;
                        names.push(name.clone());
                        assert(texts(names@) == texts(before).push(name@));
                    },
                    _ => {},
                }
                i = i + 1;
            }
            assert(items@.take(i as int) == items@);
            names
        },
        _ => {
            assert(texts(names@) == Seq::<Seq<char>>::empty());
            names
        },
    }
}

} // verus!
