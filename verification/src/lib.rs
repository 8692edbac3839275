//! The request layer between a loosely typed host and a font compiler.
//!
//! A host stores a font description once and then compiles it, or asks for
//! single glyphs at locations of the design space, as often as it likes. What
//! the host passes is loosely typed. This library resolves it, decides which
//! collaborator is asked for what and in which order, and reports each
//! failure under a fixed name.

use vstd::prelude::*;
use vstd::string::*;

pub mod cache;
pub mod compile;
pub mod engine;
pub mod error;
pub mod interpolate;
pub mod location;
pub mod options;
pub mod payload;
pub mod tag;

pub use cache::{clear_font_cache, store_font, FontCache};
pub use compile::{
    apply_subset, compile_babelfont, compile_cached_font, compile_font, compile_glyphs,
    compile_narrowed,
};
pub use error::{settle, Error, Stage};
pub use interpolate::{interpolate_at, interpolate_glyph, layer_answer};
pub use location::{parse_location, Location};
pub use options::{get_option, resolve_options, subset_glyphs, CompilationOptions};
pub use payload::Payload;
pub use tag::{parse_tag, AxisTag};

verus! {

/// The name under which this library reports itself, and its release.
pub open spec fn spec_version() -> Seq<char> {
    "babelfont-fontc-web v"@ + "0.1.0"@
}

/// The library's name and release, as one line.
pub fn version() -> (line: String)
    ensures
        line@ == spec_version(),
{
    String::from_str("babelfont-fontc-web v").concat("0.1.0")
}

} // verus!
