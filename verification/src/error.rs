//! The failures a request can end in, and the text each is reported with.

use vstd::prelude::*;
use vstd::string::*;

verus! {

/// Why a request failed.
///
/// Every variant but `NotCached` and `Superseded` carries the diagnostic of
/// the collaborator that refused, word for word.
#[derive(Debug, PartialEq, Eq)]
pub enum Error {
    /// The font description could not be read.
    ParseError(String),
    /// The glyph-retention transform failed.
    SubsetError(String),
    /// The compiler could not build the font.
    CompilationError(String),
    /// A request needed the cached font and the cache was empty.
    NotCached,
    /// A key of the location mapping is no axis tag.
    InvalidTag { key: String, reason: String },
    /// The location mapping itself could not be read.
    LocationParseError(String),
    /// The interpolation engine could not produce the layer.
    InterpolationError(String),
    /// The interpolated layer could not be written out as text.
    SerializationError(String),
    /// The entry point is kept for old callers only and does no work.
    Superseded,
}

/// An [`Error`] as a mathematical value: the same cases, over sequences of
/// characters.
pub ghost enum Fault {
    ParseError(Seq<char>),
    SubsetError(Seq<char>),
    CompilationError(Seq<char>),
    NotCached,
    InvalidTag { key: Seq<char>, reason: Seq<char> },
    LocationParseError(Seq<char>),
    InterpolationError(Seq<char>),
    SerializationError(Seq<char>),
    Superseded,
}

impl View for Error {
    type V = Fault;

    open spec fn view(&self) -> Fault {
        match *self {
            Error::ParseError(d) => Fault::ParseError(d@),
            Error::SubsetError(d) => Fault::SubsetError(d@),
            Error::CompilationError(d) => Fault::CompilationError(d@),
            Error::NotCached => Fault::NotCached,
            Error::InvalidTag { key, reason } => Fault::InvalidTag { key: key@, reason: reason@ },
            Error::LocationParseError(d) => Fault::LocationParseError(d@),
            Error::InterpolationError(d) => Fault::InterpolationError(d@),
            Error::SerializationError(d) => Fault::SerializationError(d@),
            Error::Superseded => Fault::Superseded,
        }
    }
}

impl Fault {
    /// The text a caller is shown: a fixed lead-in for the kind of failure,
    /// then the collaborator's diagnostic.
    pub open spec fn text(self) -> Seq<char> {
        match self {
            Fault::ParseError(d) => "JSON parse error: "@ + d,
            Fault::SubsetError(d) => "Subsetting failed: "@ + d,
            Fault::CompilationError(d) => "Compilation failed: "@ + d,
            Fault::NotCached => "No font cached. Call store_font() first."@,
            Fault::InvalidTag { key, reason } => "Invalid tag '"@ + key + "': "@ + reason,
            Fault::LocationParseError(d) => "Location parse error: "@ + d,
            Fault::InterpolationError(d) => "Interpolation failed: "@ + d,
            Fault::SerializationError(d) => "Serialization error: "@ + d,
            Fault::Superseded => "Please use compile_babelfont() instead."@,
        }
    }
}

/// `lead` followed by `diagnostic`.
fn lead_in(lead: &str, diagnostic: &String) -> (text: String)
    ensures
        text@ == lead@ + diagnostic@,
{
    String::from_str(lead).concat(diagnostic.as_str())
}

impl Error {
    /// The text this failure is reported with.
    pub fn message(&self) -> (text: String)
        ensures
            text@ == self@.text(),
    {
        match self {
            Error::ParseError(d) => lead_in("JSON parse error: ", d),
            Error::SubsetError(d) => lead_in("Subsetting failed: ", d),
            Error::CompilationError(d) => lead_in("Compilation failed: ", d),
            Error::NotCached => String::from_str("No font cached. Call store_font() first."),
            Error::InvalidTag { key, reason } => {
                let named = lead_in("Invalid tag '", key).concat("': ");
                named.concat(reason.as_str())
            },
            Error::LocationParseError(d) => lead_in("Location parse error: ", d),
            Error::InterpolationError(d) => lead_in("Interpolation failed: ", d),
            Error::SerializationError(d) => lead_in("Serialization error: ", d),
            Error::Superseded => String::from_str("Please use compile_babelfont() instead."),
        }
    }
}

/// The step of a request at which a collaborator is asked to do work.
#[derive(Clone, Copy, Debug, PartialEq, Eq, Structural)]
pub enum Stage {
    Parse,
    Subset,
    Compilation,
    LocationParse,
    Interpolation,
    Serialization,
}

impl Stage {
    /// The failure that a refusal at this stage is reported as.
    pub open spec fn fault(self, diagnostic: Seq<char>) -> Fault {
        match self {
            Stage::Parse => Fault::ParseError(diagnostic),
            Stage::Subset => Fault::SubsetError(diagnostic),
            Stage::Compilation => Fault::CompilationError(diagnostic),
            Stage::LocationParse => Fault::LocationParseError(diagnostic),
            Stage::Interpolation => Fault::InterpolationError(diagnostic),
            Stage::Serialization => Fault::SerializationError(diagnostic),
        }
    }

    /// Wraps a collaborator's diagnostic in the failure of this stage.
    pub fn failure(self, diagnostic: String) -> (error: Error)
        ensures
            error@ == self.fault(diagnostic@),
    {
        match self {
            Stage::Parse => Error::ParseError(diagnostic),
            Stage::Subset => Error::SubsetError(diagnostic),
            Stage::Compilation => Error::CompilationError(diagnostic),
            Stage::LocationParse => Error::LocationParseError(diagnostic),
            Stage::Interpolation => Error::InterpolationError(diagnostic),
            Stage::Serialization => Error::SerializationError(diagnostic),
        }
    }
}

/// True where `result` is the failure that a refusal with `diagnostic` at
/// `stage` is reported as.
pub open spec fn reports<T>(stage: Stage, diagnostic: Seq<char>, result: Result<T, Error>) -> bool {
    result matches Err(error) && error@ == stage.fault(diagnostic)
}

/// What the request makes of a collaborator's answer at `stage`: a value is
/// passed on untouched, a diagnostic becomes the failure of that stage.
pub open spec fn settled<T>(stage: Stage, outcome: Result<T, String>, result: Result<T, Error>) -> bool {
    match outcome {
        Ok(value) => result == Ok::<T, Error>(value),
        Err(diagnostic) => result is Err && result->Err_0@ == stage.fault(diagnostic@),
    }
}

/// Turns a collaborator's answer into the request's own terms.
pub fn settle<T>(stage: Stage, outcome: Result<T, String>) -> (result: Result<T, Error>)
    ensures
        settled(stage, outcome, result),
{
    match outcome {
        Ok(value) => Ok(value),
        Err(diagnostic) => Err(stage.failure(diagnostic)),
    }
}

} // verus!
