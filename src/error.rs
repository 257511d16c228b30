use vstd::prelude::*;

use crate::format::Format;

verus! {

/// Why a conversion did not produce its output.
#[derive(Debug, PartialEq, Eq)]
pub enum ConvertError {
    /// The source and target formats are the same one.
    InvalidRequest(Format),
    /// No conversion routine exists for this pair of formats.
    UnsupportedConversion(Format, Format),
    /// The pair is a known conversion whose routine is not provided yet.
    NotImplemented(Format, Format),
    /// The tabular input is malformed; holds the line of the offending row
    /// where it is known.
    Parse(Option<u64>),
    /// A record could not be serialised as a JSON object.
    Serialize,
    /// Reading or writing the named path failed.
    Io(String),
}

} // verus!
