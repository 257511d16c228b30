use vstd::prelude::*;

use crate::csv_json::{csv_json, csv_to_json, text_result};
use crate::error::ConvertError;
use crate::format::Format;

verus! {

/// A conversion routine, one for each supported pair of formats.
#[derive(Clone, Copy, Debug, PartialEq, Eq, Structural)]
pub enum Route {
    CsvToJson,
    JsonToCsv,
    CsvToXml,
    XmlToCsv,
    JsonToXml,
    XmlToJson,
    PngToJpeg,
    JpegToPng,
}

/// The routine for converting `from` into `to`, if the pair is supported.
pub open spec fn route_of(from: Format, to: Format) -> Option<Route> {
    match (from, to) {
        (Format::Csv, Format::Json) => Some(Route::CsvToJson),
        (Format::Json, Format::Csv) => Some(Route::JsonToCsv),
        (Format::Csv, Format::Xml) => Some(Route::CsvToXml),
        (Format::Xml, Format::Csv) => Some(Route::XmlToCsv),
        (Format::Json, Format::Xml) => Some(Route::JsonToXml),
        (Format::Xml, Format::Json) => Some(Route::XmlToJson),
        (Format::Png, Format::Jpeg) => Some(Route::PngToJpeg),
        (Format::Jpeg, Format::Png) => Some(Route::JpegToPng),
        _ => None,
    }
}

/// The dispatcher's decision for a pair of formats.
pub open spec fn route_spec(from: Format, to: Format) -> Result<Route, ConvertError> {
    if from == to {
        Err(ConvertError::InvalidRequest(from))
    } else {
        match route_of(from, to) {
            Some(r) => Ok(r),
            None => Err(ConvertError::UnsupportedConversion(from, to)),
        }
    }
}

/// What converting `input` from one format into another yields.
pub open spec fn convert_spec(from: Format, to: Format, input: Seq<u8>) -> Result<Seq<char>, ConvertError> {
    match route_spec(from, to) {
        Err(e) => Err(e),
        Ok(Route::CsvToJson) => csv_json(input),
        Ok(_) => Err(ConvertError::NotImplemented(from, to)),
    }
}

/// Selects the conversion routine for a pair of formats: identical formats
/// are an invalid request, and a pair with no routine is unsupported.
pub fn route(from: Format, to: Format) -> (r: Result<Route, ConvertError>)
    ensures
        r == route_spec(from, to),
{
    if from == to {
        return Err(ConvertError::InvalidRequest(from));
    }
    match (from, to) {
        (Format::Csv, Format::Json) => Ok(Route::CsvToJson),
        (Format::Json, Format::Csv) => Ok(Route::JsonToCsv),
        (Format::Csv, Format::Xml) => Ok(Route::CsvToXml),
        (Format::Xml, Format::Csv) => Ok(Route::XmlToCsv),
        (Format::Json, Format::Xml) => Ok(Route::JsonToXml),
        (Format::Xml, Format::Json) => Ok(Route::XmlToJson),
        (Format::Png, Format::Jpeg) => Ok(Route::PngToJpeg),
        (Format::Jpeg, Format::Png) => Ok(Route::JpegToPng),
        _ => Err(ConvertError::UnsupportedConversion(from, to)),
    }
}

/// Converts the contents `input` of a file in format `from` into the text of
/// a file in format `to`. Only CSV to JSON is provided; the other supported
/// pairs report `NotImplemented`.
pub fn convert(from: Format, to: Format, input: &[u8]) -> (r: Result<String, ConvertError>)
    ensures
        text_result(r) == convert_spec(from, to, input@),
{
    match route(from, to) {
        Err(e) => Err(e),
        Ok(Route::CsvToJson) => csv_to_json(input),
        Ok(_) => Err(ConvertError::NotImplemented(from, to)),
    }
}

/// Converting a format into itself always fails with `InvalidRequest`, so no
/// output is produced.
pub proof fn lemma_same_format_rejected(f: Format, input: Seq<u8>)
    ensures
        convert_spec(f, f, input) == Err::<Seq<char>, ConvertError>(ConvertError::InvalidRequest(f)),
{
}

/// Converting between two different formats that have no routine fails with
/// `UnsupportedConversion` naming both.
pub proof fn lemma_unsupported_pair(from: Format, to: Format, input: Seq<u8>)
    requires
        from != to,
        route_of(from, to) is None,
    ensures
        convert_spec(from, to, input) == Err::<Seq<char>, ConvertError>(
            ConvertError::UnsupportedConversion(from, to),
        ),
{
}

} // verus!
