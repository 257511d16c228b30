use vstd::prelude::*;

verus! {

/// The file formats the converter knows about.
#[derive(Clone, Copy, Debug, PartialEq, Eq, Structural, Hash)]
pub enum Format {
    Json,
    Csv,
    Xml,
    Png,
    Jpeg,
}

/// The file extension (lower case, without the dot) that names a format.
pub open spec fn extension_text(f: Format) -> Seq<char> {
    match f {
        Format::Json => "json"@,
        Format::Csv => "csv"@,
        Format::Xml => "xml"@,
        Format::Png => "png"@,
        Format::Jpeg => "jpeg"@,
    }
}

/// The input format named by a file extension. Only the structured text
/// formats are inferred from an extension; anything else names no format.
pub open spec fn format_of_extension(ext: Seq<char>) -> Option<Format> {
    if ext == "csv"@ {
        Some(Format::Csv)
    } else if ext == "json"@ {
        Some(Format::Json)
    } else if ext == "xml"@ {
        Some(Format::Xml)
    } else {
        None
    }
}

impl Format {
    /// The lower-case name of the format, used as a file extension.
    pub fn extension(self) -> (r: String)
        ensures
            r@ == extension_text(self),
    {
        match self {
            Format::Json => String::from_str("json"),
            Format::Csv => String::from_str("csv"),
            Format::Xml => String::from_str("xml"),
            Format::Png => String::from_str("png"),
            Format::Jpeg => String::from_str("jpeg"),
        }
    }
}

/// Infers an input format from a file extension (`csv`, `json` or `xml`).
pub fn format_from_extension(ext: &str) -> (r: Option<Format>)
    ensures
        r == format_of_extension(ext@),
{
    let e = ext.to_owned();
    if e == String::from_str("csv") {
        Some(Format::Csv)
    } else if e == String::from_str("json") {
        Some(Format::Json)
    } else if e == String::from_str("xml") {
        Some(Format::Xml)
    } else {
        None
    }
}

} // verus!
