//! Conversion between structured file formats: a dispatcher over pairs of
//! formats and a verified transcoder from header-bearing CSV text to a JSON
//! array of flat, string-valued objects.

pub mod csv_json;
pub mod dispatch;
pub mod error;
pub mod format;

pub use dispatch::{convert, route, Route};
pub use error::ConvertError;
pub use format::{format_from_extension, Format};
