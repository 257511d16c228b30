use filevert::csv_json::{csv_to_json, json_array, row_pairs, table_to_json};
use filevert::{convert, format_from_extension, route, ConvertError, Format, Route};

fn strings(v: &[&str]) -> Vec<String> {
    v.iter().map(|s| s.to_string()).collect()
}

#[test]
fn two_rows_become_two_objects() {
    let out = convert(Format::Csv, Format::Json, b"a,b\n1,2\n3,4").unwrap();
    assert_eq!(out, r#"[{"a":"1","b":"2"},{"a":"3","b":"4"}]"#);
}

#[test]
fn short_row_drops_unmatched_names() {
    let out = convert(Format::Csv, Format::Json, b"x,y\n5").unwrap();
    assert_eq!(out, r#"[{"x":"5"}]"#);
}

#[test]
fn long_row_drops_trailing_values() {
    let out = csv_to_json(b"x,y\n1,2,3\n").unwrap();
    assert_eq!(out, r#"[{"x":"1","y":"2"}]"#);
}

#[test]
fn header_only_gives_empty_array() {
    assert_eq!(convert(Format::Csv, Format::Json, b"a,b\n").unwrap(), "[]");
    assert_eq!(csv_to_json(b"a,b").unwrap(), "[]");
}

#[test]
fn empty_input_gives_empty_array() {
    assert_eq!(csv_to_json(b"").unwrap(), "[]");
}

#[test]
fn one_object_per_row() {
    let out = csv_to_json(b"n\n1\n2\n3\n4\n5\n").unwrap();
    assert_eq!(out, r#"[{"n":"1"},{"n":"2"},{"n":"3"},{"n":"4"},{"n":"5"}]"#);
    assert_eq!(out.matches('{').count(), 5);
}

#[test]
fn properties_follow_header_order() {
    let out = csv_to_json(b"zeta,alpha,mid\n1,2,3\n").unwrap();
    assert_eq!(out, r#"[{"zeta":"1","alpha":"2","mid":"3"}]"#);
}

#[test]
fn values_stay_strings() {
    let out = csv_to_json(b"n,b,e\n42,true,\n").unwrap();
    assert_eq!(out, r#"[{"n":"42","b":"true","e":""}]"#);
}

#[test]
fn quoted_fields_are_unquoted_and_escaped() {
    let out = csv_to_json(b"q,r\n\"a,b\",\"say \"\"hi\"\"\"\n").unwrap();
    assert_eq!(out, r#"[{"q":"a,b","r":"say \"hi\""}]"#);
}

#[test]
fn invalid_utf8_in_a_row_is_a_parse_error() {
    let r = csv_to_json(b"a,b\n1,\xff\n");
    assert!(matches!(r, Err(ConvertError::Parse(_))));
}

#[test]
fn invalid_utf8_in_the_header_is_a_parse_error() {
    let r = csv_to_json(b"\xff,b\n1,2\n");
    assert!(matches!(r, Err(ConvertError::Parse(_))));
}

#[test]
fn same_format_is_an_invalid_request() {
    for f in [Format::Csv, Format::Json, Format::Xml, Format::Png, Format::Jpeg] {
        assert_eq!(convert(f, f, b"a,b\n1,2\n"), Err(ConvertError::InvalidRequest(f)));
        assert_eq!(route(f, f), Err(ConvertError::InvalidRequest(f)));
    }
}

#[test]
fn jpeg_to_xml_is_unsupported() {
    assert_eq!(
        convert(Format::Jpeg, Format::Xml, b""),
        Err(ConvertError::UnsupportedConversion(Format::Jpeg, Format::Xml))
    );
    assert_eq!(
        route(Format::Csv, Format::Png),
        Err(ConvertError::UnsupportedConversion(Format::Csv, Format::Png))
    );
}

#[test]
fn known_pairs_route_to_their_routine() {
    assert_eq!(route(Format::Csv, Format::Json), Ok(Route::CsvToJson));
    assert_eq!(route(Format::Json, Format::Csv), Ok(Route::JsonToCsv));
    assert_eq!(route(Format::Csv, Format::Xml), Ok(Route::CsvToXml));
    assert_eq!(route(Format::Xml, Format::Csv), Ok(Route::XmlToCsv));
    assert_eq!(route(Format::Json, Format::Xml), Ok(Route::JsonToXml));
    assert_eq!(route(Format::Xml, Format::Json), Ok(Route::XmlToJson));
    assert_eq!(route(Format::Png, Format::Jpeg), Ok(Route::PngToJpeg));
    assert_eq!(route(Format::Jpeg, Format::Png), Ok(Route::JpegToPng));
}

#[test]
fn routines_without_a_body_are_not_implemented() {
    assert_eq!(
        convert(Format::Json, Format::Csv, b"[]"),
        Err(ConvertError::NotImplemented(Format::Json, Format::Csv))
    );
    assert_eq!(
        convert(Format::Png, Format::Jpeg, b""),
        Err(ConvertError::NotImplemented(Format::Png, Format::Jpeg))
    );
}

#[test]
fn pairing_stops_at_the_shorter_sequence() {
    let (k, v) = row_pairs(&strings(&["x", "y"]), &strings(&["5"]));
    assert_eq!(k, strings(&["x"]));
    assert_eq!(v, strings(&["5"]));
    let (k, v) = row_pairs(&strings(&["x"]), &strings(&["1", "2"]));
    assert_eq!(k, strings(&["x"]));
    assert_eq!(v, strings(&["1"]));
}

#[test]
fn array_framing() {
    assert_eq!(json_array(&strings(&[])), "[]");
    assert_eq!(json_array(&strings(&["{}"])), "[{}]");
    assert_eq!(json_array(&strings(&["1", "{\"a\":\"b\"}", "3"])), r#"[1,{"a":"b"},3]"#);
}

#[test]
fn table_with_short_and_empty_rows() {
    let rows = vec![strings(&["1", "2"]), strings(&["3"]), strings(&[])];
    let out = table_to_json(&strings(&["a", "b"]), &rows).unwrap();
    assert_eq!(out, r#"[{"a":"1","b":"2"},{"a":"3"},{}]"#);
}

#[test]
fn extensions_name_text_formats() {
    assert_eq!(format_from_extension("csv"), Some(Format::Csv));
    assert_eq!(format_from_extension("json"), Some(Format::Json));
    assert_eq!(format_from_extension("xml"), Some(Format::Xml));
    assert_eq!(format_from_extension("png"), None);
    assert_eq!(format_from_extension("CSV"), None);
    assert_eq!(format_from_extension(""), None);
}

#[test]
fn format_extension_names() {
    assert_eq!(Format::Json.extension(), "json");
    assert_eq!(Format::Csv.extension(), "csv");
    assert_eq!(Format::Xml.extension(), "xml");
    assert_eq!(Format::Png.extension(), "png");
    assert_eq!(Format::Jpeg.extension(), "jpeg");
}
