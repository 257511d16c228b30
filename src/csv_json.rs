use vstd::prelude::*;

use crate::error::ConvertError;

verus! {

/// The texts held by a sequence of strings.
pub open spec fn texts(v: Seq<String>) -> Seq<Seq<char>> {
    v.map_values(|s: String| s@)
}

/// The texts held by a sequence of rows of strings.
pub open spec fn rows_texts(v: Seq<Vec<String>>) -> Seq<Seq<Seq<char>>> {
    v.map_values(|r: Vec<String>| texts(r@))
}

/// What the CSV reader makes of the first row of `input`: its fields, or the
/// line at which reading failed (where the reader knows it).
pub uninterp spec fn csv_header_of(input: Seq<u8>) -> Result<Seq<Seq<char>>, Option<u64>>;

/// What the CSV reader makes of the rows of `input` after the first: the
/// fields of each, or the line at which reading failed.
pub uninterp spec fn csv_records_of(input: Seq<u8>) -> Result<Seq<Seq<Seq<char>>>, Option<u64>>;

/// The compact JSON text of the object whose properties are `keys[i]: values[i]`
/// as JSON strings, in that order; `None` where serialisation fails.
pub uninterp spec fn json_object_of(keys: Seq<Seq<char>>, values: Seq<Seq<char>>) -> Option<Seq<char>>;

/// The texts of a header read, or its failure.
pub open spec fn header_view(r: Result<Vec<String>, Option<u64>>) -> Result<Seq<Seq<char>>, Option<u64>> {
    match r {
        Ok(h) => Ok(texts(h@)),
        Err(line) => Err(line),
    }
}

/// The texts of the rows read, or the failure.
pub open spec fn records_view(r: Result<Vec<Vec<String>>, Option<u64>>) -> Result<Seq<Seq<Seq<char>>>, Option<u64>> {
    match r {
        Ok(rows) => Ok(rows_texts(rows@)),
        Err(line) => Err(line),
    }
}

/// The text of a serialised object, if there is one.
pub open spec fn object_view(r: Option<String>) -> Option<Seq<char>> {
    match r {
        Some(s) => Some(s@),
        None => None,
    }
}

/// The text held by a conversion result.
pub open spec fn text_result(r: Result<String, ConvertError>) -> Result<Seq<char>, ConvertError> {
    match r {
        Ok(s) => Ok(s@),
        Err(e) => Err(e),
    }
}

/// Relies on csv::Reader::headers, on a reader built with headers on and rows
/// of any length: the fields of the header row, or the line of the failure.
#[verifier::external_body]
fn read_header(input: &[u8]) -> (r: Result<Vec<String>, Option<u64>>)
    ensures
        header_view(r) == csv_header_of(input@),
{
    let mut rdr = csv::ReaderBuilder::new().has_headers(true).flexible(true).from_reader(input);
    match rdr.headers() {
        Ok(h) => Ok(h.iter().map(String::from).collect()),
        Err(e) => Err(e.position().map(|p| p.line())),
    }
}

/// Relies on csv::Reader::records, on a reader built with headers on and rows
/// of any length: the fields of each data row, or the line of the first failure.
#[verifier::external_body]
fn read_records(input: &[u8]) -> (r: Result<Vec<Vec<String>>, Option<u64>>)
    ensures
        records_view(r) == csv_records_of(input@),
{
    let mut rdr = csv::ReaderBuilder::new().has_headers(true).flexible(true).from_reader(input);
    rdr.records()
        .map(|rec| rec.map(|rec| rec.iter().map(String::from).collect()))
        .collect::<Result<Vec<Vec<String>>, csv::Error>>()
        .map_err(|e| e.position().map(|p| p.line()))
}

/// Relies on serde_json::to_string of a serde_json::Map (insertion order kept)
/// that holds `keys[i]` mapped to the JSON string `values[i]`.
#[verifier::external_body]
fn json_object(keys: &Vec<String>, values: &Vec<String>) -> (r: Option<String>)
    requires
        keys@.len() == values@.len(),
    ensures
        object_view(r) == json_object_of(texts(keys@), texts(values@)),
{
    let obj: serde_json::Map<String, serde_json::Value> = keys.iter().cloned()
        .zip(values.iter().map(|v| serde_json::Value::String(v.clone())))
        .collect();
    serde_json::to_string(&serde_json::Value::Object(obj)).ok()
}

/// How many fields of a row are paired with column names: the shorter of the
/// two lengths, so unmatched names or trailing values are dropped.
pub open spec fn paired_len(header: Seq<Seq<char>>, row: Seq<Seq<char>>) -> nat {
    if header.len() <= row.len() {
        header.len()
    } else {
        row.len()
    }
}

/// The property names of a row's object: the leading column names.
pub open spec fn row_keys(header: Seq<Seq<char>>, row: Seq<Seq<char>>) -> Seq<Seq<char>> {
    header.take(paired_len(header, row) as int)
}

/// The property values of a row's object: the leading fields of the row.
pub open spec fn row_values(header: Seq<Seq<char>>, row: Seq<Seq<char>>) -> Seq<Seq<char>> {
    row.take(paired_len(header, row) as int)
}

/// The JSON object text of one data row.
pub open spec fn row_object(header: Seq<Seq<char>>, row: Seq<Seq<char>>) -> Option<Seq<char>> {
    json_object_of(row_keys(header, row), row_values(header, row))
}

/// The object texts of all rows, in row order.
pub open spec fn row_objects(header: Seq<Seq<char>>, rows: Seq<Seq<Seq<char>>>) -> Seq<Seq<char>> {
    Seq::new(rows.len(), |i: int| row_object(header, rows[i])->Some_0)
}

/// The texts `items` separated by commas.
pub open spec fn joined(items: Seq<Seq<char>>) -> Seq<char>
    decreases items.len(),
{
    if items.len() == 0 {
        Seq::empty()
    } else if items.len() == 1 {
        items[0]
    } else {
        joined(items.drop_last()) + ","@ + items.last()
    }
}

/// The JSON array whose elements are the texts `items`, in order.
pub open spec fn array_text(items: Seq<Seq<char>>) -> Seq<char> {
    "["@ + joined(items) + "]"@
}

/// The JSON text for a table: one object per row, or `Serialize` where some
/// row's object cannot be written.
pub open spec fn table_json(header: Seq<Seq<char>>, rows: Seq<Seq<Seq<char>>>) -> Result<Seq<char>, ConvertError> {
    if forall|i: int| 0 <= i < rows.len() ==> (#[trigger] row_object(header, rows[i])) is Some {
        Ok(array_text(row_objects(header, rows)))
    } else {
        Err(ConvertError::Serialize)
    }
}

/// The JSON text for CSV input `input`, whose first row names the columns.
pub open spec fn csv_json(input: Seq<u8>) -> Result<Seq<char>, ConvertError> {
    match csv_header_of(input) {
        Err(line) => Err(ConvertError::Parse(line)),
        Ok(header) => match csv_records_of(input) {
            Err(line) => Err(ConvertError::Parse(line)),
            Ok(rows) => table_json(header, rows),
        },
    }
}

/// Pairs column names with the fields of one row by position, up to the
/// shorter of the two; returns the names and the values that are kept.
pub fn row_pairs(header: &Vec<String>, row: &Vec<String>) -> (r: (Vec<String>, Vec<String>))
    ensures
        r.0@.len() == r.1@.len(),
        texts(r.0@) == row_keys(texts(header@), texts(row@)),
        texts(r.1@) == row_values(texts(header@), texts(row@)),
{
    let n: usize = if header.len() <= row.len() {
        header.len()
    } else {
        row.len()
    };
    let mut keys: Vec<String> = Vec::new();
    let mut values: Vec<String> = Vec::new();
    let mut i: usize = 0;
    while i < n
        invariant
            n as nat == paired_len(texts(header@), texts(row@)),
            n <= header@.len(),
            n <= row@.len(),
            i <= n,
            keys@.len() == i,
            values@.len() == i,
            forall|j: int| 0 <= j < i ==> #[trigger] keys@[j]@ == header@[j]@,
            forall|j: int| 0 <= j < i ==> #[trigger] values@[j]@ == row@[j]@,
        decreases n - i,
    {
        keys.push(header[i].clone());
        values.push(row[i].clone());
        i = i + 1;
    }
    assert(texts(keys@) =~= row_keys(texts(header@), texts(row@)));
    assert(texts(values@) =~= row_values(texts(header@), texts(row@)));
    (keys, values)
}

/// Writes the JSON array whose elements are the given JSON texts, in order.
pub fn json_array(items: &Vec<String>) -> (r: String)
    ensures
        r@ == array_text(texts(items@)),
{
    let mut out = String::from_str("[");
    let mut i: usize = 0;
    while i < items.len()
        invariant
            i <= items@.len(),
            out@ == "["@ + joined(texts(items@).take(i as int)),
        decreases items@.len() - i,
    {
        proof {
            let t = texts(items@);
            assert(t.take(i + 1).drop_last() =~= t.take(i as int));
        }
        if i > 0 {
            out.append(",");
        }
        out.append(items[i].as_str());
        proof {
            let t = texts(items@);
            if i == 0 {
                assert(joined(t.take(0)) =~= Seq::<char>::empty());
            }
            assert(out@ =~= "["@ + joined(t.take(i + 1)));
        }
        i = i + 1;
    }
    assert(texts(items@).take(items@.len() as int) =~= texts(items@));
    out.append("]");
    out
}

/// Converts a parsed table (column names and data rows) to a JSON array of
/// flat objects, one per row, each property a string, in column order.
pub fn table_to_json(header: &Vec<String>, rows: &Vec<Vec<String>>) -> (r: Result<String, ConvertError>)
    ensures
        text_result(r) == table_json(texts(header@), rows_texts(rows@)),
{
    let ghost h = texts(header@);
    let ghost rs = rows_texts(rows@);
    let mut objects: Vec<String> = Vec::new();
    let mut i: usize = 0;
    while i < rows.len()
        invariant
            i <= rows@.len(),
            h == texts(header@),
            rs == rows_texts(rows@),
            objects@.len() == i,
            forall|j: int| 0 <= j < i ==> (#[trigger] row_object(h, rs[j])) is Some,
            forall|j: int| 0 <= j < i ==> row_object(h, rs[j]) == Some(#[trigger] objects@[j]@),
        decreases rows@.len() - i,
    {
        let (keys, values) = row_pairs(header, &rows[i]);
        match json_object(&keys, &values) {
            Some(obj) => {
                objects.push(obj);
            },
            None => {
                assert(row_object(h, rs[i as int]) is None);
                return Err(ConvertError::Serialize);
            },
        }
        i = i + 1;
    }
    assert(texts(objects@) =~= row_objects(h, rs));
    Ok(json_array(&objects))
}

/// Converts CSV text, whose first row names the columns, to a JSON array with
/// one flat object per data row. A row shorter or longer than the header is
/// paired up to the shorter of the two.
pub fn csv_to_json(input: &[u8]) -> (r: Result<String, ConvertError>)
    ensures
        text_result(r) == csv_json(input@),
{
    let header = match read_header(input) {
        Ok(h) => h,
        Err(line) => {
            return Err(ConvertError::Parse(line));
        },
    };
    let rows = match read_records(input) {
        Ok(rows) => rows,
        Err(line) => {
            return Err(ConvertError::Parse(line));
        },
    };
    table_to_json(&header, &rows)
}

/// A successful conversion of CSV input is a JSON array with exactly one
/// element per data row: the rows' object texts, in row order, separated by
/// commas and enclosed in brackets.
pub proof fn lemma_one_element_per_row(input: Seq<u8>)
    requires
        csv_json(input) is Ok,
    ensures
        csv_header_of(input) is Ok,
        csv_records_of(input) is Ok,
        ({
            let header = csv_header_of(input)->Ok_0;
            let rows = csv_records_of(input)->Ok_0;
            let objects = row_objects(header, rows);
            &&& csv_json(input)->Ok_0 == array_text(objects)
            &&& objects.len() == rows.len()
            &&& forall|i: int|
                0 <= i < rows.len() ==> row_object(header, rows[i]) == Some(#[trigger] objects[i])
        }),
{
    let header = csv_header_of(input)->Ok_0;
    let rows = csv_records_of(input)->Ok_0;
    assert forall|i: int| 0 <= i < rows.len() implies row_object(header, rows[i]) == Some(
        #[trigger] row_objects(header, rows)[i],
    ) by {
        assert(row_object(header, rows[i]) is Some);
    }
}

/// The property names of a row's object are the leading column names, in
/// column order: as many as the row has fields, and at most all of them. Each
/// is paired with the field at its own position.
pub proof fn lemma_keys_are_leading_columns(header: Seq<Seq<char>>, row: Seq<Seq<char>>)
    ensures
        row_keys(header, row).len() <= header.len(),
        row_keys(header, row).len() <= row.len(),
        row_keys(header, row).len() == header.len() || row_keys(header, row).len() == row.len(),
        row_keys(header, row) == header.subrange(0, row_keys(header, row).len() as int),
        row_values(header, row) == row.subrange(0, row_keys(header, row).len() as int),
{
}

} // verus!
