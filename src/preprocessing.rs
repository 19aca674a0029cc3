//! Tabular import: reads a comma-separated text with a header row into
//! records, and classifies every failure into a precise taxonomy.
use vstd::prelude::*;

verus! {

#[verifier::external_type_specification]
#[verifier::external_body]
pub struct ExIoError(std::io::Error);

#[verifier::external_type_specification]
#[verifier::external_body]
pub struct ExCsvError(csv::Error);

#[verifier::external_type_specification]
#[verifier::external_body]
pub struct ExUtf8Error(csv::Utf8Error);

#[verifier::external_type_specification]
#[verifier::external_body]
pub struct ExDeserializeError(csv::DeserializeError);

#[verifier::external_type_specification]
#[verifier::external_body]
pub struct ExStringRecord(csv::StringRecord);

/// Where a row starts in the input: its byte offset and line (from 1), and
/// its index among the rows (from 0).
#[derive(Debug, Clone, Copy, PartialEq, Eq, Structural)]
pub struct Position {
    pub byte: u64,
    pub line: u64,
    pub record: u64,
}

/// A failure reported by the CSV reader, one variant per kind it can report.
#[derive(Debug)]
#[allow(inconsistent_fields)]
pub enum CsvErrorKind {
    Io(std::io::Error),
    Utf8 { pos: Option<Position>, err: csv::Utf8Error },
    UnequalLengths { pos: Option<Position>, expected_len: u64, len: u64 },
    Seek,
    Serialize(String),
    Deserialize { pos: Option<Position>, err: csv::DeserializeError },
    Other,
}

/// Why an import failed.
#[derive(Debug)]
#[allow(inconsistent_fields)]
pub enum ImportCsvError {
    /// The underlying read failed.
    IO(std::io::Error),
    /// A row holds bytes that are not valid UTF-8.
    Utf8 { position: Option<Position>, error: csv::Utf8Error },
    /// The header could not be read, or holds no field.
    UnreadableHeader,
    /// A data row has another field count than the header.
    RecordLength { position: Option<Position>, expected_len: u64, len: u64 },
    /// A field could not be converted to the target type.
    Deserialize { position: Option<Position>, error: csv::DeserializeError },
    /// Any other failure.
    Unknown,
}

/// The taxonomy entry that a reader failure of kind `k` falls under.
pub open spec fn classified(k: CsvErrorKind) -> ImportCsvError {
    match k {
        CsvErrorKind::Io(e) => ImportCsvError::IO(e),
        CsvErrorKind::Utf8 { pos, err } => ImportCsvError::Utf8 { position: pos, error: err },
        CsvErrorKind::UnequalLengths { pos, expected_len, len } =>
            ImportCsvError::RecordLength { position: pos, expected_len, len },
        CsvErrorKind::Seek => ImportCsvError::UnreadableHeader,
        CsvErrorKind::Deserialize { pos, err } =>
            ImportCsvError::Deserialize { position: pos, error: err },
        CsvErrorKind::Serialize(_) => ImportCsvError::Unknown,
        CsvErrorKind::Other => ImportCsvError::Unknown,
    }
}

impl ImportCsvError {
    /// Maps a reader failure onto the import taxonomy, keeping its position
    /// and counts.
    pub fn from_kind(kind: CsvErrorKind) -> (r: ImportCsvError)
        ensures
            r == classified(kind),
    {
        match kind {
            CsvErrorKind::Io(e) => ImportCsvError::IO(e),
            CsvErrorKind::Utf8 { pos, err } => ImportCsvError::Utf8 { position: pos, error: err },
            CsvErrorKind::UnequalLengths { pos, expected_len, len } =>
                ImportCsvError::RecordLength { position: pos, expected_len, len },
            CsvErrorKind::Seek => ImportCsvError::UnreadableHeader,
            CsvErrorKind::Deserialize { pos, err } =>
                ImportCsvError::Deserialize { position: pos, error: err },
            CsvErrorKind::Serialize(_) => ImportCsvError::Unknown,
            CsvErrorKind::Other => ImportCsvError::Unknown,
        }
    }

    /// Maps a failure of the CSV reader onto the import taxonomy.
    pub fn from_csv_error(error: csv::Error) -> (r: ImportCsvError)
        ensures
            exists|k: CsvErrorKind| r == classified(k),
    {
        let kind = error_kind(error);
        ImportCsvError::from_kind(kind)
    }
}

/// Relies on csv::Error::into_kind: tells the reader's failure kinds apart,
/// moving each one's fields over, a position read through csv::Position's
/// byte, line and record.
#[verifier::external_body]
fn error_kind(e: csv::Error) -> CsvErrorKind {
    let at = |p: Option<csv::Position>| p.map(|p| Position { byte: p.byte(), line: p.line(), record: p.record() });
    match e.into_kind() {
        csv::ErrorKind::Io(e) => CsvErrorKind::Io(e),
        csv::ErrorKind::Utf8 { pos, err } => CsvErrorKind::Utf8 { pos: at(pos), err },
        csv::ErrorKind::UnequalLengths { pos, expected_len, len } =>
            CsvErrorKind::UnequalLengths { pos: at(pos), expected_len, len },
        csv::ErrorKind::Seek => CsvErrorKind::Seek,
        csv::ErrorKind::Serialize(m) => CsvErrorKind::Serialize(m),
        csv::ErrorKind::Deserialize { pos, err } => CsvErrorKind::Deserialize { pos: at(pos), err },
        _ => CsvErrorKind::Other,
    }
}

/// The fields of a record, in order, as the CSV reader split and trimmed them.
pub uninterp spec fn record_fields(r: csv::StringRecord) -> Seq<Seq<char>>;

/// Where a record started in the input, as the CSV reader recorded it.
pub uninterp spec fn record_position(r: csv::StringRecord) -> Option<Position>;

/// Relies on csv::StringRecord::len: the number of fields of the record.
#[verifier::external_body]
fn field_count(r: &csv::StringRecord) -> (n: usize)
    ensures
        n == record_fields(*r).len(),
{
    r.len()
}

/// Relies on csv::StringRecord::position, and csv::Position's byte, line and
/// record: where the record started, if known.
#[verifier::external_body]
fn position_of(r: &csv::StringRecord) -> (p: Option<Position>)
    ensures
        p == record_position(*r),
{
    r.position().map(|p| Position { byte: p.byte(), line: p.line(), record: p.record() })
}

/// The field delimiter of the input: an ASCII comma.
pub const FIELD_DELIMITER: u8 = 0x2c;

/// Whether the reader trims whitespace around every field.
#[derive(Debug, Clone, Copy, PartialEq, Eq, Structural)]
pub enum Whitespace {
    Keep,
    TrimAll,
}

/// The rows that the CSV reader yields from `input`, split on `delimiter`
/// and trimmed as `trim` says, each row as its fields in order: every row
/// read before the first failure, the first row included, and whether a
/// failure stopped the reading.
pub uninterp spec fn csv_rows(input: Seq<u8>, delimiter: u8, trim: Whitespace) -> (Seq<Seq<Seq<char>>>, bool);

/// Where each row of `csv_rows(input, delimiter, trim)` starts, as the CSV
/// reader recorded it.
pub uninterp spec fn csv_row_positions(input: Seq<u8>, delimiter: u8, trim: Whitespace) -> Seq<Option<Position>>;

/// One of the ASCII whitespace characters.
pub open spec fn ascii_blank(c: char) -> bool {
    c == ' ' || c == '\t' || c == '\n' || c == '\r'
}

/// The field neither starts nor ends with ASCII whitespace.
pub open spec fn trimmed(field: Seq<char>) -> bool {
    field.len() > 0 ==> !ascii_blank(field[0]) && !ascii_blank(field.last())
}

/// Relies on csv::ReaderBuilder and csv::Reader::records: every row of
/// `input`, the first one included, in input order, up to the first failure,
/// which is returned beside them. Rows of any length are read. With
/// `TrimAll` each field passes through `str::trim`.
#[verifier::external_body]
fn read_rows(input: &[u8], delimiter: u8, trim: Whitespace) -> (r: (Vec<csv::StringRecord>, Option<csv::Error>))
    ensures
        r.0@.len() == csv_rows(input@, delimiter, trim).0.len(),
        forall|i: int| 0 <= i < r.0@.len()
            ==> record_fields(#[trigger] r.0@[i]) == csv_rows(input@, delimiter, trim).0[i],
        forall|i: int| 0 <= i < r.0@.len()
            ==> record_position(#[trigger] r.0@[i]) == csv_row_positions(input@, delimiter, trim)[i],
        r.1 is Some <==> csv_rows(input@, delimiter, trim).1,
        trim == Whitespace::TrimAll ==> forall|i: int, j: int|
            0 <= i < r.0@.len() && 0 <= j < record_fields(r.0@[i]).len()
            ==> trimmed(#[trigger] record_fields(r.0@[i])[j]),
{
    let trim = match trim {
        Whitespace::Keep => csv::Trim::None,
        Whitespace::TrimAll => csv::Trim::All,
    };
    let mut builder = csv::ReaderBuilder::new();
    builder.delimiter(delimiter).trim(trim).has_headers(false).flexible(true);
    let mut rows = Vec::new();
    for row in builder.from_reader(input).records() {
        match row {
            Ok(record) => rows.push(record),
            Err(e) => return (rows, Some(e)),
        }
    }
    (rows, None)
}

/// The rows of a comma-separated input, header first.
pub open spec fn input_rows(input: Seq<u8>) -> Seq<Seq<Seq<char>>> {
    csv_rows(input, FIELD_DELIMITER, Whitespace::TrimAll).0
}

/// Where each row of the comma-separated input starts.
pub open spec fn input_positions(input: Seq<u8>) -> Seq<Option<Position>> {
    csv_row_positions(input, FIELD_DELIMITER, Whitespace::TrimAll)
}

/// Whether reading the comma-separated input stopped on a failure.
pub open spec fn read_failed(input: Seq<u8>) -> bool {
    csv_rows(input, FIELD_DELIMITER, Whitespace::TrimAll).1
}

/// The rows `1..n` have as many fields as the header row `0`.
pub open spec fn rows_fit(rows: Seq<Seq<Seq<char>>>, n: int) -> bool {
    forall|j: int| 1 <= j < n ==> #[trigger] rows[j].len() == rows[0].len()
}

/// Row `j` is the first data row whose field count differs from the header's.
pub open spec fn first_misfit(rows: Seq<Seq<Seq<char>>>, j: int) -> bool {
    1 <= j < rows.len() && rows[0].len() > 0 && rows[j].len() != rows[0].len() && rows_fit(rows, j)
}

/// The whole input is accepted: a header with fields, every data row of its
/// length, and no failure of the reader.
pub open spec fn accepted(input: Seq<u8>) -> bool {
    &&& input_rows(input).len() > 0
    &&& input_rows(input)[0].len() > 0
    &&& rows_fit(input_rows(input), input_rows(input).len() as int)
    &&& !read_failed(input)
}

/// The rows accepted so far, header first, and the failure that ended the
/// reading, if any.
#[derive(Debug)]
pub struct CsvRead {
    pub rows: Vec<csv::StringRecord>,
    pub failure: Option<ImportCsvError>,
}

/// Reads a comma-separated input row by row, stopping at the first failure:
/// an empty input or a header without fields is `UnreadableHeader`, the first
/// data row whose field count differs from the header's is `RecordLength`
/// (with that row's position), and a failure of the reader is classified by
/// `ImportCsvError::from_kind`. The rows accepted before the failure are
/// returned with it, header first.
pub fn read_csv(input: &[u8]) -> (r: CsvRead)
    ensures
        r.failure is None <==> accepted(input@),
        r.rows@.len() <= input_rows(input@).len(),
        forall|i: int| 0 <= i < r.rows@.len() ==> record_fields(#[trigger] r.rows@[i]) == input_rows(input@)[i],
        input_rows(input@).len() == 0 && !read_failed(input@)
            ==> r.failure matches Some(ImportCsvError::UnreadableHeader),
        input_rows(input@).len() == 0 ==> r.failure is Some,
        input_rows(input@).len() > 0 && input_rows(input@)[0].len() == 0
            ==> r.rows@.len() == 0 && r.failure matches Some(ImportCsvError::UnreadableHeader),
        forall|j: int| #[trigger] first_misfit(input_rows(input@), j) ==> {
            &&& r.rows@.len() == j
            &&& r.failure == Some(ImportCsvError::RecordLength {
                position: input_positions(input@)[j],
                expected_len: input_rows(input@)[0].len() as u64,
                len: input_rows(input@)[j].len() as u64,
            })
        },
        input_rows(input@).len() > 0 && input_rows(input@)[0].len() > 0
            && rows_fit(input_rows(input@), input_rows(input@).len() as int) ==> {
            &&& r.rows@.len() == input_rows(input@).len()
            &&& (r.failure is Some <==> read_failed(input@))
        },
{
    let (mut rows, error) = read_rows(input, FIELD_DELIMITER, Whitespace::TrimAll);
    if rows.len() == 0 {
        let failure = match error {
            Some(e) => ImportCsvError::from_csv_error(e),
            None => ImportCsvError::UnreadableHeader,
        };
        return CsvRead { rows, failure: Some(failure) };
    }
    let expected_len = field_count(&rows[0]);
    if expected_len == 0 {
        return CsvRead { rows: Vec::new(), failure: Some(ImportCsvError::UnreadableHeader) };
    }
    let ghost all = input_rows(input@);
    let mut i: usize = 1;
    while i < rows.len()
        invariant
            1 <= i <= rows@.len(),
            rows@.len() == all.len(),
            all == input_rows(input@),
            forall|k: int| 0 <= k < rows@.len() ==> record_fields(#[trigger] rows@[k]) == all[k],
            forall|k: int| 0 <= k < rows@.len() ==> record_position(#[trigger] rows@[k]) == input_positions(input@)[k],
            expected_len == all[0].len(),
            expected_len > 0,
            rows_fit(all, i as int),
        decreases rows@.len() - i,
    {
        let len = field_count(&rows[i]);
        if len != expected_len {
            let position = position_of(&rows[i]);
            proof {
                assert forall|j: int| #[trigger] first_misfit(all, j) implies j == i by {
                    if j < i {
                    } else if j > i {
                        assert(all[i as int].len() == all[0].len());
                    }
                }
            }
            rows.truncate(i);
            return CsvRead {
                rows,
                failure: Some(ImportCsvError::RecordLength {
                    position,
                    expected_len: expected_len as u64,
                    len: len as u64,
                }),
            };
        }
        i += 1;
    }
    proof {
        assert forall|j: int| !#[trigger] first_misfit(all, j) by {}
    }
    let failure = match error {
        Some(e) => Some(ImportCsvError::from_csv_error(e)),
        None => None,
    };
    CsvRead { rows, failure }
}

/// A header row with the data rows that follow it.
#[derive(Debug)]
pub struct CsvTable {
    pub header: csv::StringRecord,
    pub records: Vec<csv::StringRecord>,
}

/// Reads a comma-separated text whose first row is a header into its header
/// and data rows, in input order. Either every row is returned or the import
/// fails as a whole, with the failure that `read_csv` reports.
pub fn import_csv(input: &[u8]) -> (r: Result<CsvTable, ImportCsvError>)
    ensures
        r is Ok <==> accepted(input@),
        r matches Ok(t) ==> {
            &&& record_fields(t.header) == input_rows(input@)[0]
            &&& t.records@.len() + 1 == input_rows(input@).len()
            &&& forall|i: int| 0 <= i < t.records@.len()
                ==> record_fields(#[trigger] t.records@[i]) == input_rows(input@)[i + 1]
        },
        (input_rows(input@).len() == 0 && !read_failed(input@))
            || (input_rows(input@).len() > 0 && input_rows(input@)[0].len() == 0)
            ==> r matches Err(ImportCsvError::UnreadableHeader),
        forall|j: int| #[trigger] first_misfit(input_rows(input@), j) ==> {
            &&& r == Err::<CsvTable, ImportCsvError>(ImportCsvError::RecordLength {
                position: input_positions(input@)[j],
                expected_len: input_rows(input@)[0].len() as u64,
                len: input_rows(input@)[j].len() as u64,
            })
        },
{
    let read = read_csv(input);
    let CsvRead { mut rows, failure } = read;
    match failure {
        Some(e) => {
            Err(e)
        },
        None => {
            assert(rows@.len() == input_rows(input@).len());
            let header = rows.remove(0);
            Ok(CsvTable { header, records: rows })
        },
    }
}


/// The decimal digit `d`, for `d < 10`.
pub open spec fn digit_char(d: nat) -> char {
    if d == 0 { '0' } else if d == 1 { '1' } else if d == 2 { '2' } else if d == 3 { '3' }
    else if d == 4 { '4' } else if d == 5 { '5' } else if d == 6 { '6' } else if d == 7 { '7' }
    else if d == 8 { '8' } else { '9' }
}

/// `n` written in decimal, without sign or leading zeros.
pub open spec fn decimal(n: nat) -> Seq<char>
    decreases n,
{
    if n < 10 {
        seq![digit_char(n)]
    } else {
        decimal(n / 10) + seq![digit_char(n % 10)]
    }
}

/// The one-character text of the decimal digit `d`.
fn digit_text(d: u64) -> (r: &'static str)
    requires
        d < 10,
    ensures
        r@ == seq![digit_char(d as nat)],
{
    if d == 0 {
        proof { reveal_strlit("0"); }
        "0"
    } else if d == 1 {
        proof { reveal_strlit("1"); }
        "1"
    } else if d == 2 {
        proof { reveal_strlit("2"); }
        "2"
    } else if d == 3 {
        proof { reveal_strlit("3"); }
        "3"
    } else if d == 4 {
        proof { reveal_strlit("4"); }
        "4"
    } else if d == 5 {
        proof { reveal_strlit("5"); }
        "5"
    } else if d == 6 {
        proof { reveal_strlit("6"); }
        "6"
    } else if d == 7 {
        proof { reveal_strlit("7"); }
        "7"
    } else if d == 8 {
        proof { reveal_strlit("8"); }
        "8"
    } else {
        proof { reveal_strlit("9"); }
        "9"
    }
}

/// `n` in decimal, without sign or leading zeros.
fn decimal_text(n: u64) -> (r: String)
    ensures
        r@ == decimal(n as nat),
    decreases n,
{
    if n < 10 {
        let r = String::from_str(digit_text(n));
        proof { assert(r@ =~= decimal(n as nat)); }
        r
    } else {
        let mut r = decimal_text(n / 10);
        r.append(digit_text(n % 10));
        proof { assert(r@ =~= decimal(n as nat)); }
        r
    }
}

/// Relies on io::Error's `Display`: its description.
#[verifier::external_body]
fn io_error_text(e: &std::io::Error) -> String {
    e.to_string()
}

/// Relies on csv::Utf8Error's `Display`: its description.
#[verifier::external_body]
fn utf8_error_text(e: &csv::Utf8Error) -> String {
    e.to_string()
}

/// Relies on csv::DeserializeError's `Display`: its description.
#[verifier::external_body]
fn deserialize_error_text(e: &csv::DeserializeError) -> String {
    e.to_string()
}

/// " at line N" when the position is known, nothing otherwise.
pub open spec fn location_text(position: Option<Position>) -> Seq<char> {
    match position {
        Some(p) => " at line "@ + decimal(p.line as nat),
        None => Seq::empty(),
    }
}

/// The message of a row-length failure found at `position`.
pub open spec fn record_length_text(position: Option<Position>, expected_len: u64, len: u64) -> Seq<char> {
    "Import CSV unequal record length error"@ + location_text(position) + " (expected: "@
        + decimal(expected_len as nat) + ", found: "@ + decimal(len as nat) + ")"@
}

fn append_location(text: &mut String, position: &Option<Position>)
    ensures
        final(text)@ == old(text)@ + location_text(*position),
{
    match position {
        Some(p) => {
            text.append(" at line ");
            let digits = decimal_text(p.line);
            text.append(digits.as_str());
            proof {
                reveal_strlit(" at line ");
                assert(final(text)@ =~= old(text)@ + location_text(*position));
            }
        },
        None => {},
    }
}

impl ImportCsvError {
    /// A one-line description of the failure, with its line and counts
    /// where known.
    pub fn message(&self) -> (r: String)
        ensures
            self is UnreadableHeader ==> r@ == "Import CSV unreadable header error"@,
            self is Unknown ==> r@ == "Import CSV unknown error"@,
            *self matches ImportCsvError::RecordLength { position, expected_len, len }
                ==> r@ == record_length_text(position, expected_len, len),
            self is IO ==> exists|t: Seq<char>| r@ == "Import CSV IO error: "@ + t,
            *self matches ImportCsvError::Utf8 { position, .. } ==> exists|t: Seq<char>|
                r@ == "Import CSV UTF8 parsing error"@ + location_text(position) + ": "@ + t,
            *self matches ImportCsvError::Deserialize { position, .. } ==> exists|t: Seq<char>|
                r@ == "Import CSV deserialization error"@ + location_text(position) + ": "@ + t,
    {
        let mut text = String::from_str("Import CSV ");
        proof { reveal_strlit("Import CSV "); }
        match self {
            ImportCsvError::IO(e) => {
                text.append("IO error: ");
                let detail = io_error_text(e);
                text.append(detail.as_str());
                proof {
                    reveal_strlit("IO error: ");
                    reveal_strlit("Import CSV IO error: ");
                    assert(text@ =~= "Import CSV IO error: "@ + detail@);
                }
            },
            ImportCsvError::Utf8 { position, error } => {
                text.append("UTF8 parsing error");
                append_location(&mut text, position);
                text.append(": ");
                let detail = utf8_error_text(error);
                text.append(detail.as_str());
                proof {
                    reveal_strlit("UTF8 parsing error");
                    reveal_strlit("Import CSV UTF8 parsing error");
                    reveal_strlit(": ");
                    assert(text@ =~= "Import CSV UTF8 parsing error"@ + location_text(*position) + ": "@ + detail@);
                }
            },
            ImportCsvError::UnreadableHeader => {
                text.append("unreadable header error");
                proof {
                    reveal_strlit("unreadable header error");
                    reveal_strlit("Import CSV unreadable header error");
                    assert(text@ =~= "Import CSV unreadable header error"@);
                }
            },
            ImportCsvError::RecordLength { position, expected_len, len } => {
                text.append("unequal record length error");
                let ghost head = text@;
                append_location(&mut text, position);
                let ghost located = text@;
                text.append(" (expected: ");
                let expected = decimal_text(*expected_len);
                text.append(expected.as_str());
                text.append(", found: ");
                let found = decimal_text(*len);
                text.append(found.as_str());
                text.append(")");
                proof {
                    reveal_strlit("unequal record length error");
                    reveal_strlit("Import CSV unequal record length error");
                    reveal_strlit(" (expected: ");
                    reveal_strlit(", found: ");
                    reveal_strlit(")");
                    assert(head =~= "Import CSV unequal record length error"@);
                    assert(text@ =~= located + " (expected: "@ + decimal(*expected_len as nat) + ", found: "@
                        + decimal(*len as nat) + ")"@);
                    assert(text@ =~= record_length_text(*position, *expected_len, *len));
                }
            },
            ImportCsvError::Deserialize { position, error } => {
                text.append("deserialization error");
                append_location(&mut text, position);
                text.append(": ");
                let detail = deserialize_error_text(error);
                text.append(detail.as_str());
                proof {
                    reveal_strlit("deserialization error");
                    reveal_strlit("Import CSV deserialization error");
                    reveal_strlit(": ");
                    assert(text@ =~= "Import CSV deserialization error"@ + location_text(*position) + ": "@ + detail@);
                }
            },
            ImportCsvError::Unknown => {
                text.append("unknown error");
                proof {
                    reveal_strlit("unknown error");
                    reveal_strlit("Import CSV unknown error");
                    assert(text@ =~= "Import CSV unknown error"@);
                }
            },
        }
        text
    }
}

} // verus!
