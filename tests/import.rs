use perceptron::preprocessing::{import_csv, read_csv, CsvErrorKind, ImportCsvError, Position};

fn floats(record: &csv::StringRecord) -> Vec<f32> {
    record.iter().map(|f| f.parse::<f32>().unwrap()).collect()
}

#[test]
fn well_formed_input_keeps_every_row_in_order() {
    let input = b"a, b, c\n1.5, -2, 0.25\n 3 ,4,5e-1\n0,0,0\n";
    let table = import_csv(input).unwrap();
    assert_eq!(table.header.iter().collect::<Vec<_>>(), vec!["a", "b", "c"]);
    assert_eq!(table.records.len(), 3);
    assert_eq!(floats(&table.records[0]), vec![1.5, -2.0, 0.25]);
    assert_eq!(floats(&table.records[1]), vec![3.0, 4.0, 0.5]);
    assert_eq!(floats(&table.records[2]), vec![0.0, 0.0, 0.0]);
    assert_eq!(floats(&table.records[0])[2].to_bits(), 0.25f32.to_bits());
}

#[test]
fn header_only_input_has_no_rows() {
    let table = import_csv(b"x,y\n").unwrap();
    assert_eq!(table.header.len(), 2);
    assert!(table.records.is_empty());
}

#[test]
fn extra_field_is_a_record_length_error() {
    let input = b"a,b\n1,2\n3,4,5\n";
    match import_csv(input) {
        Err(ImportCsvError::RecordLength { position, expected_len, len }) => {
            assert_eq!(expected_len, 2);
            assert_eq!(len, 3);
            let position = position.unwrap();
            assert_eq!(position.line, 3);
            assert_eq!(position.record, 2);
        }
        _ => panic!("expected a record length error"),
    }
}

#[test]
fn missing_field_is_a_record_length_error() {
    match import_csv(b"a,b,c\n1,2\n") {
        Err(ImportCsvError::RecordLength { expected_len, len, .. }) => {
            assert_eq!(expected_len, 3);
            assert_eq!(len, 2);
        }
        _ => panic!("expected a record length error"),
    }
}

#[test]
fn empty_input_is_an_unreadable_header() {
    assert!(matches!(import_csv(b""), Err(ImportCsvError::UnreadableHeader)));
}

#[test]
fn invalid_utf8_is_an_encoding_error() {
    let input = b"a,b\n1,\xff\xfe\n";
    assert!(matches!(import_csv(input), Err(ImportCsvError::Utf8 { .. })));
}

#[test]
fn non_numeric_field_is_a_deserialization_error() {
    let table = import_csv(b"a,b\n1,2\n3,abc\n").unwrap();
    assert!(table.records[0].deserialize::<Vec<f32>>(None).is_ok());
    let err = table.records[1].deserialize::<Vec<f32>>(None).unwrap_err();
    match ImportCsvError::from_csv_error(err) {
        ImportCsvError::Deserialize { position, .. } => assert_eq!(position.unwrap().line, 3),
        _ => panic!("expected a deserialization error"),
    }
}

#[test]
fn reader_failures_are_classified() {
    assert!(matches!(ImportCsvError::from_kind(CsvErrorKind::Seek), ImportCsvError::UnreadableHeader));
    assert!(matches!(
        ImportCsvError::from_kind(CsvErrorKind::Serialize(String::from("x"))),
        ImportCsvError::Unknown
    ));
    assert!(matches!(ImportCsvError::from_kind(CsvErrorKind::Other), ImportCsvError::Unknown));
    let io = std::io::Error::from(std::io::ErrorKind::NotFound);
    match ImportCsvError::from_kind(CsvErrorKind::Io(io)) {
        ImportCsvError::IO(e) => assert_eq!(e.kind(), std::io::ErrorKind::NotFound),
        _ => panic!("expected an I/O error"),
    }
    match ImportCsvError::from_kind(CsvErrorKind::UnequalLengths { pos: None, expected_len: 4, len: 7 }) {
        ImportCsvError::RecordLength { position: None, expected_len: 4, len: 7 } => {}
        _ => panic!("expected a record length error"),
    }
}

#[test]
fn messages_name_the_failure() {
    assert_eq!(ImportCsvError::UnreadableHeader.message(), "Import CSV unreadable header error");
    assert_eq!(ImportCsvError::Unknown.message(), "Import CSV unknown error");
    let e = ImportCsvError::RecordLength { position: None, expected_len: 2, len: 13 };
    assert_eq!(e.message(), "Import CSV unequal record length error (expected: 2, found: 13)");
    let located = import_csv(b"a,b\n1,2\n3,4,5\n").err().unwrap();
    assert_eq!(
        located.message(),
        "Import CSV unequal record length error at line 3 (expected: 2, found: 3)"
    );
    let io = ImportCsvError::IO(std::io::Error::new(std::io::ErrorKind::Other, "disk gone"));
    assert_eq!(io.message(), "Import CSV IO error: disk gone");
}

#[test]
fn encoding_and_conversion_messages_carry_the_line() {
    let utf8 = import_csv(b"a,b\n1,\xff\n").err().unwrap();
    assert!(utf8.message().starts_with("Import CSV UTF8 parsing error at line 2: "));
    let table = import_csv(b"a\nxyz\n").unwrap();
    let err = table.records[0].deserialize::<Vec<f32>>(None).unwrap_err();
    let message = ImportCsvError::from_csv_error(err).message();
    assert!(message.starts_with("Import CSV deserialization error at line 2: "));
}

#[test]
fn fields_are_trimmed_and_split_on_commas() {
    let table = import_csv(b" left ;x , right\n 1;2 ,\t3 \n").unwrap();
    assert_eq!(table.header.iter().collect::<Vec<_>>(), vec!["left ;x", "right"]);
    assert_eq!(table.records[0].iter().collect::<Vec<_>>(), vec!["1;2", "3"]);
}

#[test]
fn length_mismatch_is_reported_before_a_later_bad_row() {
    match import_csv(b"a,b\n1,2,3\n\xff\n") {
        Err(ImportCsvError::RecordLength { position, expected_len: 2, len: 3 }) => {
            assert_eq!(position.unwrap().line, 2)
        }
        other => panic!("expected a record length error, got {:?}", other),
    }
}

#[test]
fn partial_read_keeps_the_rows_before_the_failure() {
    let read = read_csv(b"a,b\nx,1\n1,2,3\n4,5\n");
    assert_eq!(read.rows.len(), 2);
    assert_eq!(read.rows[1].iter().collect::<Vec<_>>(), vec!["x", "1"]);
    assert!(matches!(read.failure, Some(ImportCsvError::RecordLength { expected_len: 2, len: 3, .. })));
    let whole = read_csv(b"a,b\n1,2\n");
    assert_eq!(whole.rows.len(), 2);
    assert!(whole.failure.is_none());
}

#[test]
fn seven_column_signal_file_imports_whole() {
    let input = b"signal_1,signal_2,signal_3,signal_4,signal_5,signal_6,action\n1,2,3,4,5,6,1\n0.5,-0.5,0,0,0,0,-1\n";
    let table = import_csv(input).unwrap();
    assert_eq!(table.header.len(), 7);
    assert_eq!(table.records.len(), 2);
    assert_eq!(floats(&table.records[0]), vec![1.0, 2.0, 3.0, 4.0, 5.0, 6.0, 1.0]);
    assert_eq!(floats(&table.records[1]), vec![0.5, -0.5, 0.0, 0.0, 0.0, 0.0, -1.0]);
    match import_csv(b"signal_1,signal_2,signal_3,signal_4,signal_5,signal_6,action\n1,2,3,4,5,6,1,9\n") {
        Err(ImportCsvError::RecordLength { position, expected_len: 7, len: 8 }) => {
            assert_eq!(position.unwrap().line, 2)
        }
        _ => panic!("expected a record length error"),
    }
}

#[test]
fn message_shows_the_position_line() {
    let at = Position { byte: 10, line: 42, record: 7 };
    let e = ImportCsvError::RecordLength { position: Some(at), expected_len: 1, len: 0 };
    assert_eq!(e.message(), "Import CSV unequal record length error at line 42 (expected: 1, found: 0)");
}
