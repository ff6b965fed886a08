use systemair_save_tools::output::{csv_row, Format, Formatter, HeaderStep, ResultStep};

#[test]
fn csv_rows_quote_where_needed() {
    let row = csv_row(&vec!["a".to_string(), "b,c".to_string()]);
    assert_eq!(row, b"a,\"b,c\",\n".to_vec());
    let row = csv_row(&vec!["say \"hi\"".to_string()]);
    assert_eq!(row, b"\"say \"\"hi\"\"\",\n".to_vec());
    let row = csv_row(&vec!["1001".to_string(), "".to_string()]);
    assert_eq!(row, b"1001,,\n".to_vec());
}

#[test]
fn csv_rows_of_no_values_and_line_breaks() {
    let row = csv_row(&vec![]);
    assert_eq!(row, b"\"\"\n".to_vec());
    let row = csv_row(&vec!["".to_string()]);
    assert_eq!(row, b",\n".to_vec());
    let row = csv_row(&vec!["two\nlines".to_string(), "cr\r".to_string(), "\"".to_string()]);
    assert_eq!(row, b"\"two\nlines\",\"cr\r\",\"\"\"\",\n".to_vec());
}

#[test]
fn csv_writes_headers_then_rows() {
    let mut f = Formatter::new(Format::Csv);
    assert_eq!(f, Formatter::Csv { written_records: false });
    assert_eq!(f.table_headers(), HeaderStep::WriteCsvRow);
    assert_eq!(f, Formatter::Csv { written_records: true });
    assert_eq!(f.result(), ResultStep::WriteCsvRow);
    assert!(!f.prints_on_commit());
}

#[test]
fn table_collects_and_prints_on_commit() {
    let mut f = Formatter::new(Format::Table);
    assert_eq!(f.table_headers(), HeaderStep::SetTableHeader);
    assert_eq!(f.result(), ResultStep::AddTableRow);
    assert!(f.prints_on_commit());
}

#[test]
fn json_lines_have_no_header() {
    let mut f = Formatter::new(Format::Jsonl);
    assert_eq!(f.table_headers(), HeaderStep::Nothing);
    assert_eq!(f.result(), ResultStep::WriteJsonLine);
    assert_eq!(f, Formatter::Jsonl);
}
