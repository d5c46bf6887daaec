use yahoo2fnu::errors::ErrorKind;
use yahoo2fnu::fnu::{column_index, format_row, write_fnu};
use yahoo2fnu::options::DataValue;

const HEADER: &str = "Date,Open,High,Low,Close,Adj Close,Volume";

#[test]
fn close_column_is_index_four() {
    assert_eq!(column_index(HEADER, DataValue::Close), Some(4));
    assert_eq!(column_index(HEADER, DataValue::AdjustedClose), Some(5));
    assert_eq!(column_index(HEADER, DataValue::Volume), Some(6));
}

#[test]
fn absent_column_is_missing() {
    assert_eq!(column_index("Date,Open,High", DataValue::Close), None);
    assert_eq!(write_fnu("Date,Open,High\n2020-03-05,1,2\n", "X", DataValue::Close), Err(ErrorKind::MissingColumn));
}

#[test]
fn empty_data_is_missing_column() {
    assert_eq!(write_fnu("", "X", DataValue::Close), Err(ErrorKind::MissingColumn));
}

#[test]
fn row_date_is_reformatted() {
    assert_eq!(format_row("2020-03-05,1,2,3,123.45,5,6", 4), Ok("03/05/2020,123.45,0".to_string()));
}

#[test]
fn short_row_is_malformed() {
    assert_eq!(format_row("2020-03-05,1,2", 4), Err(ErrorKind::MalformedRow));
    assert_eq!(format_row("2020-3-5,1,2,3,4", 4), Err(ErrorKind::MalformedRow));
}

#[test]
fn malformed_row_aborts_whole_output() {
    let csv = format!("{}\n2020-03-05,1,2,3,123.45,5,6\n2020-03-06,1,2\n2020-03-09,1,2,3,9,5,6\n", HEADER);
    assert_eq!(write_fnu(&csv, "SPY", DataValue::Close), Err(ErrorKind::MalformedRow));
}

#[test]
fn whole_file_keeps_row_order() {
    let csv = format!("{}\n2020-03-05,1,2,3,123.45,5,6\n2020-03-04,1,2,3,null,5,6\n", HEADER);
    let out = write_fnu(&csv, "SPY", DataValue::Close).unwrap();
    assert_eq!(out, "SPY\nSPY Close\n03/05/2020,123.45,0\n03/04/2020,null,0\n");
}

#[test]
fn header_only_gives_header_lines() {
    assert_eq!(write_fnu(HEADER, "IBM", DataValue::AdjustedClose), Ok("IBM\nIBM Adj Close\n".to_string()));
}
