use std::sync::Arc;

use lunchbox::error::missing_column_error;
use mysql_common::packets::Column;

fn empty_row() -> mysql::Row {
    let columns: Arc<[Column]> = Vec::<Column>::new().into();
    mysql_common::row::new_row(Vec::new(), columns)
}

#[test]
fn missing_column_error_keeps_index() {
    let e = missing_column_error(empty_row(), 3);
    assert_eq!(e.index, 3);
    assert_eq!(e.source.len(), 0);
}

#[test]
fn missing_column_message_names_the_column() {
    assert_eq!(missing_column_error(empty_row(), 0).message(), "Unable to read column 0 from result");
    assert_eq!(missing_column_error(empty_row(), 1234).message(), "Unable to read column 1234 from result");
}

#[test]
fn missing_column_description() {
    assert_eq!(missing_column_error(empty_row(), 5).description(), "Missing the requested column number");
}
