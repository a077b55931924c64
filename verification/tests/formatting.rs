//! Exact expected values for the decimal rendering and the line
//! builders.

use postgres_connection::data::{Author, Table};
use postgres_connection::report::{
    author_line, connect_error, create_error, delete_error, delete_line, fetch_authors_error,
    fetch_nations_error, insert_error, modified_line, nation_line,
};
use postgres_connection::text::{i64_to_string, u64_to_string};

#[test]
fn unsigned_decimal_rendering() {
    assert_eq!(u64_to_string(0), "0");
    assert_eq!(u64_to_string(7), "7");
    assert_eq!(u64_to_string(10), "10");
    assert_eq!(u64_to_string(120), "120");
    assert_eq!(u64_to_string(u64::MAX), "18446744073709551615");
}

#[test]
fn signed_decimal_rendering() {
    assert_eq!(i64_to_string(0), "0");
    assert_eq!(i64_to_string(42), "42");
    assert_eq!(i64_to_string(-5), "-5");
    assert_eq!(i64_to_string(i64::MAX), "9223372036854775807");
    assert_eq!(i64_to_string(i64::MIN), "-9223372036854775808");
}

#[test]
fn report_lines_match_their_formats() {
    assert_eq!(delete_line(3, 0), "author 3  book0");
    assert_eq!(modified_line(1), "total no. of modified rows: 1");
    let a = Author { id: 0, name: "Chinua Achebe".to_string(), country: "Nigeria".to_string() };
    assert_eq!(author_line(&a), "Author Chinua Achebe is from Nigeria");
    assert_eq!(nation_line(&"India".to_string(), 2), "India 2");
    assert_eq!(nation_line(&"Elsewhere".to_string(), -1), "Elsewhere -1");
}

#[test]
fn diagnostics_match_their_formats() {
    let e = "boom".to_string();
    assert_eq!(connect_error(&e), "Error in Db connecting : boom");
    assert_eq!(
        create_error(Table::Artist, &e),
        "artist table can not be created due the error: boom"
    );
    assert_eq!(
        delete_error(Table::Book, &e),
        "Data can not be inserted in table book. Error:boom"
    );
    assert_eq!(insert_error(&e), "Data can not be inserted in author table Error:boom");
    assert_eq!(
        fetch_authors_error(&e),
        "Data can not be fetched from author table Error: boom"
    );
    assert_eq!(
        fetch_nations_error(&e),
        "Data can not be fetched from artist table Error: boom"
    );
}
