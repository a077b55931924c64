//! Every line the program prints and every fatal diagnostic it can
//! raise, each pinned to its exact character sequence.

use vstd::prelude::*;
use crate::data::{Author, Table, table_name, table_name_rep};
use crate::text::{dec_rep, dec_rep_signed, i64_to_string, u64_to_string};

verus! {

/// The line reporting how many rows the two deletions removed.
pub open spec fn delete_line_rep(author_rows: nat, book_rows: nat) -> Seq<char> {
    "author "@ + dec_rep(author_rows) + "  book"@ + dec_rep(book_rows)
}

/// The line reporting how many rows the two deletions removed.
pub fn delete_line(author_rows: u64, book_rows: u64) -> (r: String)
    ensures
        r@ == delete_line_rep(author_rows as nat, book_rows as nat),
{
    let mut s = String::from_str("author ");
    let a = u64_to_string(author_rows);
    s.append(a.as_str());
    s.append("  book");
    let b = u64_to_string(book_rows);
    s.append(b.as_str());
    s
}

/// The line reporting how many rows one insert modified.
pub open spec fn modified_line_rep(rows: nat) -> Seq<char> {
    "total no. of modified rows: "@ + dec_rep(rows)
}

/// The line reporting how many rows one insert modified.
pub fn modified_line(rows: u64) -> (r: String)
    ensures
        r@ == modified_line_rep(rows as nat),
{
    let mut s = String::from_str("total no. of modified rows: ");
    let n = u64_to_string(rows);
    s.append(n.as_str());
    s
}

/// The read-back line for one author row.
pub open spec fn author_line_rep(name: Seq<char>, country: Seq<char>) -> Seq<char> {
    "Author "@ + name + " is from "@ + country
}

/// The read-back line for one author row.
pub fn author_line(a: &Author) -> (r: String)
    ensures
        r@ == author_line_rep(a.name@, a.country@),
{
    let mut s = String::from_str("Author ");
    s.append(a.name.as_str());
    s.append(" is from ");
    s.append(a.country.as_str());
    s
}

/// The line for one grouped nationality.
pub open spec fn nation_line_rep(nationality: Seq<char>, count: int) -> Seq<char> {
    nationality + " "@ + dec_rep_signed(count)
}

/// The line for one grouped nationality.
pub fn nation_line(nationality: &String, count: i64) -> (r: String)
    ensures
        r@ == nation_line_rep(nationality@, count as int),
{
    let mut s = nationality.clone();
    s.append(" ");
    let n = i64_to_string(count);
    s.append(n.as_str());
    s
}

/// The fatal diagnostic for a failed connection attempt.
pub open spec fn connect_error_rep(error: Seq<char>) -> Seq<char> {
    "Error in Db connecting : "@ + error
}

/// The fatal diagnostic for a failed connection attempt.
pub fn connect_error(error: &String) -> (r: String)
    ensures
        r@ == connect_error_rep(error@),
{
    let mut s = String::from_str("Error in Db connecting : ");
    s.append(error.as_str());
    s
}

/// The fatal diagnostic for a failed schema statement.
pub open spec fn create_error_rep(t: Table, error: Seq<char>) -> Seq<char> {
    table_name_rep(t) + " table can not be created due the error: "@ + error
}

/// The fatal diagnostic for a failed schema statement.
pub fn create_error(t: Table, error: &String) -> (r: String)
    ensures
        r@ == create_error_rep(t, error@),
{
    let mut s = String::from_str(table_name(t));
    s.append(" table can not be created due the error: ");
    s.append(error.as_str());
    s
}

/// The fatal diagnostic for a failed deletion.
pub open spec fn delete_error_rep(t: Table, error: Seq<char>) -> Seq<char> {
    "Data can not be inserted in table "@ + table_name_rep(t) + ". Error:"@ + error
}

/// The fatal diagnostic for a failed deletion.
pub fn delete_error(t: Table, error: &String) -> (r: String)
    ensures
        r@ == delete_error_rep(t, error@),
{
    let mut s = String::from_str("Data can not be inserted in table ");
    s.append(table_name(t));
    s.append(". Error:");
    s.append(error.as_str());
    s
}

/// The fatal diagnostic for a failed author insert.
pub open spec fn insert_error_rep(error: Seq<char>) -> Seq<char> {
    "Data can not be inserted in author table Error:"@ + error
}

/// The fatal diagnostic for a failed author insert.
pub fn insert_error(error: &String) -> (r: String)
    ensures
        r@ == insert_error_rep(error@),
{
    let mut s = String::from_str("Data can not be inserted in author table Error:");
    s.append(error.as_str());
    s
}

/// The fatal diagnostic for a failed author read-back.
pub open spec fn fetch_authors_error_rep(error: Seq<char>) -> Seq<char> {
    "Data can not be fetched from author table Error: "@ + error
}

/// The fatal diagnostic for a failed author read-back.
pub fn fetch_authors_error(error: &String) -> (r: String)
    ensures
        r@ == fetch_authors_error_rep(error@),
{
    let mut s = String::from_str("Data can not be fetched from author table Error: ");
    s.append(error.as_str());
    s
}

/// The fatal diagnostic for a failed aggregation query.
pub open spec fn fetch_nations_error_rep(error: Seq<char>) -> Seq<char> {
    "Data can not be fetched from artist table Error: "@ + error
}

/// The fatal diagnostic for a failed aggregation query.
pub fn fetch_nations_error(error: &String) -> (r: String)
    ensures
        r@ == fetch_nations_error_rep(error@),
{
    let mut s = String::from_str("Data can not be fetched from artist table Error: ");
    s.append(error.as_str());
    s
}

} // verus!
