//! The statement texts the program sends to the database, each pinned
//! to its exact character sequence.

use vstd::prelude::*;
use crate::data::Table;

verus! {

/// The schema of the author table.
pub open spec fn author_ddl_rep() -> Seq<char> {
    "
    CREATE TABLE IF NOT EXISTS author (
        id              SERIAL PRIMARY KEY,
        name            VARCHAR NOT NULL,
        country         VARCHAR NOT NULL
        )
"@
}

/// The schema of the book table.
pub open spec fn book_ddl_rep() -> Seq<char> {
    "
    CREATE TABLE IF NOT EXISTS book  (
        id              SERIAL PRIMARY KEY,
        title           VARCHAR NOT NULL,
        author_id       INTEGER NOT NULL REFERENCES author
        )
"@
}

/// The schema of the artist table.
pub open spec fn artist_ddl_rep() -> Seq<char> {
    "CREATE TABLE IF NOT EXISTS artist (
    id              SERIAL PRIMARY KEY,
    name          VARCHAR NOT NULL,
    book_name      VARCHAR NOT NULL,
    nationality      VARCHAR NOT NULL
    )
"@
}

/// The schema statement for a table.
pub open spec fn ddl_rep(t: Table) -> Seq<char> {
    match t {
        Table::Author => author_ddl_rep(),
        Table::Book => book_ddl_rep(),
        Table::Artist => artist_ddl_rep(),
    }
}

/// The schema statement for a table. Each statement creates the table
/// only if it does not exist yet, so running it again is harmless.
pub fn ddl_text(t: Table) -> (r: &'static str)
    ensures
        r@ == ddl_rep(t),
{
    match t {
        Table::Author => "
    CREATE TABLE IF NOT EXISTS author (
        id              SERIAL PRIMARY KEY,
        name            VARCHAR NOT NULL,
        country         VARCHAR NOT NULL
        )
",
        Table::Book => "
    CREATE TABLE IF NOT EXISTS book  (
        id              SERIAL PRIMARY KEY,
        title           VARCHAR NOT NULL,
        author_id       INTEGER NOT NULL REFERENCES author
        )
",
        Table::Artist => "CREATE TABLE IF NOT EXISTS artist (
    id              SERIAL PRIMARY KEY,
    name          VARCHAR NOT NULL,
    book_name      VARCHAR NOT NULL,
    nationality      VARCHAR NOT NULL
    )
",
    }
}

/// The statement that clears a table's rows.
pub open spec fn delete_rep(t: Table) -> Seq<char> {
    match t {
        Table::Author => "delete from author"@,
        Table::Book => "delete from book"@,
        Table::Artist => "delete from artist"@,
    }
}

/// The statement that clears a table's rows.
pub fn delete_text(t: Table) -> (r: &'static str)
    ensures
        r@ == delete_rep(t),
{
    match t {
        Table::Author => "delete from author",
        Table::Book => "delete from book",
        Table::Artist => "delete from artist",
    }
}

/// The parameterized insert into the author table.
pub open spec fn insert_author_rep() -> Seq<char> {
    "INSERT INTO author (id,name, country) VALUES ($1, $2,$3)"@
}

/// The parameterized insert into the author table.
pub fn insert_author_text() -> (r: &'static str)
    ensures
        r@ == insert_author_rep(),
{
    "INSERT INTO author (id,name, country) VALUES ($1, $2,$3)"
}

/// The unfiltered, unsorted author read-back.
pub open spec fn select_authors_rep() -> Seq<char> {
    "SELECT id, name, country FROM author"@
}

/// The unfiltered, unsorted author read-back.
pub fn select_authors_text() -> (r: &'static str)
    ensures
        r@ == select_authors_rep(),
{
    "SELECT id, name, country FROM author"
}

/// The nationality aggregation: grouped counts, most frequent first.
pub open spec fn select_nations_rep() -> Seq<char> {
    "SELECT nationality, COUNT(nationality) AS count
    FROM artist GROUP BY nationality ORDER BY count DESC"@
}

/// The nationality aggregation: grouped counts, most frequent first.
pub fn select_nations_text() -> (r: &'static str)
    ensures
        r@ == select_nations_rep(),
{
    "SELECT nationality, COUNT(nationality) AS count
    FROM artist GROUP BY nationality ORDER BY count DESC"
}

} // verus!
