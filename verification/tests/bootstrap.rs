//! Drives the bootstrap state machine through its runs: the full happy
//! path with exact requests and printed lines, and the aborts that a
//! failed connection or a failed insert force.

use postgres_connection::data::{Author, NationRow, Table};
use postgres_connection::machine::{
    initial_phase, phase_has_request, phase_is_wf, request_of, response_fits, step, Phase, Request,
    Response,
};

const AUTHOR_DDL: &str = "
    CREATE TABLE IF NOT EXISTS author (
        id              SERIAL PRIMARY KEY,
        name            VARCHAR NOT NULL,
        country         VARCHAR NOT NULL
        )
";

const BOOK_DDL: &str = "
    CREATE TABLE IF NOT EXISTS book  (
        id              SERIAL PRIMARY KEY,
        title           VARCHAR NOT NULL,
        author_id       INTEGER NOT NULL REFERENCES author
        )
";

const ARTIST_DDL: &str = "CREATE TABLE IF NOT EXISTS artist (
    id              SERIAL PRIMARY KEY,
    name          VARCHAR NOT NULL,
    book_name      VARCHAR NOT NULL,
    nationality      VARCHAR NOT NULL
    )
";

fn advance(phase: Phase, resp: Response) -> (Phase, Vec<String>, Option<String>) {
    assert!(phase_is_wf(&phase));
    assert!(response_fits(&phase, &resp));
    let out = step(phase, resp);
    (out.next, out.lines, out.fatal)
}

#[test]
fn connect_is_the_first_request() {
    let phase = initial_phase();
    assert_eq!(phase, Phase::Connecting);
    assert!(matches!(request_of(&phase), Some(Request::Connect)));
}

#[test]
fn full_run_requests_and_lines() {
    let mut phase = initial_phase();

    // Connection established.
    let (next, lines, fatal) = advance(phase, Response::Connected);
    assert!(lines.is_empty());
    assert!(fatal.is_none());
    phase = next;

    // The three schema statements, in order, with the exact texts.
    for (table, ddl) in [
        (Table::Author, AUTHOR_DDL),
        (Table::Book, BOOK_DDL),
        (Table::Artist, ARTIST_DDL),
    ] {
        match request_of(&phase) {
            Some(Request::CreateTable { table: t, ddl: text }) => {
                assert_eq!(t, table);
                assert_eq!(text, ddl);
            }
            _ => panic!("expected a schema request"),
        }
        let (next, lines, fatal) = advance(phase, Response::TableCreated);
        assert!(lines.is_empty());
        assert!(fatal.is_none());
        phase = next;
    }

    // The two deletions; the row counts are reported in one line.
    match request_of(&phase) {
        Some(Request::Delete { table, sql }) => {
            assert_eq!(table, Table::Author);
            assert_eq!(sql, "delete from author");
        }
        _ => panic!("expected the author deletion"),
    }
    let (next, lines, fatal) = advance(phase, Response::Deleted { deleted: 3 });
    assert!(lines.is_empty());
    assert!(fatal.is_none());
    phase = next;

    match request_of(&phase) {
        Some(Request::Delete { table, sql }) => {
            assert_eq!(table, Table::Book);
            assert_eq!(sql, "delete from book");
        }
        _ => panic!("expected the book deletion"),
    }
    let (next, lines, fatal) = advance(phase, Response::Deleted { deleted: 0 });
    assert_eq!(lines, vec!["author 3  book0".to_string()]);
    assert!(fatal.is_none());
    phase = next;

    // The three seeded inserts, each reporting one modified row.
    let expected_seed = [
        ("Chinua Achebe", "Nigeria"),
        ("Rabindranath Tagore", "India"),
        ("Anita Nair", "India"),
    ];
    for (i, (name, country)) in expected_seed.iter().enumerate() {
        match request_of(&phase) {
            Some(Request::InsertAuthor { author, sql }) => {
                assert_eq!(author.id, i as i32);
                assert_eq!(author.name, *name);
                assert_eq!(author.country, *country);
                assert_eq!(sql, "INSERT INTO author (id,name, country) VALUES ($1, $2,$3)");
            }
            _ => panic!("expected an insert request"),
        }
        let (next, lines, fatal) = advance(phase, Response::Inserted { inserted: 1 });
        assert_eq!(lines, vec!["total no. of modified rows: 1".to_string()]);
        assert!(fatal.is_none());
        phase = next;
    }

    // The author read-back, printed row by row.
    match request_of(&phase) {
        Some(Request::FetchAuthors { sql }) => {
            assert_eq!(sql, "SELECT id, name, country FROM author");
        }
        _ => panic!("expected the author read-back"),
    }
    let authors = vec![
        Author { id: 0, name: "Chinua Achebe".to_string(), country: "Nigeria".to_string() },
        Author { id: 1, name: "Rabindranath Tagore".to_string(), country: "India".to_string() },
        Author { id: 2, name: "Anita Nair".to_string(), country: "India".to_string() },
    ];
    let (next, lines, fatal) = advance(phase, Response::AuthorRows { authors });
    assert_eq!(
        lines,
        vec![
            "Author Chinua Achebe is from Nigeria".to_string(),
            "Author Rabindranath Tagore is from India".to_string(),
            "Author Anita Nair is from India".to_string(),
        ]
    );
    assert!(fatal.is_none());
    phase = next;

    // The aggregation, printed in result order.
    match request_of(&phase) {
        Some(Request::FetchNations { sql }) => {
            assert_eq!(
                sql,
                "SELECT nationality, COUNT(nationality) AS count\n    FROM artist GROUP BY nationality ORDER BY count DESC"
            );
        }
        _ => panic!("expected the aggregation query"),
    }
    let nations = vec![
        NationRow { nationality: Some("India".to_string()), count: Some(2) },
        NationRow { nationality: Some("Nigeria".to_string()), count: Some(1) },
    ];
    let (next, lines, fatal) = advance(phase, Response::NationRows { nations });
    assert_eq!(lines, vec!["India 2".to_string(), "Nigeria 1".to_string()]);
    assert!(fatal.is_none());
    phase = next;

    // The run is over: nothing further is asked of the database.
    assert_eq!(phase, Phase::Done);
    assert!(!phase_has_request(&phase));
    assert!(request_of(&phase).is_none());
}

#[test]
fn connect_failure_aborts_before_any_table_creation() {
    let phase = initial_phase();
    let (next, lines, fatal) = advance(
        phase,
        Response::Failed { error: "invalid connection url".to_string() },
    );
    assert_eq!(next, Phase::Aborted);
    assert!(lines.is_empty());
    assert_eq!(
        fatal,
        Some("Error in Db connecting : invalid connection url".to_string())
    );
    // The aborted run has no pending request: no table creation is
    // ever attempted.
    assert!(!phase_has_request(&next));
    assert!(request_of(&next).is_none());
}

#[test]
fn insert_failure_prevents_all_later_operations() {
    // Walk to the first insert.
    let mut phase = initial_phase();
    phase = advance(phase, Response::Connected).0;
    for _ in 0..3 {
        phase = advance(phase, Response::TableCreated).0;
    }
    phase = advance(phase, Response::Deleted { deleted: 0 }).0;
    phase = advance(phase, Response::Deleted { deleted: 0 }).0;
    assert_eq!(phase, Phase::Seeding { idx: 0 });

    // The insert fails, as a duplicate primary key would make it.
    let (next, lines, fatal) = advance(
        phase,
        Response::Failed { error: "duplicate key value violates unique constraint".to_string() },
    );
    assert_eq!(next, Phase::Aborted);
    assert!(lines.is_empty());
    assert_eq!(
        fatal,
        Some(
            "Data can not be inserted in author table Error:duplicate key value violates unique constraint"
                .to_string()
        )
    );
    // No later insert, no read-back, no aggregation is requested.
    assert!(!phase_has_request(&next));
    assert!(request_of(&next).is_none());
}

#[test]
fn failure_diagnostics_name_the_operation() {
    let err = || Response::Failed { error: "boom".to_string() };
    let fatal_of = |phase: Phase| advance(phase, err()).2.unwrap();
    assert_eq!(
        fatal_of(Phase::CreatingTable { table: Table::Author }),
        "author table can not be created due the error: boom"
    );
    assert_eq!(
        fatal_of(Phase::CreatingTable { table: Table::Book }),
        "book table can not be created due the error: boom"
    );
    assert_eq!(
        fatal_of(Phase::CreatingTable { table: Table::Artist }),
        "artist table can not be created due the error: boom"
    );
    assert_eq!(
        fatal_of(Phase::ClearingAuthor),
        "Data can not be inserted in table author. Error:boom"
    );
    assert_eq!(
        fatal_of(Phase::ClearingBook { author_rows: 7 }),
        "Data can not be inserted in table book. Error:boom"
    );
    assert_eq!(
        fatal_of(Phase::FetchingAuthors),
        "Data can not be fetched from author table Error: boom"
    );
    assert_eq!(
        fatal_of(Phase::FetchingNations),
        "Data can not be fetched from artist table Error: boom"
    );
}

#[test]
fn read_back_of_no_rows_prints_nothing() {
    let (next, lines, fatal) = advance(
        Phase::FetchingAuthors,
        Response::AuthorRows { authors: Vec::new() },
    );
    assert_eq!(next, Phase::FetchingNations);
    assert!(lines.is_empty());
    assert!(fatal.is_none());
}
