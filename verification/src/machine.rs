//! The bootstrap sequence as a state machine. The library decides, the
//! caller performs: `request_of` says which database request the run
//! makes next, and `step` takes the database's reply and returns the
//! next phase, the lines to print, and the fatal diagnostic if the run
//! must stop. The sequence is strictly linear and every failure aborts
//! the whole run at once.

use vstd::prelude::*;
use vstd::pervasive::unreached;
use crate::agg::{filter_nations, kept_pairs};
use crate::data::{Author, NationRow, Table, seed_author, seed_len, seed_name, seed_country};
use crate::report::{
    author_line,
    author_line_rep,
    connect_error,
    connect_error_rep,
    create_error,
    create_error_rep,
    delete_error,
    delete_error_rep,
    delete_line,
    delete_line_rep,
    fetch_authors_error,
    fetch_authors_error_rep,
    fetch_nations_error,
    fetch_nations_error_rep,
    insert_error,
    insert_error_rep,
    modified_line,
    modified_line_rep,
    nation_line,
    nation_line_rep,
};
use crate::sql::{
    ddl_rep,
    ddl_text,
    delete_rep,
    delete_text,
    insert_author_rep,
    insert_author_text,
    select_authors_rep,
    select_authors_text,
    select_nations_rep,
    select_nations_text,
};

verus! {

/// Where the run stands. Each phase but the last two has exactly one
/// pending database request.
#[derive(PartialEq, Eq, Structural, Clone, Copy, Debug)]
pub enum Phase {
    /// Waiting for the connection to be established.
    Connecting,
    /// Waiting for the named table's schema statement.
    CreatingTable { table: Table },
    /// Waiting for the deletion of the author rows.
    ClearingAuthor,
    /// Waiting for the deletion of the book rows; carries how many
    /// author rows the previous deletion removed.
    ClearingBook { author_rows: u64 },
    /// Waiting for the insert of the `idx`-th seeded author.
    Seeding { idx: usize },
    /// Waiting for the author read-back.
    FetchingAuthors,
    /// Waiting for the nationality aggregation.
    FetchingNations,
    /// The run finished normally.
    Done,
    /// The run stopped on a failure.
    Aborted,
}

/// A database request the caller must perform.
pub enum Request {
    /// Establish the connection.
    Connect,
    /// Run the table's schema statement.
    CreateTable { table: Table, ddl: String },
    /// Run the statement that clears the table.
    Delete { table: Table, sql: String },
    /// Run the parameterized insert with the author's fields bound.
    InsertAuthor { author: Author, sql: String },
    /// Run the author read-back query.
    FetchAuthors { sql: String },
    /// Run the nationality aggregation query.
    FetchNations { sql: String },
}

/// What the database answered.
pub enum Response {
    /// The connection stands.
    Connected,
    /// The schema statement went through.
    TableCreated,
    /// The deletion went through, removing this many rows.
    Deleted { deleted: u64 },
    /// The insert went through, modifying this many rows.
    Inserted { inserted: u64 },
    /// The author read-back returned these rows.
    AuthorRows { authors: Vec<Author> },
    /// The aggregation returned these rows; either column of a row may
    /// be absent.
    NationRows { nations: Vec<NationRow> },
    /// The request failed with this error text.
    Failed { error: String },
}

/// What one step decides: the next phase, the lines to print in order,
/// and, on failure, the diagnostic the run must stop with.
pub struct StepOutcome {
    pub next: Phase,
    pub lines: Vec<String>,
    pub fatal: Option<String>,
}

/// A well-formed phase never seeds past the end of the seed list.
pub open spec fn phase_wf(p: Phase) -> bool {
    p matches Phase::Seeding { idx } ==> idx < seed_len()
}

/// Whether the run still has a database request to make.
pub open spec fn has_request(p: Phase) -> bool {
    !(p is Done) && !(p is Aborted)
}

/// Whether a response is one that the phase's pending request can
/// produce. No response fits a finished or aborted run.
pub open spec fn resp_matches(p: Phase, r: Response) -> bool {
    match r {
        Response::Failed { .. } => has_request(p),
        Response::Connected => p is Connecting,
        Response::TableCreated => p is CreatingTable,
        Response::Deleted { .. } => p is ClearingAuthor || p is ClearingBook,
        Response::Inserted { .. } => p is Seeding,
        Response::AuthorRows { .. } => p is FetchingAuthors,
        Response::NationRows { .. } => p is FetchingNations,
    }
}

/// The phase after a response: any failure aborts; otherwise the run
/// advances along the fixed sequence of connect, three schema
/// statements, two deletions, three inserts, read-back, aggregation.
pub open spec fn next_phase(p: Phase, r: Response) -> Phase {
    if r is Failed {
        Phase::Aborted
    } else {
        match p {
            Phase::Connecting => Phase::CreatingTable { table: Table::Author },
            Phase::CreatingTable { table } => match table {
                Table::Author => Phase::CreatingTable { table: Table::Book },
                Table::Book => Phase::CreatingTable { table: Table::Artist },
                Table::Artist => Phase::ClearingAuthor,
            },
            Phase::ClearingAuthor => Phase::ClearingBook { author_rows: r->deleted },
            Phase::ClearingBook { .. } => Phase::Seeding { idx: 0 },
            Phase::Seeding { idx } => if idx + 1 < seed_len() {
                Phase::Seeding { idx: (idx + 1) as usize }
            } else {
                Phase::FetchingAuthors
            },
            Phase::FetchingAuthors => Phase::FetchingNations,
            Phase::FetchingNations => Phase::Done,
            Phase::Done => Phase::Done,
            Phase::Aborted => Phase::Aborted,
        }
    }
}

/// The diagnostic a failure in the given phase stops the run with.
pub open spec fn fatal_rep(p: Phase, error: Seq<char>) -> Seq<char> {
    match p {
        Phase::Connecting => connect_error_rep(error),
        Phase::CreatingTable { table } => create_error_rep(table, error),
        Phase::ClearingAuthor => delete_error_rep(Table::Author, error),
        Phase::ClearingBook { .. } => delete_error_rep(Table::Book, error),
        Phase::Seeding { .. } => insert_error_rep(error),
        Phase::FetchingAuthors => fetch_authors_error_rep(error),
        Phase::FetchingNations => fetch_nations_error_rep(error),
        Phase::Done => error,
        Phase::Aborted => error,
    }
}

/// The phase a run starts in: nothing has been asked of the database
/// yet, and the first request is the connection attempt.
pub fn initial_phase() -> (p: Phase)
    ensures
        p == Phase::Connecting,
        phase_wf(p),
{
    Phase::Connecting
}

/// The database request pending in a phase: exactly one while the run
/// is neither finished nor aborted, none afterwards.
pub fn request_of(phase: &Phase) -> (r: Option<Request>)
    requires
        phase_wf(*phase),
    ensures
        r is Some <==> has_request(*phase),
        match *phase {
            Phase::Connecting => r matches Some(Request::Connect),
            Phase::CreatingTable { table } => (r matches Some(
                Request::CreateTable { table: t, ddl },
            ) && t == table && ddl@ == ddl_rep(table)),
            Phase::ClearingAuthor => (r matches Some(Request::Delete { table, sql })
                && table == Table::Author && sql@ == delete_rep(Table::Author)),
            Phase::ClearingBook { .. } => (r matches Some(Request::Delete { table, sql })
                && table == Table::Book && sql@ == delete_rep(Table::Book)),
            Phase::Seeding { idx } => (r matches Some(Request::InsertAuthor { author, sql })
                && author.id == idx && author.name@ == seed_name(idx as int)
                && author.country@ == seed_country(idx as int) && sql@ == insert_author_rep()),
            Phase::FetchingAuthors => (r matches Some(Request::FetchAuthors { sql }) && sql@
                == select_authors_rep()),
            Phase::FetchingNations => (r matches Some(Request::FetchNations { sql }) && sql@
                == select_nations_rep()),
            Phase::Done => r is None,
            Phase::Aborted => r is None,
        },
{
    match phase {
        Phase::Connecting => Some(Request::Connect),
        Phase::CreatingTable { table } => Some(
            Request::CreateTable { table: *table, ddl: String::from_str(ddl_text(*table)) },
        ),
        Phase::ClearingAuthor => Some(
            Request::Delete {
                table: Table::Author,
                sql: String::from_str(delete_text(Table::Author)),
            },
        ),
        Phase::ClearingBook { .. } => Some(
            Request::Delete { table: Table::Book, sql: String::from_str(delete_text(Table::Book)) },
        ),
        Phase::Seeding { idx } => Some(
            Request::InsertAuthor {
                author: seed_author(*idx),
                sql: String::from_str(insert_author_text()),
            },
        ),
        Phase::FetchingAuthors => Some(
            Request::FetchAuthors { sql: String::from_str(select_authors_text()) },
        ),
        Phase::FetchingNations => Some(
            Request::FetchNations { sql: String::from_str(select_nations_text()) },
        ),
        Phase::Done => None,
        Phase::Aborted => None,
    }
}

/// Takes the database's reply to the pending request and decides the
/// next phase, the lines to print, and whether the run must stop.
pub fn step(phase: Phase, resp: Response) -> (out: StepOutcome)
    requires
        phase_wf(phase),
        resp_matches(phase, resp),
    ensures
        phase_wf(out.next),
        out.next == next_phase(phase, resp),
        resp matches Response::Failed { error } ==> {
            &&& out.lines@.len() == 0
            &&& out.fatal matches Some(m) && m@ == fatal_rep(phase, error@)
        },
        !(resp is Failed) ==> {
            &&& out.fatal is None
            &&& match phase {
                Phase::ClearingBook { author_rows } => (resp matches Response::Deleted { deleted }
                    && out.lines@.len() == 1 && out.lines@[0]@ == delete_line_rep(
                    author_rows as nat,
                    deleted as nat,
                )),
                Phase::Seeding { .. } => (resp matches Response::Inserted { inserted }
                    && out.lines@.len() == 1 && out.lines@[0]@ == modified_line_rep(
                    inserted as nat,
                )),
                Phase::FetchingAuthors => (resp matches Response::AuthorRows { authors }
                    && out.lines@.len() == authors@.len() && forall|j: int|
                    0 <= j < authors@.len() ==> (#[trigger] out.lines@[j])@ == author_line_rep(
                        authors@[j].name@,
                        authors@[j].country@,
                    )),
                Phase::FetchingNations => (resp matches Response::NationRows { nations }
                    && out.lines@.len() == kept_pairs(nations@).len() && forall|j: int|
                    0 <= j < out.lines@.len() ==> (#[trigger] out.lines@[j])@ == nation_line_rep(
                        kept_pairs(nations@)[j].0,
                        kept_pairs(nations@)[j].1,
                    )),
                _ => out.lines@.len() == 0,
            }
        },
{
    match resp {
        Response::Failed { error } => {
            let msg = match phase {
                Phase::Connecting => connect_error(&error),
                Phase::CreatingTable { table } => create_error(table, &error),
                Phase::ClearingAuthor => delete_error(Table::Author, &error),
                Phase::ClearingBook { .. } => delete_error(Table::Book, &error),
                Phase::Seeding { .. } => insert_error(&error),
                Phase::FetchingAuthors => fetch_authors_error(&error),
                Phase::FetchingNations => fetch_nations_error(&error),
                Phase::Done => unreached(),
                Phase::Aborted => unreached(),
            };
            StepOutcome { next: Phase::Aborted, lines: Vec::new(), fatal: Some(msg) }
        },
        Response::Connected => StepOutcome {
            next: Phase::CreatingTable { table: Table::Author },
            lines: Vec::new(),
            fatal: None,
        },
        Response::TableCreated => {
            let next = match phase {
                Phase::CreatingTable { table } => match table {
                    Table::Author => Phase::CreatingTable { table: Table::Book },
                    Table::Book => Phase::CreatingTable { table: Table::Artist },
                    Table::Artist => Phase::ClearingAuthor,
                },
                _ => unreached(),
            };
            StepOutcome { next, lines: Vec::new(), fatal: None }
        },
        Response::Deleted { deleted } => match phase {
            Phase::ClearingAuthor => StepOutcome {
                next: Phase::ClearingBook { author_rows: deleted },
                lines: Vec::new(),
                fatal: None,
            },
            Phase::ClearingBook { author_rows } => {
                let mut lines: Vec<String> = Vec::new();
                lines.push(delete_line(author_rows, deleted));
                StepOutcome { next: Phase::Seeding { idx: 0 }, lines, fatal: None }
            },
            _ => unreached(),
        },
        Response::Inserted { inserted } => {
            let next = match phase {
                Phase::Seeding { idx } => if idx + 1 < 3 {
                    Phase::Seeding { idx: idx + 1 }
                } else {
                    Phase::FetchingAuthors
                },
                _ => unreached(),
            };
            let mut lines: Vec<String> = Vec::new();
            lines.push(modified_line(inserted));
            StepOutcome { next, lines, fatal: None }
        },
        Response::AuthorRows { authors } => {
            let n = authors.len();
            let mut lines: Vec<String> = Vec::new();
            for j in 0..n
                invariant
                    n == authors@.len(),
                    lines@.len() == j,
                    forall|q: int|
                        0 <= q < j ==> (#[trigger] lines@[q])@ == author_line_rep(
                            authors@[q].name@,
                            authors@[q].country@,
                        ),
            {
                lines.push(author_line(&authors[j]));
            }
            StepOutcome { next: Phase::FetchingNations, lines, fatal: None }
        },
        Response::NationRows { nations } => {
            let filtered = filter_nations(&nations);
            let n = filtered.len();
            let mut lines: Vec<String> = Vec::new();
            for j in 0..n
                invariant
                    n == filtered@.len(),
                    n == kept_pairs(nations@).len(),
                    lines@.len() == j,
                    forall|q: int|
                        0 <= q < filtered@.len() ==> {
                            &&& (#[trigger] filtered@[q]).nationality@ == kept_pairs(nations@)[q].0
                            &&& filtered@[q].count as int == kept_pairs(nations@)[q].1
                        },
                    forall|q: int|
                        0 <= q < j ==> (#[trigger] lines@[q])@ == nation_line_rep(
                            kept_pairs(nations@)[q].0,
                            kept_pairs(nations@)[q].1,
                        ),
            {
                let entry = &filtered[j];
                lines.push(nation_line(&entry.nationality, entry.count));
            }
            StepOutcome { next: Phase::Done, lines, fatal: None }
        },
    }
}

/// Law: the run starts by connecting, and a failed connection aborts
/// it at once: the aborted run has no pending request, so no schema
/// statement — and nothing else — is ever asked of the database.
pub proof fn lemma_connect_failure_aborts(error: String)
    ensures
        next_phase(Phase::Connecting, Response::Failed { error }) == Phase::Aborted,
        !has_request(Phase::Aborted),
        forall|r: Response| !resp_matches(Phase::Aborted, r),
{
}

/// Law: a failed insert aborts the run at once, whichever seeded
/// author it concerned: the aborted run has no pending request, so
/// neither the remaining inserts nor the read-back nor the aggregation
/// is ever asked of the database.
pub proof fn lemma_insert_failure_aborts(idx: usize, error: String)
    ensures
        next_phase(Phase::Seeding { idx }, Response::Failed { error }) == Phase::Aborted,
        !has_request(Phase::Aborted),
        forall|r: Response| !resp_matches(Phase::Aborted, r),
{
}

/// Whether the run still has a pending request, decided executably for
/// the caller that drives the loop.
pub fn phase_has_request(phase: &Phase) -> (b: bool)
    ensures
        b == has_request(*phase),
{
    match phase {
        Phase::Done => false,
        Phase::Aborted => false,
        _ => true,
    }
}

/// Whether a response fits the phase's pending request, decided
/// executably for the caller that drives the loop.
pub fn response_fits(phase: &Phase, resp: &Response) -> (b: bool)
    ensures
        b == resp_matches(*phase, *resp),
{
    match resp {
        Response::Failed { .. } => phase_has_request(phase),
        Response::Connected => matches!(phase, Phase::Connecting),
        Response::TableCreated => matches!(phase, Phase::CreatingTable { .. }),
        Response::Deleted { .. } => matches!(
            phase,
            Phase::ClearingAuthor | Phase::ClearingBook { .. }
        ),
        Response::Inserted { .. } => matches!(phase, Phase::Seeding { .. }),
        Response::AuthorRows { .. } => matches!(phase, Phase::FetchingAuthors),
        Response::NationRows { .. } => matches!(phase, Phase::FetchingNations),
    }
}

/// Whether a phase is well formed, decided executably for the caller
/// that drives the loop.
pub fn phase_is_wf(phase: &Phase) -> (b: bool)
    ensures
        b == phase_wf(*phase),
{
    match phase {
        Phase::Seeding { idx } => *idx < 3,
        _ => true,
    }
}

} // verus!
