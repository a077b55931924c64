//! The tables the program manages and the rows it moves in and out of
//! them, together with the fixed author seed.

use vstd::prelude::*;

verus! {

/// The three tables whose schemas the program ensures.
#[derive(PartialEq, Eq, Structural, Clone, Copy, Debug)]
pub enum Table {
    Author,
    Book,
    Artist,
}

/// A row of the author table.
pub struct Author {
    pub id: i32,
    pub name: String,
    pub country: String,
}

/// A row of the nationality aggregation as the database hands it back:
/// either column may be absent.
pub struct NationRow {
    pub nationality: Option<String>,
    pub count: Option<i64>,
}

/// A grouped nationality with its occurrence count.
pub struct Nation {
    pub nationality: String,
    pub count: i64,
}

/// A row of the artist table, the input of the nationality aggregation.
pub struct ArtistRow {
    pub name: String,
    pub book_name: String,
    pub nationality: String,
}

/// The name of a table as it appears in statements and diagnostics.
pub open spec fn table_name_rep(t: Table) -> Seq<char> {
    match t {
        Table::Author => "author"@,
        Table::Book => "book"@,
        Table::Artist => "artist"@,
    }
}

/// The table's name for use in diagnostics.
pub fn table_name(t: Table) -> (r: &'static str)
    ensures
        r@ == table_name_rep(t),
{
    match t {
        Table::Author => "author",
        Table::Book => "book",
        Table::Artist => "artist",
    }
}

/// How many authors are seeded.
pub open spec fn seed_len() -> nat {
    3
}

/// The name of the `i`-th seeded author.
pub open spec fn seed_name(i: int) -> Seq<char> {
    if i == 0 {
        "Chinua Achebe"@
    } else if i == 1 {
        "Rabindranath Tagore"@
    } else {
        "Anita Nair"@
    }
}

/// The country of the `i`-th seeded author.
pub open spec fn seed_country(i: int) -> Seq<char> {
    if i == 0 {
        "Nigeria"@
    } else {
        "India"@
    }
}

/// The (name, country) pair of the `i`-th seeded author.
pub open spec fn seed_pair(i: int) -> (Seq<char>, Seq<char>) {
    (seed_name(i), seed_country(i))
}

/// The `i`-th seeded author. Identifiers are assigned in the order of
/// the seed list, starting at zero; they are arbitrary tie-breakers
/// with no semantic meaning.
pub fn seed_author(i: usize) -> (a: Author)
    requires
        i < seed_len(),
    ensures
        a.id == i,
        a.name@ == seed_name(i as int),
        a.country@ == seed_country(i as int),
{
    if i == 0 {
        Author {
            id: 0,
            name: String::from_str("Chinua Achebe"),
            country: String::from_str("Nigeria"),
        }
    } else if i == 1 {
        Author {
            id: 1,
            name: String::from_str("Rabindranath Tagore"),
            country: String::from_str("India"),
        }
    } else {
        Author {
            id: 2,
            name: String::from_str("Anita Nair"),
            country: String::from_str("India"),
        }
    }
}

/// All seeded authors, in seed order.
pub fn seed_authors() -> (v: Vec<Author>)
    ensures
        v@.len() == seed_len(),
        forall|i: int|
            0 <= i < v@.len() ==> {
                &&& #[trigger] v@[i].id == i
                &&& v@[i].name@ == seed_name(i)
                &&& v@[i].country@ == seed_country(i)
            },
{
    let mut v: Vec<Author> = Vec::new();
    v.push(seed_author(0));
    v.push(seed_author(1));
    v.push(seed_author(2));
    v
}

} // verus!
