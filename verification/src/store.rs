//! An in-memory model of the database state the program's guarantees
//! speak of: which tables exist and which author rows are stored. The
//! model captures what the program relies on the engine for — schema
//! creation that tolerates an existing table, a primary-key constraint
//! on the author rows, and a read-back that returns every stored row.

use vstd::prelude::*;
use crate::data::{Author, Table, seed_len, seed_pair};

verus! {

/// Which tables exist after creating `t`: unchanged when it already
/// exists, extended by it otherwise.
pub open spec fn with_table(tables: Seq<Table>, t: Table) -> Seq<Table> {
    if tables.contains(t) {
        tables
    } else {
        tables.push(t)
    }
}

/// The modeled database state.
pub struct Store {
    pub tables: Vec<Table>,
    pub authors: Vec<Author>,
}

impl Store {
    /// No table is recorded twice.
    pub open spec fn wf(self) -> bool {
        forall|a: int, b: int|
            0 <= a < b < self.tables@.len() ==> self.tables@[a] != self.tables@[b]
    }

    /// The (name, country) pairs of the stored author rows, in order.
    pub open spec fn author_pairs(self) -> Seq<(Seq<char>, Seq<char>)> {
        self.authors@.map_values(|a: Author| (a.name@, a.country@))
    }

    /// An empty database: no tables, no rows.
    pub fn new() -> (s: Store)
        ensures
            s.wf(),
            s.tables@.len() == 0,
            s.authors@.len() == 0,
    {
        Store { tables: Vec::new(), authors: Vec::new() }
    }

    /// Runs a table's schema statement: the table is created only if
    /// it does not exist yet, and an existing table is no error, so
    /// the statement can be run any number of times.
    pub fn create_table(&mut self, t: Table)
        requires
            old(self).wf(),
        ensures
            final(self).wf(),
            final(self).tables@ == with_table(old(self).tables@, t),
            final(self).authors == old(self).authors,
    {
        let n = self.tables.len();
        let mut exists_already = false;
        for k in 0..n
            invariant
                n == self.tables@.len(),
                exists_already == self.tables@.subrange(0, k as int).contains(t),
                *self == *old(self),
        {
            proof {
                assert(self.tables@.subrange(0, k + 1 as int).drop_last() =~= self.tables@.subrange(
                    0,
                    k as int,
                ));
            }
            if self.tables[k] == t {
                exists_already = true;
                proof {
                    assert(self.tables@.subrange(0, k + 1 as int)[k as int] == t);
                }
            } else {
                proof {
                    let sub = self.tables@.subrange(0, k + 1 as int);
                    assert forall|w: int| 0 <= w < sub.len() && #[trigger] sub[w] == t implies w
                        < k by {
                    }
                }
            }
        }
        proof {
            assert(self.tables@.subrange(0, n as int) =~= self.tables@);
        }
        if !exists_already {
            self.tables.push(t);
            proof {
                assert forall|a: int, b: int|
                    0 <= a < b < self.tables@.len() implies self.tables@[a]
                    != self.tables@[b] by {
                    if b == self.tables@.len() - 1 {
                        assert(!old(self).tables@.contains(t));
                        assert(old(self).tables@[a] != t);
                    }
                }
            }
        }
    }

    /// Clears the author table unconditionally: afterwards it holds no
    /// rows at all, whatever it held before.
    pub fn clear_authors(&mut self)
        ensures
            final(self).authors@ == Seq::<Author>::empty(),
            final(self).author_pairs().len() == 0,
            final(self).tables == old(self).tables,
            old(self).wf() ==> final(self).wf(),
    {
        self.authors.clear();
        proof {
            assert(self.author_pairs() =~= Seq::<(Seq<char>, Seq<char>)>::empty());
        }
    }

    /// Inserts an author row. The primary-key constraint refuses a row
    /// whose identifier is already stored; the table is then left
    /// unchanged. Any row with a fresh identifier is accepted.
    pub fn insert_author(&mut self, a: Author) -> (accepted: bool)
        ensures
            final(self).tables == old(self).tables,
            accepted <==> (forall|k: int|
                0 <= k < old(self).authors@.len() ==> (#[trigger] old(self).authors@[k]).id
                    != a.id),
            accepted ==> final(self).authors@ == old(self).authors@.push(a),
            !accepted ==> final(self).authors == old(self).authors,
    {
        let n = self.authors.len();
        for k in 0..n
            invariant
                n == self.authors@.len(),
                *self == *old(self),
                forall|w: int| 0 <= w < k ==> (#[trigger] self.authors@[w]).id != a.id,
        {
            if self.authors[k].id == a.id {
                return false;
            }
        }
        self.authors.push(a);
        true
    }

    /// The stored author rows, as the read-back query returns them:
    /// every row, in storage order, with no filter.
    pub fn read_back(&self) -> (rows: &Vec<Author>)
        ensures
            rows@ == self.authors@,
    {
        &self.authors
    }
}

/// Law: schema creation is idempotent. Creating a table a second time
/// is accepted and changes nothing, so running the whole schema
/// initialization twice leaves exactly the tables of the first run.
pub proof fn lemma_create_table_idempotent(tables: Seq<Table>, t: Table)
    ensures
        with_table(with_table(tables, t), t) == with_table(tables, t),
{
    if !tables.contains(t) {
        assert(tables.push(t)[tables.len() as int] == t);
        assert(with_table(tables, t).contains(t));
    }
}

/// The seeded rows' (name, country) pairs when the seeds are inserted
/// in the given order.
pub open spec fn seeded_pairs(order: Seq<int>) -> Seq<(Seq<char>, Seq<char>)> {
    order.map_values(|i: int| seed_pair(i))
}

/// Whether a (name, country) pair is one of the seeded pairs.
pub open spec fn pair_is_seeded(p: (Seq<char>, Seq<char>)) -> bool {
    exists|i: int| 0 <= i < seed_len() && p == #[trigger] seed_pair(i)
}

/// Whether a (name, country) pair stands among the given rows.
pub open spec fn pair_present(rows: Seq<(Seq<char>, Seq<char>)>, p: (Seq<char>, Seq<char>)) -> bool {
    exists|k: int| 0 <= k < rows.len() && rows[k] == p
}

/// Law: whatever order the three seeds are inserted in, the inserted
/// rows are exactly three, and their (name, country) pairs are exactly
/// the three seeded pairs — each seeded pair is among the rows, and
/// every row carries a seeded pair.
pub proof fn lemma_seeding_order_irrelevant(order: Seq<int>)
    requires
        order.len() == seed_len(),
        forall|k: int| 0 <= k < order.len() ==> 0 <= #[trigger] order[k] < seed_len(),
        forall|a: int, b: int| 0 <= a < b < order.len() ==> order[a] != order[b],
    ensures
        seeded_pairs(order).len() == seed_len(),
        forall|k: int| 0 <= k < seed_len() ==> pair_is_seeded(#[trigger] seeded_pairs(order)[k]),
        forall|i: int|
            0 <= i < seed_len() ==> pair_present(seeded_pairs(order), #[trigger] seed_pair(i)),
{
    assert forall|k: int| 0 <= k < seed_len() implies pair_is_seeded(
        #[trigger] seeded_pairs(order)[k],
    ) by {
        assert(seeded_pairs(order)[k] == seed_pair(order[k]));
    }
    assert forall|i: int| 0 <= i < seed_len() implies pair_present(
        seeded_pairs(order),
        #[trigger] seed_pair(i),
    ) by {
        assert(order[0] == i || order[1] == i || order[2] == i);
        if order[0] == i {
            assert(seeded_pairs(order)[0] == seed_pair(i));
        } else if order[1] == i {
            assert(seeded_pairs(order)[1] == seed_pair(i));
        } else {
            assert(seeded_pairs(order)[2] == seed_pair(i));
        }
    }
}

} // verus!
