//! A model of the nationality aggregation the program asks the database
//! for: group the artist rows by nationality, count each group, and
//! order the groups by descending count. The null filter applied to the
//! rows the database hands back lives here as well.

use vstd::prelude::*;
use vstd::pervasive::VecAdditionalExecFns;
use crate::data::{ArtistRow, Nation, NationRow};

verus! {

/// Whether an aggregation row survives the null filter: both columns
/// must be present.
pub open spec fn kept(r: NationRow) -> bool {
    r.nationality is Some && r.count is Some
}

/// The (nationality, count) pairs of the rows that survive the null
/// filter, in their original order.
pub open spec fn kept_pairs(rows: Seq<NationRow>) -> Seq<(Seq<char>, int)>
    decreases rows.len(),
{
    if rows.len() == 0 {
        Seq::empty()
    } else {
        let rest = kept_pairs(rows.drop_last());
        if kept(rows.last()) {
            rest.push((rows.last().nationality->0@, rows.last().count->0 as int))
        } else {
            rest
        }
    }
}

/// Drops every aggregation row with an absent nationality or count,
/// keeping the others in order. No row is rejected with an error.
pub fn filter_nations(rows: &Vec<NationRow>) -> (out: Vec<Nation>)
    ensures
        out@.len() == kept_pairs(rows@).len(),
        forall|j: int|
            0 <= j < out@.len() ==> {
                &&& (#[trigger] out@[j]).nationality@ == kept_pairs(rows@)[j].0
                &&& out@[j].count as int == kept_pairs(rows@)[j].1
            },
{
    let n = rows.len();
    let mut out: Vec<Nation> = Vec::new();
    for i in 0..n
        invariant
            n == rows@.len(),
            out@.len() == kept_pairs(rows@.subrange(0, i as int)).len(),
            forall|j: int|
                0 <= j < out@.len() ==> {
                    &&& (#[trigger] out@[j]).nationality@ == kept_pairs(
                        rows@.subrange(0, i as int),
                    )[j].0
                    &&& out@[j].count as int == kept_pairs(rows@.subrange(0, i as int))[j].1
                },
    {
        proof {
            assert(rows@.subrange(0, i + 1 as int).drop_last() =~= rows@.subrange(0, i as int));
            assert(rows@.subrange(0, i + 1 as int).last() == rows@[i as int]);
        }
        let row = &rows[i];
        match (&row.nationality, &row.count) {
            (Some(name), Some(count)) => {
                out.push(Nation { nationality: name.clone(), count: *count });
            },
            _ => {},
        }
    }
    proof {
        assert(rows@.subrange(0, n as int) =~= rows@);
    }
    out
}

/// The nationality column of the artist rows.
pub open spec fn nationality_col(rows: Seq<ArtistRow>) -> Seq<Seq<char>> {
    rows.map_values(|r: ArtistRow| r.nationality@)
}

/// How many times `x` occurs in `s`.
pub open spec fn occurrences(s: Seq<Seq<char>>, x: Seq<char>) -> nat
    decreases s.len(),
{
    if s.len() == 0 {
        0
    } else {
        occurrences(s.drop_last(), x) + (if s.last() == x {
            1nat
        } else {
            0nat
        })
    }
}

/// No two entries name the same nationality.
pub open spec fn names_distinct(s: Seq<Nation>) -> bool {
    forall|a: int, b: int|
        0 <= a < b < s.len() ==> s[a].nationality@ != s[b].nationality@
}

/// No entry of `s` names a nationality that an entry of `t` names.
pub open spec fn cross_distinct(s: Seq<Nation>, t: Seq<Nation>) -> bool {
    forall|a: int, b: int|
        0 <= a < s.len() && 0 <= b < t.len() ==> s[a].nationality@ != t[b].nationality@
}

/// Every entry carries exactly the number of occurrences of its
/// nationality in the column.
pub open spec fn counts_correct(s: Seq<Nation>, col: Seq<Seq<char>>) -> bool {
    forall|k: int|
        0 <= k < s.len() ==> (#[trigger] s[k]).count as int == occurrences(col, s[k].nationality@)
}

/// Every entry names a nationality that occurs in the column.
pub open spec fn names_from(s: Seq<Nation>, col: Seq<Seq<char>>) -> bool {
    forall|k: int| 0 <= k < s.len() ==> col.contains((#[trigger] s[k]).nationality@)
}

/// Some entry of `s` names the nationality `x`.
pub open spec fn appears(s: Seq<Nation>, x: Seq<char>) -> bool {
    exists|k: int| 0 <= k < s.len() && s[k].nationality@ == x
}

/// Counts are non-increasing from the first entry to the last.
pub open spec fn sorted_desc(s: Seq<Nation>) -> bool {
    forall|a: int, b: int| 0 <= a <= b < s.len() ==> s[a].count >= s[b].count
}

/// One entry per distinct nationality of the input, each with its
/// occurrence count, in no particular order.
fn tally_nationalities(rows: &Vec<ArtistRow>) -> (t: Vec<Nation>)
    requires
        rows@.len() <= 0x7fff_ffff_ffff_ffff,
    ensures
        names_distinct(t@),
        counts_correct(t@, nationality_col(rows@)),
        names_from(t@, nationality_col(rows@)),
        forall|i: int| 0 <= i < rows@.len() ==> appears(t@, nationality_col(rows@)[i]),
{
    let n = rows.len();
    let ghost col = nationality_col(rows@);
    let mut t: Vec<Nation> = Vec::new();
    for i in 0..n
        invariant
            n == rows@.len(),
            n <= 0x7fff_ffff_ffff_ffff,
            col == nationality_col(rows@),
            names_distinct(t@),
            counts_correct(t@, col.subrange(0, i as int)),
            names_from(t@, col.subrange(0, i as int)),
            forall|j: int| 0 <= j < i ==> appears(t@, col[j]),
            forall|k: int| 0 <= k < t@.len() ==> (#[trigger] t@[k]).count as int <= i,
    {
        let ghost pre = col.subrange(0, i as int);
        let ghost cur = col.subrange(0, i + 1 as int);
        proof {
            assert(cur.drop_last() =~= pre);
            assert(cur.last() == col[i as int]);
            assert(col[i as int] == rows@[i as int].nationality@);
        }
        let row = &rows[i];
        proof {
            assert(row.nationality@ == col[i as int]);
        }
        let ghost t_pre = t@;
        let mut k: usize = 0;
        let mut found: Option<usize> = None;
        while k < t.len()
            invariant
                k <= t@.len(),
                match found {
                    Some(f) => f < t@.len() && t@[f as int].nationality@ == row.nationality@,
                    None => forall|j: int| 0 <= j < k ==> t@[j].nationality@ != row.nationality@,
                },
            decreases t@.len() - k,
        {
            if found.is_none() && t[k].nationality == row.nationality {
                found = Some(k);
            }
            k += 1;
        }
        match found {
            Some(f) => {
                let c = t[f].count;
                let name = t[f].nationality.clone();
                t.set(f, Nation { nationality: name, count: c + 1 });
                proof {
                    assert forall|w: int| 0 <= w < t@.len() implies (#[trigger] t@[w]).nationality@
                        == t_pre[w].nationality@ by {
                    }
                    assert forall|kk: int| 0 <= kk < t@.len() implies (#[trigger] t@[kk]).count
                        as int == occurrences(cur, t@[kk].nationality@) by {
                        if kk == f {
                            assert(occurrences(cur, t@[kk].nationality@) == occurrences(
                                pre,
                                t@[kk].nationality@,
                            ) + 1);
                        } else {
                            assert(t@[kk].nationality@ != cur.last());
                            assert(occurrences(cur, t@[kk].nationality@) == occurrences(
                                pre,
                                t@[kk].nationality@,
                            ));
                        }
                    }
                    assert(t@[f as int].nationality@ == col[i as int]);
                    assert(appears(t@, col[i as int]));
                }
            },
            None => {
                t.push(Nation { nationality: row.nationality.clone(), count: 1 });
                proof {
                    let ghost last = t@.len() - 1;
                    assert(occurrences(pre, t@[last].nationality@) == 0) by {
                        lemma_occurrences_absent(pre, t@[last].nationality@);
                    }
                    assert forall|kk: int| 0 <= kk < t@.len() implies (#[trigger] t@[kk]).count
                        as int == occurrences(cur, t@[kk].nationality@) by {
                        if kk == last {
                            assert(occurrences(cur, t@[kk].nationality@) == occurrences(
                                pre,
                                t@[kk].nationality@,
                            ) + 1);
                        } else {
                            assert(t@[kk].nationality@ != cur.last());
                            assert(occurrences(cur, t@[kk].nationality@) == occurrences(
                                pre,
                                t@[kk].nationality@,
                            ));
                        }
                    }
                    assert(t@[last].nationality@ == col[i as int]);
                    assert(appears(t@, col[i as int]));
                    assert(cur.contains(col[i as int])) by {
                        assert(cur[i as int] == col[i as int]);
                    }
                }
            },
        }
        proof {
            assert forall|j: int| 0 <= j < i + 1 implies appears(t@, col[j]) by {
                if j < i {
                    let w = choose|w: int| 0 <= w < t_pre.len() && t_pre[w].nationality@ == col[j];
                    assert(t@[w].nationality@ == col[j]);
                } else {
                    assert(appears(t@, col[i as int]));
                }
            }
            assert forall|kk: int| 0 <= kk < t@.len() implies cur.contains(
                (#[trigger] t@[kk]).nationality@,
            ) by {
                if pre.contains(t@[kk].nationality@) {
                    let w = choose|w: int| 0 <= w < pre.len() && pre[w] == t@[kk].nationality@;
                    assert(cur[w] == t@[kk].nationality@);
                } else {
                    assert(cur[i as int] == t@[kk].nationality@);
                }
            }
        }
    }
    proof {
        assert(col.subrange(0, n as int) =~= col);
    }
    t
}

/// If `x` does not occur in `s`, its occurrence count is zero.
proof fn lemma_occurrences_absent(s: Seq<Seq<char>>, x: Seq<char>)
    requires
        forall|j: int| 0 <= j < s.len() ==> s[j] != x,
    ensures
        occurrences(s, x) == 0,
    decreases s.len(),
{
    if s.len() > 0 {
        lemma_occurrences_absent(s.drop_last(), x);
    }
}

/// What the aggregation query returns: one entry per distinct
/// nationality of the artist rows, carrying the number of rows with
/// that nationality, ordered by descending count. The order among
/// entries with equal counts is left open, as the query leaves it to
/// the engine.
pub fn aggregate(rows: &Vec<ArtistRow>) -> (out: Vec<Nation>)
    requires
        rows@.len() <= 0x7fff_ffff_ffff_ffff,
    ensures
        names_distinct(out@),
        counts_correct(out@, nationality_col(rows@)),
        sorted_desc(out@),
        names_from(out@, nationality_col(rows@)),
        forall|i: int| 0 <= i < rows@.len() ==> appears(out@, nationality_col(rows@)[i]),
{
    let ghost col = nationality_col(rows@);
    let mut t = tally_nationalities(rows);
    let mut out: Vec<Nation> = Vec::new();
    while t.len() > 0
        invariant
            col == nationality_col(rows@),
            sorted_desc(out@),
            names_distinct(out@),
            names_distinct(t@),
            cross_distinct(out@, t@),
            counts_correct(out@, col),
            counts_correct(t@, col),
            names_from(out@, col),
            names_from(t@, col),
            forall|i: int| 0 <= i < rows@.len() ==> appears(out@, col[i]) || appears(t@, col[i]),
            forall|a: int, b: int|
                0 <= a < out@.len() && 0 <= b < t@.len() ==> out@[a].count >= t@[b].count,
        decreases t@.len(),
    {
        let mut m: usize = 0;
        let mut k: usize = 1;
        while k < t.len()
            invariant
                t@.len() > 0,
                m < t@.len(),
                k <= t@.len(),
                forall|j: int| 0 <= j < k ==> t@[m as int].count >= t@[j].count,
            decreases t@.len() - k,
        {
            if t[k].count > t[m].count {
                m = k;
            }
            k += 1;
        }
        let ghost t_old = t@;
        let ghost out_old = out@;
        let x = t.remove(m);
        out.push(x);
        proof {
            assert forall|j: int| 0 <= j < t@.len() implies #[trigger] t@[j] == if j < m {
                t_old[j]
            } else {
                t_old[j + 1]
            } by {
            }
            assert forall|i: int| 0 <= i < rows@.len() implies appears(out@, col[i]) || appears(
                t@,
                col[i],
            ) by {
                if appears(out_old, col[i]) {
                    let w = choose|w: int|
                        0 <= w < out_old.len() && out_old[w].nationality@ == col[i];
                    assert(out@[w].nationality@ == col[i]);
                } else {
                    let w = choose|w: int| 0 <= w < t_old.len() && t_old[w].nationality@ == col[i];
                    if w == m {
                        assert(out@[out@.len() - 1].nationality@ == col[i]);
                    } else if w < m {
                        assert(t@[w].nationality@ == col[i]);
                    } else {
                        assert(t@[w - 1].nationality@ == col[i]);
                    }
                }
            }
        }
    }
    out
}

} // verus!
