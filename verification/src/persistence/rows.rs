//! Finding a row in a table.
use vstd::prelude::*;

verus! {

/// The position of the first row that `wanted` holds of.
pub open spec fn first_index<T>(rows: Seq<T>, wanted: spec_fn(T) -> bool) -> Option<int>
    decreases rows.len(),
{
    if rows.len() == 0 {
        None
    } else if wanted(rows[0]) {
        Some(0)
    } else {
        match first_index(rows.subrange(1, rows.len() as int), wanted) {
            Some(i) => Some(i + 1),
            None => None,
        }
    }
}

/// The first row that `wanted` holds of.
pub open spec fn first_match<T>(rows: Seq<T>, wanted: spec_fn(T) -> bool) -> Option<T> {
    match first_index(rows, wanted) {
        Some(i) => Some(rows[i]),
        None => None,
    }
}

/// The position found is that of a wanted row with no wanted row before
/// it; where none is found, no row is wanted.
pub proof fn lemma_first_index<T>(rows: Seq<T>, wanted: spec_fn(T) -> bool)
    ensures
        first_index(rows, wanted) matches Some(i) ==> 0 <= i < rows.len() && wanted(rows[i])
            && forall|j: int| 0 <= j < i ==> !wanted(#[trigger] rows[j]),
        first_index(rows, wanted) is None ==> forall|j: int|
            0 <= j < rows.len() ==> !wanted(#[trigger] rows[j]),
    decreases rows.len(),
{
    if rows.len() > 0 && !wanted(rows[0]) {
        let rest = rows.subrange(1, rows.len() as int);
        lemma_first_index(rest, wanted);
        match first_index(rest, wanted) {
            Some(i) => {
                assert(rest[i] == rows[i + 1]);
                assert forall|j: int| 0 <= j < i + 1 implies !wanted(#[trigger] rows[j]) by {
                    if j > 0 {
                        assert(rest[j - 1] == rows[j]);
                    }
                }
            },
            None => {
                assert forall|j: int| 0 <= j < rows.len() implies !wanted(#[trigger] rows[j]) by {
                    if j > 0 {
                        assert(rest[j - 1] == rows[j]);
                    }
                }
            },
        }
    }
}

/// A wanted row with no wanted row before it is the one found.
pub proof fn lemma_first_index_is<T>(rows: Seq<T>, wanted: spec_fn(T) -> bool, i: int)
    requires
        0 <= i < rows.len(),
        wanted(rows[i]),
        forall|j: int| 0 <= j < i ==> !wanted(#[trigger] rows[j]),
    ensures
        first_index(rows, wanted) == Some(i),
{
    lemma_first_index(rows, wanted);
    match first_index(rows, wanted) {
        Some(k) => {
            if k < i {
                assert(!wanted(rows[k]));
            } else if i < k {
                assert(!wanted(rows[i]));
            }
        },
        None => {
            assert(!wanted(rows[i]));
        },
    }
}

/// Where no row is wanted, none is found.
pub proof fn lemma_first_index_none<T>(rows: Seq<T>, wanted: spec_fn(T) -> bool)
    requires
        forall|j: int| 0 <= j < rows.len() ==> !wanted(#[trigger] rows[j]),
    ensures
        first_index(rows, wanted) is None,
{
    lemma_first_index(rows, wanted);
    if first_index(rows, wanted) is Some {
        let k = first_index(rows, wanted)->0;
        assert(!wanted(rows[k]));
    }
}

/// A row appended to a table is found where no earlier row was wanted and
/// it is; a row that was found before is found as before.
pub proof fn lemma_first_index_push<T>(rows: Seq<T>, row: T, wanted: spec_fn(T) -> bool)
    ensures
        first_index(rows, wanted) is Some ==> first_index(rows.push(row), wanted) == first_index(
            rows,
            wanted,
        ),
        first_index(rows, wanted) is None && wanted(row) ==> first_index(rows.push(row), wanted)
            == Some(rows.len() as int),
        first_index(rows, wanted) is None && !wanted(row) ==> first_index(rows.push(row), wanted)
            is None,
{
    let longer = rows.push(row);
    lemma_first_index(rows, wanted);
    match first_index(rows, wanted) {
        Some(i) => {
            assert(longer[i] == rows[i]);
            assert forall|j: int| 0 <= j < i implies !wanted(#[trigger] longer[j]) by {
                assert(longer[j] == rows[j]);
            }
            lemma_first_index_is(longer, wanted, i);
        },
        None => {
            assert forall|j: int| 0 <= j < rows.len() implies !wanted(#[trigger] longer[j]) by {
                assert(longer[j] == rows[j]);
            }
            if wanted(row) {
                assert(longer[rows.len() as int] == row);
                lemma_first_index_is(longer, wanted, rows.len() as int);
            } else {
                lemma_first_index_none(longer, wanted);
            }
        },
    }
}

} // verus!
