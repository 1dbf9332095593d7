//! Mathematical model of the persisted table: a sequence of rows keyed by a
//! unique store-native 128-bit identifier, with the reads and writes the
//! repository port is specified over.

use vstd::prelude::*;
use vstd::assert_seqs_equal;
use crate::entities::TodoModel;
use crate::ids::uuid_str;

verus! {

/// One persisted row: store-native identifier, title text, completion flag.
pub ghost struct RowModel {
    pub id: u128,
    pub title: Seq<char>,
    pub completed: bool,
}

/// The entity a row rehydrates to: the identifier rendered in its canonical
/// text form, the other fields as stored.
pub open spec fn row_to_todo(r: RowModel) -> TodoModel {
    TodoModel { id: uuid_str(r.id), title: r.title, completed: r.completed }
}

/// Every row is keyed by a distinct identifier (the table's primary key).
pub open spec fn unique_ids(s: Seq<RowModel>) -> bool {
    forall|i: int, j: int|
        0 <= i < s.len() && 0 <= j < s.len() && i != j ==> #[trigger] s[i].id != #[trigger] s[j].id
}

/// Whether some row is keyed by `v`.
pub open spec fn contains_id(s: Seq<RowModel>, v: u128) -> bool {
    exists|i: int| 0 <= i < s.len() && #[trigger] s[i].id == v
}

/// The position of the row keyed by `v`; meaningful when `contains_id(s, v)`.
pub open spec fn index_of_id(s: Seq<RowModel>, v: u128) -> int {
    choose|i: int| 0 <= i < s.len() && #[trigger] s[i].id == v
}

/// The row keyed by `v`; meaningful when `contains_id(s, v)`.
pub open spec fn row_at(s: Seq<RowModel>, v: u128) -> RowModel {
    s[index_of_id(s, v)]
}

/// The table after a write keyed by `v`: the title and completion flag of
/// every row with that key (with unique keys: the one row) are replaced,
/// every other row is untouched, and no row is added or removed.
pub open spec fn write_row(s: Seq<RowModel>, v: u128, title: Seq<char>, completed: bool) -> Seq<RowModel> {
    s.map(|i: int, r: RowModel| if r.id == v { (RowModel { id: r.id, title, completed }) } else { r })
}

/// With unique keys, the row found at a position is the row its key
/// resolves to.
pub proof fn lemma_row_at_index(s: Seq<RowModel>, i: int)
    requires
        unique_ids(s),
        0 <= i < s.len(),
    ensures
        contains_id(s, s[i].id),
        index_of_id(s, s[i].id) == i,
        row_at(s, s[i].id) == s[i],
{
    assert(contains_id(s, s[i].id));
    let j = index_of_id(s, s[i].id);
    assert(0 <= j < s.len() && s[j].id == s[i].id);
    assert(j == i);
}

/// Appending a row under a fresh key keeps the keys unique, makes the key
/// resolve to exactly that row, and leaves every other key resolving as
/// before.
pub proof fn lemma_push_fresh(s: Seq<RowModel>, r: RowModel)
    requires
        unique_ids(s),
        !contains_id(s, r.id),
    ensures
        unique_ids(s.push(r)),
        contains_id(s.push(r), r.id),
        row_at(s.push(r), r.id) == r,
        forall|w: u128| #[trigger] contains_id(s.push(r), w) <==> contains_id(s, w) || w == r.id,
        forall|w: u128| contains_id(s, w) ==> #[trigger] row_at(s.push(r), w) == row_at(s, w),
{
    let s1 = s.push(r);
    assert(s1[s.len() as int] == r);
    assert forall|i: int, j: int|
        0 <= i < s1.len() && 0 <= j < s1.len() && i != j implies #[trigger] s1[i].id != #[trigger] s1[j].id by {
        if i < s.len() && j < s.len() {
            assert(s1[i] == s[i] && s1[j] == s[j]);
        } else if i < s.len() {
            assert(s1[i] == s[i] && s1[j] == r);
            assert(s[i].id != r.id) by {
                if s[i].id == r.id {
                    assert(contains_id(s, r.id));
                }
            }
        } else {
            assert(s1[i] == r && s1[j] == s[j]);
            assert(s[j].id != r.id) by {
                if s[j].id == r.id {
                    assert(contains_id(s, r.id));
                }
            }
        }
    }
    lemma_row_at_index(s1, s.len() as int);
    assert forall|w: u128| #[trigger] contains_id(s1, w) implies contains_id(s, w) || w == r.id by {
        let i = choose|i: int| 0 <= i < s1.len() && #[trigger] s1[i].id == w;
        if i < s.len() {
            assert(s[i].id == w);
        }
    }
    assert forall|w: u128| contains_id(s, w) implies #[trigger] contains_id(s1, w) by {
        let i = choose|i: int| 0 <= i < s.len() && #[trigger] s[i].id == w;
        assert(s1[i].id == w);
    }
    assert forall|w: u128| contains_id(s, w) implies #[trigger] row_at(s1, w) == row_at(s, w) by {
        let i = index_of_id(s, w);
        assert(0 <= i < s.len() && s[i].id == w);
        assert(s1[i] == s[i]);
        lemma_row_at_index(s1, i);
        lemma_row_at_index(s, i);
    }
}

/// A write keyed by `v` keeps the keys unique and the set of keys
/// unchanged, replaces the title and flag of the row keyed by `v`, and
/// leaves every other row as it was.
pub proof fn lemma_write_row(s: Seq<RowModel>, v: u128, title: Seq<char>, completed: bool)
    requires
        unique_ids(s),
    ensures
        unique_ids(write_row(s, v, title, completed)),
        write_row(s, v, title, completed).len() == s.len(),
        forall|w: u128| #[trigger] contains_id(write_row(s, v, title, completed), w) <==> contains_id(s, w),
        contains_id(s, v) ==> row_at(write_row(s, v, title, completed), v)
            == (RowModel { id: v, title, completed }),
        forall|w: u128| contains_id(s, w) && w != v
            ==> #[trigger] row_at(write_row(s, v, title, completed), w) == row_at(s, w),
        !contains_id(s, v) ==> write_row(s, v, title, completed) == s,
{
    let s1 = write_row(s, v, title, completed);
    assert forall|i: int| 0 <= i < s.len() implies #[trigger] s1[i].id == s[i].id by {}
    assert(unique_ids(s1));
    assert forall|w: u128| #[trigger] contains_id(s1, w) implies contains_id(s, w) by {
        let i = choose|i: int| 0 <= i < s1.len() && #[trigger] s1[i].id == w;
        assert(s[i].id == w);
    }
    assert forall|w: u128| #[trigger] contains_id(s, w) implies contains_id(s1, w) by {
        let i = choose|i: int| 0 <= i < s.len() && #[trigger] s[i].id == w;
        assert(s1[i].id == w);
    }
    if contains_id(s, v) {
        let i = index_of_id(s, v);
        assert(0 <= i < s.len() && s[i].id == v);
        assert(s1[i] == (RowModel { id: v, title, completed }));
        lemma_row_at_index(s1, i);
    }
    assert forall|w: u128| contains_id(s, w) && w != v implies #[trigger] row_at(s1, w) == row_at(s, w) by {
        let i = index_of_id(s, w);
        assert(0 <= i < s.len() && s[i].id == w);
        assert(s1[i] == s[i]);
        lemma_row_at_index(s1, i);
        lemma_row_at_index(s, i);
    }
    if !contains_id(s, v) {
        assert forall|i: int| 0 <= i < s.len() implies #[trigger] s1[i] == s[i] by {
            assert(s[i].id != v) by {
                if s[i].id == v {
                    assert(contains_id(s, v));
                }
            }
        }
        assert_seqs_equal!(s1 == s);
    }
}

/// Two writes keyed by the same identifier interleave as last writer wins:
/// the store ends exactly as if only the later write had happened.
pub proof fn lemma_last_writer_wins(
    s: Seq<RowModel>,
    v: u128,
    title1: Seq<char>,
    completed1: bool,
    title2: Seq<char>,
    completed2: bool,
)
    ensures
        write_row(write_row(s, v, title1, completed1), v, title2, completed2)
            == write_row(s, v, title2, completed2),
{
    let s1 = write_row(s, v, title1, completed1);
    let s12 = write_row(s1, v, title2, completed2);
    let s2 = write_row(s, v, title2, completed2);
    assert forall|i: int| 0 <= i < s.len() implies #[trigger] s12[i] == s2[i] by {
        assert(s1[i].id == s[i].id);
    }
    assert_seqs_equal!(s12 == s2);
}

} // verus!
