//! Laws that relate several port operations, stated and proved over the
//! same postcondition predicates the port contracts use.

use vstd::prelude::*;
use crate::entities::Todo;
use crate::errors::Error;
use crate::ids::{uuid_parse, uuid_str};
use crate::mem_repository::write_back_post;
use crate::store::{
    contains_id, lemma_last_writer_wins, lemma_push_fresh, lemma_write_row, row_at, unique_ids,
    write_row, RowModel,
};
use crate::traits::{create_post, get_by_id_post, update_post, Mutation};

verus! {

/// An entity fetched by its identifier immediately after a successful
/// creation, with no fault in between, is exactly the entity the creation
/// returned.
pub proof fn lemma_get_after_create(
    s0: Seq<RowModel>,
    s1: Seq<RowModel>,
    faultless: bool,
    title: Seq<char>,
    t: Todo,
    r: Result<Todo, Error>,
)
    requires
        unique_ids(s0),
        create_post(s0, s1, faultless, title, Ok(t)),
        get_by_id_post(s1, true, t@.id, r),
    ensures
        r matches Ok(t2) && t2@ == t@,
{
    let v = uuid_parse(t@.id)->Some_0;
    let row = RowModel { id: v, title, completed: false };
    lemma_push_fresh(s0, row);
    assert(row_at(s1, v) == row);
}

/// Completing an existing entity returns it with `completed == true` and
/// its identity and title unchanged; completing it again succeeds, returns
/// the same entity, and leaves the store exactly as the first completion
/// left it.
pub proof fn lemma_complete_idempotent(
    s0: Seq<RowModel>,
    s1: Seq<RowModel>,
    s2: Seq<RowModel>,
    id: Seq<char>,
    v: u128,
    r1: Result<Todo, Error>,
    r2: Result<Todo, Error>,
)
    requires
        unique_ids(s0),
        uuid_parse(id) == Some(v),
        contains_id(s0, v),
        update_post(s0, s1, true, id, Mutation::Complete, r1),
        update_post(s1, s2, true, id, Mutation::Complete, r2),
    ensures
        r1 matches Ok(t1) && t1@.completed == true && t1@.id == uuid_str(v) && t1@.title
            == row_at(s0, v).title,
        r1 matches Ok(t1) && r2 matches Ok(t2) && t2@ == t1@,
        s2 == s1,
{
    let told = row_at(s0, v);
    lemma_write_row(s0, v, told.title, true);
    assert(told.id == v);
    let tnew = row_at(s1, v);
    assert(tnew == (RowModel { id: v, title: told.title, completed: true }));
    lemma_write_row(s1, v, told.title, true);
    lemma_last_writer_wins(s0, v, told.title, true, told.title, true);
}

/// Two writers racing on the same identifier, each having read before
/// either wrote, interleave without corruption: once both write
/// round-trips have landed, the persisted state is exactly the later
/// write's, as if the earlier one had never happened.
pub proof fn lemma_interleaved_writes_last_wins(
    s0: Seq<RowModel>,
    s1: Seq<RowModel>,
    s2: Seq<RowModel>,
    id: Seq<char>,
    v: u128,
    title1: Seq<char>,
    completed1: bool,
    r1: Result<Todo, Error>,
    title2: Seq<char>,
    completed2: bool,
    r2: Result<Todo, Error>,
)
    requires
        uuid_parse(id) == Some(v),
        write_back_post(s0, s1, id, title1, completed1, r1),
        write_back_post(s1, s2, id, title2, completed2, r2),
        r1 is Ok,
        r2 is Ok,
    ensures
        s2 == write_row(s0, v, title2, completed2),
{
    lemma_last_writer_wins(s0, v, title1, completed1, title2, completed2);
}

} // verus!
