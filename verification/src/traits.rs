//! The two port contracts of the hexagonal boundary: `Repo`, the
//! persistence contract any storage adapter must satisfy, and `App`, the
//! business orchestration contract the transport adapter calls. Both are
//! specified over the abstract table of rows, so that storage-specific
//! types never cross the boundary.

use vstd::prelude::*;
use crate::entities::{Todo, TodoModel};
use crate::errors::Error;
use crate::ids::{uuid_parse, uuid_str};
use crate::store::{contains_id, row_at, row_to_todo, unique_ids, write_row, RowModel};

verus! {

/// The mutation intents the read-modify-write protocol accepts; the single
/// partial mutation in scope is completion.
#[derive(Clone, Copy, Debug, PartialEq, Eq, Structural)]
pub enum Mutation {
    Complete,
}

/// The candidate next state of a row under a mutation intent: completion
/// sets the flag and leaves identity and title untouched.
pub open spec fn mutate_row(m: Mutation, r: RowModel) -> RowModel {
    match m {
        Mutation::Complete => RowModel { id: r.id, title: r.title, completed: true },
    }
}

/// What a listing must return: every stored row, rehydrated, in
/// reverse-creation order.
pub open spec fn lists_store(ts: Seq<Todo>, s: Seq<RowModel>) -> bool {
    &&& ts.len() == s.len()
    &&& forall|i: int| 0 <= i < ts.len() ==> #[trigger] ts[i]@ == row_to_todo(s[s.len() - 1 - i])
}

/// Contract of a listing: on success the whole table in reverse-creation
/// order — an empty table gives an empty sequence, never a failure; a
/// failure is always `Internal` and only a storage fault causes one.
pub open spec fn get_todos_post(s: Seq<RowModel>, faultless: bool, r: Result<Vec<Todo>, Error>) -> bool {
    &&& (r matches Ok(ts) ==> lists_store(ts@, s))
    &&& (r matches Err(e) ==> e == Error::Internal && !faultless)
}

/// Contract of a lookup by identifier: a malformed identifier is `Internal`
/// (it is distinct from a missing one); a well-formed identifier that
/// resolves no row is `NotFound`; a hit returns the stored entity; and when
/// no storage fault can occur, those outcomes are owed exactly.
pub open spec fn get_by_id_post(s: Seq<RowModel>, faultless: bool, id: Seq<char>, r: Result<Todo, Error>) -> bool {
    match uuid_parse(id) {
        None => r == Err::<Todo, Error>(Error::Internal),
        Some(v) => {
            &&& (r matches Ok(t) ==> contains_id(s, v) && t@ == row_to_todo(row_at(s, v)))
            &&& (r == Err::<Todo, Error>(Error::NotFound) ==> !contains_id(s, v))
            &&& (faultless ==> if contains_id(s, v) {
                    r is Ok
                } else {
                    r == Err::<Todo, Error>(Error::NotFound)
                })
        },
    }
}

/// Contract of persisting a new entity: the identifier must parse (else
/// `Internal`) and be unused (a duplicate key is a constraint violation,
/// `Internal`); on success the row is appended with `completed` hard-wired
/// to `false`, and the authoritative stored row is returned. `NotFound`
/// never arises, and the table is untouched on failure.
pub open spec fn insert_post(s0: Seq<RowModel>, s1: Seq<RowModel>, faultless: bool, todo: TodoModel, r: Result<Todo, Error>) -> bool {
    &&& (r matches Err(e) ==> e == Error::Internal && s1 == s0)
    &&& match uuid_parse(todo.id) {
        None => r is Err,
        Some(v) => {
            &&& (contains_id(s0, v) ==> r is Err)
            &&& (r matches Ok(t) ==> !contains_id(s0, v)
                    && s1 == s0.push(RowModel { id: v, title: todo.title, completed: false })
                    && t@ == row_to_todo(RowModel { id: v, title: todo.title, completed: false })
                    && contains_id(s1, v)
                    && row_at(s1, v) == (RowModel { id: v, title: todo.title, completed: false }))
            &&& (faultless && !contains_id(s0, v) ==> r is Ok)
        },
    }
}

/// Contract of the read-modify-write protocol: read the row the identifier
/// resolves to, apply the mutation in memory, write the candidate's mutable
/// fields back keyed by the same identifier, and return the freshly-written
/// state. A malformed identifier is `Internal`; an unresolved one is
/// `NotFound`; the table is untouched on failure.
pub open spec fn update_post(s0: Seq<RowModel>, s1: Seq<RowModel>, faultless: bool, id: Seq<char>, m: Mutation, r: Result<Todo, Error>) -> bool {
    &&& (r is Err ==> s1 == s0)
    &&& match uuid_parse(id) {
        None => r == Err::<Todo, Error>(Error::Internal),
        Some(v) => {
            &&& (r matches Ok(t) ==> contains_id(s0, v) && ({
                    let next = mutate_row(m, row_at(s0, v));
                    &&& s1 == write_row(s0, v, next.title, next.completed)
                    &&& t@ == row_to_todo(next)
                    &&& contains_id(s1, v)
                    &&& row_at(s1, v) == next
                }))
            &&& (r == Err::<Todo, Error>(Error::NotFound) ==> !contains_id(s0, v))
            &&& (faultless ==> if contains_id(s0, v) {
                    r is Ok
                } else {
                    r == Err::<Todo, Error>(Error::NotFound)
                })
        },
    }
}

/// Contract of creating an entity from a title: on success a fresh,
/// non-empty, canonical, previously-unused identifier was generated, the
/// row was appended incomplete, and the stored entity is returned; on
/// failure (a storage fault, or the freshly generated identifier colliding
/// with a stored one) the table is untouched and the error is `Internal`.
/// On a fault-free adapter only a collision can fail the call, so a failure
/// there implies the table already held a row — in particular, creation on
/// an empty, fault-free store is owed success.
pub open spec fn create_post(s0: Seq<RowModel>, s1: Seq<RowModel>, faultless: bool, title: Seq<char>, r: Result<Todo, Error>) -> bool {
    &&& (r matches Ok(t) ==> ({
            &&& t@.completed == false
            &&& t@.title == title
            &&& t@.id.len() == 36
            &&& uuid_parse(t@.id) matches Some(v)
            &&& t@.id == uuid_str(v)
            &&& !contains_id(s0, v)
            &&& s1 == s0.push(RowModel { id: v, title, completed: false })
            &&& contains_id(s1, v)
            &&& row_at(s1, v) == (RowModel { id: v, title, completed: false })
        }))
    &&& (r matches Err(e) ==> e == Error::Internal && s1 == s0)
    &&& (faultless && r is Err ==> s0.len() > 0)
}

/// The persistence contract the domain depends on. An adapter exposes the
/// abstract content of its backing table through `store`, and answers
/// through `faultless` whether storage faults are impossible for it; an
/// adapter over a fallible transport answers `false` and may then fail any
/// operation with `Internal`.
pub trait Repo: Sized {
    /// The abstract content of the backing table: one row per persisted
    /// entity.
    spec fn store(&self) -> Seq<RowModel>;

    /// Whether storage faults are impossible for this adapter.
    spec fn faultless(&self) -> bool;

    /// Returns all entities, in reverse-creation order.
    fn get_todos(&self) -> (r: Result<Vec<Todo>, Error>)
        requires
            unique_ids(self.store()),
        ensures
            get_todos_post(self.store(), self.faultless(), r),
    ;

    /// Persists a new entity, always with `completed = false`, and returns
    /// the stored representation.
    fn insert_todo(&mut self, todo: Todo) -> (r: Result<Todo, Error>)
        requires
            unique_ids(old(self).store()),
        ensures
            unique_ids(final(self).store()),
            final(self).faultless() == old(self).faultless(),
            insert_post(old(self).store(), final(self).store(), old(self).faultless(), todo@, r),
    ;

    /// Returns the entity the identifier resolves to.
    fn get_todo_by_id(&self, id: String) -> (r: Result<Todo, Error>)
        requires
            unique_ids(self.store()),
        ensures
            get_by_id_post(self.store(), self.faultless(), id@, r),
    ;

    /// The read-modify-write protocol: fetch, transform in memory, write
    /// back keyed by the same identifier, return the written state.
    fn update_todo_by_id(&mut self, id: String, m: Mutation) -> (r: Result<Todo, Error>)
        requires
            unique_ids(old(self).store()),
        ensures
            unique_ids(final(self).store()),
            final(self).faultless() == old(self).faultless(),
            update_post(old(self).store(), final(self).store(), old(self).faultless(), id@, m, r),
    ;
}

/// The business orchestration contract: exactly the four operations the
/// transport adapter exposes, each returning a domain entity or sequence
/// thereof, or failing with `NotFound` or `Internal`.
pub trait App: Sized {
    /// The abstract content of the backing table this service orchestrates.
    spec fn store(&self) -> Seq<RowModel>;

    /// Whether storage faults are impossible underneath this service.
    spec fn faultless(&self) -> bool;

    /// Lists all entities; delegates to the port unmodified.
    fn get_todos(&self) -> (r: Result<Vec<Todo>, Error>)
        requires
            unique_ids(self.store()),
        ensures
            get_todos_post(self.store(), self.faultless(), r),
    ;

    /// Constructs a fresh entity from the title — no validation is applied
    /// to it — and persists it.
    fn create_todo(&mut self, title: String) -> (r: Result<Todo, Error>)
        requires
            unique_ids(old(self).store()),
        ensures
            unique_ids(final(self).store()),
            final(self).faultless() == old(self).faultless(),
            create_post(old(self).store(), final(self).store(), old(self).faultless(), title@, r),
    ;

    /// Fetches by identifier; propagates `NotFound` and `Internal`
    /// unchanged.
    fn get_todo_by_id(&self, id: String) -> (r: Result<Todo, Error>)
        requires
            unique_ids(self.store()),
        ensures
            get_by_id_post(self.store(), self.faultless(), id@, r),
    ;

    /// Completes by identifier through the read-modify-write protocol;
    /// propagates `NotFound` and `Internal` unchanged.
    fn complete_todo_by_id(&mut self, id: String) -> (r: Result<Todo, Error>)
        requires
            unique_ids(old(self).store()),
        ensures
            unique_ids(final(self).store()),
            final(self).faultless() == old(self).faultless(),
            update_post(old(self).store(), final(self).store(), old(self).faultless(), id@, Mutation::Complete, r),
    ;
}

} // verus!
