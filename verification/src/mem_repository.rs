//! A storage adapter over an in-memory table. It realizes the repository
//! port without a fallible transport, so every outcome the port contract
//! conditions on `faultless` is owed exactly; identifier translation, the
//! error mapping and the two-round-trip read-modify-write protocol are the
//! same as over a relational store.

use vstd::prelude::*;
use vstd::assert_seqs_equal;
use crate::entities::Todo;
use crate::errors::Error;
use crate::ids::{format_todo_id, parse_todo_id, uuid_parse};
use crate::store::{
    contains_id, lemma_push_fresh, lemma_row_at_index, lemma_write_row, row_at, row_to_todo,
    unique_ids, write_row, RowModel,
};
use crate::traits::{mutate_row, Mutation, Repo};

verus! {

/// One row as the in-memory table holds it: store-native identifier, title
/// text, completion flag.
struct StoredTodo {
    id: u128,
    title: String,
    completed: bool,
}

impl View for StoredTodo {
    type V = RowModel;

    closed spec fn view(&self) -> RowModel {
        RowModel { id: self.id, title: self.title@, completed: self.completed }
    }
}

/// The in-memory storage adapter: a table of rows keyed by a unique
/// store-native identifier, one row per entity.
pub struct MemRepo {
    rows: Vec<StoredTodo>,
}

/// Contract of the write round-trip: a malformed identifier is `Internal`;
/// a key that resolves no row is `NotFound`; otherwise the row keyed by the
/// identifier takes the given mutable fields and is returned as written.
pub open spec fn write_back_post(
    s0: Seq<RowModel>,
    s1: Seq<RowModel>,
    id: Seq<char>,
    title: Seq<char>,
    completed: bool,
    r: Result<Todo, Error>,
) -> bool {
    &&& (r is Err ==> s1 == s0)
    &&& match uuid_parse(id) {
        None => r == Err::<Todo, Error>(Error::Internal),
        Some(v) => {
            &&& (r matches Ok(t) ==> contains_id(s0, v)
                    && s1 == write_row(s0, v, title, completed)
                    && t@ == row_to_todo(RowModel { id: v, title, completed }))
            &&& (if contains_id(s0, v) {
                    r is Ok
                } else {
                    r == Err::<Todo, Error>(Error::NotFound)
                })
        },
    }
}

impl MemRepo {
    /// An empty store.
    pub fn new() -> (r: MemRepo)
        ensures
            r.store().len() == 0,
            unique_ids(r.store()),
            r.faultless(),
    {
        MemRepo { rows: Vec::new() }
    }

    /// The position of the row keyed by `v`, if any.
    fn find_row(&self, v: u128) -> (r: Option<usize>)
        ensures
            r matches Some(i) ==> i < self.store().len() && self.store()[i as int].id == v,
            r is None ==> !contains_id(self.store(), v),
    {
        let mut i: usize = 0;
        while i < self.rows.len()
            invariant
                i <= self.rows@.len(),
                forall|k: int| 0 <= k < i ==> #[trigger] self.store()[k].id != v,
            decreases self.rows@.len() - i,
        {
            if self.rows[i].id == v {
                return Some(i);
            }
            i = i + 1;
        }
        None
    }

    /// Step three of the read-modify-write protocol as its own round-trip:
    /// writes the candidate's mutable fields back keyed by the identifier
    /// and returns the freshly-written row. The protocol gives no atomicity
    /// across steps: between one caller's read and its write, another
    /// caller's round-trips may come in any order, and the last write wins.
    pub fn write_back(&mut self, id: String, title: String, completed: bool) -> (r: Result<
        Todo,
        Error,
    >)
        requires
            unique_ids(old(self).store()),
        ensures
            unique_ids(final(self).store()),
            write_back_post(old(self).store(), final(self).store(), id@, title@, completed, r),
    {
        let v = match parse_todo_id(id.as_str()) {
            Some(v) => v,
            None => {
                return Err(Error::Internal);
            },
        };
        match self.find_row(v) {
            Some(i) => {
                let st = StoredTodo { id: v, title: title.clone(), completed };
                proof {
                    lemma_write_row(self.store(), v, title@, completed);
                }
                self.rows[i] = st;
                proof {
                    let s0 = old(self).store();
                    let s1 = self.store();
                    let sw = write_row(s0, v, title@, completed);
                    assert forall|j: int| 0 <= j < s0.len() implies s1[j] == sw[j] by {
                        if j != i {
                            assert(s0[j].id != s0[i as int].id);
                        }
                    }
                    assert_seqs_equal!(s1 == sw);
                }
                Ok(Todo::from_data_storage(format_todo_id(v), title, completed))
            },
            None => Err(Error::NotFound),
        }
    }
}

impl Repo for MemRepo {
    closed spec fn store(&self) -> Seq<RowModel> {
        self.rows@.map_values(|st: StoredTodo| st@)
    }

    open spec fn faultless(&self) -> bool {
        true
    }

    fn get_todos(&self) -> (r: Result<Vec<Todo>, Error>) {
        let mut out: Vec<Todo> = Vec::new();
        let n = self.rows.len();
        let mut i: usize = n;
        while i > 0
            invariant
                i <= n,
                n == self.rows@.len(),
                out@.len() == n - i,
                unique_ids(self.store()),
                forall|k: int| 0 <= k < out@.len()
                    ==> #[trigger] out@[k]@ == row_to_todo(self.store()[n - 1 - k]),
            decreases i,
        {
            i = i - 1;
            let st = &self.rows[i];
            let todo = Todo::from_data_storage(format_todo_id(st.id), st.title.clone(), st.completed);
            out.push(todo);
        }
        Ok(out)
    }

    fn insert_todo(&mut self, todo: Todo) -> (r: Result<Todo, Error>) {
        let v = match parse_todo_id(todo.id().as_str()) {
            Some(v) => v,
            None => {
                return Err(Error::Internal);
            },
        };
        match self.find_row(v) {
            Some(_) => {
                // a duplicate key is a constraint violation
                return Err(Error::Internal);
            },
            None => {},
        }
        let st = StoredTodo { id: v, title: todo.title().clone(), completed: false };
        proof {
            lemma_push_fresh(self.store(), st@);
        }
        let ghost row = st@;
        self.rows.push(st);
        proof {
            assert_seqs_equal!(self.store() == old(self).store().push(row));
        }
        // read back the authoritative persisted row
        let n = self.rows.len();
        let stored = &self.rows[n - 1];
        Ok(Todo::from_data_storage(format_todo_id(stored.id), stored.title.clone(), stored.completed))
    }

    fn get_todo_by_id(&self, id: String) -> (r: Result<Todo, Error>) {
        let v = match parse_todo_id(id.as_str()) {
            Some(v) => v,
            None => {
                return Err(Error::Internal);
            },
        };
        match self.find_row(v) {
            Some(i) => {
                let st = &self.rows[i];
                proof {
                    lemma_row_at_index(self.store(), i as int);
                }
                Ok(Todo::from_data_storage(format_todo_id(st.id), st.title.clone(), st.completed))
            },
            None => Err(Error::NotFound),
        }
    }

    fn update_todo_by_id(&mut self, id: String, m: Mutation) -> (r: Result<Todo, Error>) {
        // step one: one round-trip reads the current persisted entity
        let current = match self.get_todo_by_id(id.clone()) {
            Ok(t) => t,
            Err(e) => {
                return Err(e);
            },
        };
        // step two: the transformation is applied in memory
        let mut next = current;
        match m {
            Mutation::Complete => next.complete(),
        }
        // step three: a second, independent round-trip writes the
        // candidate's mutable fields back keyed by the same identifier
        let r = self.write_back(id, next.title().clone(), next.completed());
        proof {
            let s0 = old(self).store();
            let v = uuid_parse(id@)->Some_0;
            assert(row_at(s0, v).id == v);
            if r is Ok {
                let n = mutate_row(m, row_at(s0, v));
                lemma_write_row(s0, v, n.title, n.completed);
            }
        }
        r
    }
}

} // verus!
