//! The application service: the only place business rules live. It is
//! dependency-inverted — constructed with any conforming storage adapter —
//! and stateless between calls beyond the entity's own completion flag.

use vstd::prelude::*;
use crate::entities::Todo;
use crate::errors::Error;
use crate::store::RowModel;
use crate::traits::{App, Mutation, Repo};

verus! {

/// The single implementation of the `App` port, over any conforming
/// repository.
pub struct AppImpl<R: Repo> {
    repo: R,
}

impl<R: Repo> AppImpl<R> {
    /// Constructed with a conforming storage adapter; orchestrates
    /// everything through it and holds no state of its own.
    pub fn new(repo: R) -> (a: AppImpl<R>)
        ensures
            a.store() == repo.store(),
            a.faultless() == repo.faultless(),
    {
        AppImpl { repo }
    }
}

impl<R: Repo> App for AppImpl<R> {
    closed spec fn store(&self) -> Seq<RowModel> {
        self.repo.store()
    }

    closed spec fn faultless(&self) -> bool {
        self.repo.faultless()
    }

    /// Delegates directly; empty sequences and failures pass through
    /// unmodified.
    fn get_todos(&self) -> (r: Result<Vec<Todo>, Error>) {
        self.repo.get_todos()
    }

    /// Constructs a fresh entity — no validation is performed on the title —
    /// and delegates persistence to the port.
    fn create_todo(&mut self, title: String) -> (r: Result<Todo, Error>) {
        let todo = Todo::new(title);
        self.repo.insert_todo(todo)
    }

    /// Delegates directly; propagates `NotFound` and `Internal` unchanged.
    fn get_todo_by_id(&self, id: String) -> (r: Result<Todo, Error>) {
        self.repo.get_todo_by_id(id)
    }

    /// Delegates to the read-modify-write protocol with the completion
    /// intent; propagates `NotFound` and `Internal` unchanged.
    fn complete_todo_by_id(&mut self, id: String) -> (r: Result<Todo, Error>) {
        self.repo.update_todo_by_id(id, Mutation::Complete)
    }
}

} // verus!
