//! The domain entity: one task, identity plus a mutable completion flag.

use vstd::prelude::*;
use crate::ids::{format_todo_id, generate_todo_id, uuid_parse, uuid_str};

verus! {

/// Mathematical content of a `Todo`: its three domain-visible fields.
pub ghost struct TodoModel {
    pub id: Seq<char>,
    pub title: Seq<char>,
    pub completed: bool,
}

/// The domain object representing one task. Its identifier is assigned at
/// creation and never reassigned; the only mutation path is `complete`.
#[derive(Clone, Debug, PartialEq, Eq)]
pub struct Todo {
    id: String,
    title: String,
    completed: bool,
}

impl View for Todo {
    type V = TodoModel;

    closed spec fn view(&self) -> TodoModel {
        TodoModel { id: self.id@, title: self.title@, completed: self.completed }
    }
}

impl Todo {
    /// Fresh creation: generates an identifier and starts incomplete. The
    /// identifier is non-empty, in canonical form, and parses back to the
    /// 128-bit value it was rendered from.
    pub fn new(title: String) -> (t: Todo)
        ensures
            t@.title == title@,
            t@.completed == false,
            t@.id.len() == 36,
            uuid_parse(t@.id) matches Some(v) && t@.id == uuid_str(v),
    {
        let id = format_todo_id(generate_todo_id());
        Todo { id, title, completed: false }
    }

    /// Rehydration from storage: takes the fields as given, with no
    /// validation, trusting the storage adapter that the invariants already
    /// hold.
    pub fn from_data_storage(id: String, title: String, completed: bool) -> (t: Todo)
        ensures
            t@ == (TodoModel { id: id@, title: title@, completed }),
    {
        Todo { id, title, completed }
    }

    pub fn id(&self) -> (r: &String)
        ensures
            r@ == self@.id,
    {
        &self.id
    }

    pub fn title(&self) -> (r: &String)
        ensures
            r@ == self@.title,
    {
        &self.title
    }

    pub fn completed(&self) -> (r: bool)
        ensures
            r == self@.completed,
    {
        self.completed
    }

    /// Marks the entity completed. Idempotent: on an already-completed
    /// entity the state is unchanged; identity and title are never touched.
    pub fn complete(&mut self)
        ensures
            final(self)@ == (TodoModel { completed: true, ..old(self)@ }),
    {
        self.completed = true;
    }
}

} // verus!
