//! What the service asks of the document store.
//!
//! The store is not part of this crate. A handler names the one command that
//! a request leads to, the caller carries it out, and the handler then turns
//! the store's outcome into a response. Each command is a type of its own, so
//! that a handler can only be handed the outcome of a command that it gives.

use vstd::prelude::*;
use crate::models::{Todo, TodoView};
use crate::oid::ObjectId;

verus! {

/// Name of the database that the service keeps its collections in.
pub const DATABASE_NAME: &'static str = "todoapp";

/// Name of the collection of todo items.
pub const TODOS_COLLECTION: &'static str = "todos";

/// Name of the collection of categories.
pub const CATEGORIES_COLLECTION: &'static str = "categories";

/// What a command to the store says, as plain mathematical values.
pub ghost enum CommandView {
    /// Hand out every todo item.
    FindTodos,
    /// Keep a new todo item.
    InsertTodo { item: TodoView },
    /// Set the fields of the todo item named `id` to those of `fields`.
    UpdateTodo { id: Seq<u8>, fields: TodoView },
    /// Drop the todo item named `id`.
    DeleteTodo { id: Seq<u8> },
    /// Hand out every category.
    FindCategories,
}

impl CommandView {
    /// Whether the command leaves every record as it is.
    pub open spec fn reads_only(self) -> bool {
        self is FindTodos || self is FindCategories
    }

    /// The name of the collection that the command is about.
    pub open spec fn collection(self) -> Seq<char> {
        if self is FindCategories {
            CATEGORIES_COLLECTION@
        } else {
            TODOS_COLLECTION@
        }
    }
}

/// A command to the store.
pub trait Command: View<V = CommandView> {
    /// Name of the collection that the command is sent to.
    fn collection(&self) -> (name: &'static str)
        ensures
            name@ == self@.collection(),
    ;
}

/// Hand out every todo item.
#[derive(Clone, Copy, Debug, PartialEq, Eq)]
pub struct FindTodos;

impl View for FindTodos {
    type V = CommandView;

    open spec fn view(&self) -> CommandView {
        CommandView::FindTodos
    }
}

impl Command for FindTodos {
    fn collection(&self) -> (name: &'static str) {
        TODOS_COLLECTION
    }
}

/// Keep a new todo item. An item without an identifier is given one by the
/// store.
#[derive(Clone, Debug, PartialEq, Eq)]
pub struct InsertTodo {
    pub item: Todo,
}

impl View for InsertTodo {
    type V = CommandView;

    open spec fn view(&self) -> CommandView {
        CommandView::InsertTodo { item: self.item@ }
    }
}

impl Command for InsertTodo {
    fn collection(&self) -> (name: &'static str) {
        TODOS_COLLECTION
    }
}

/// Set the fields of the todo item named `id` to those of `fields`. Where no
/// item has that identifier, nothing changes.
#[derive(Clone, Debug, PartialEq, Eq)]
pub struct UpdateTodo {
    pub id: ObjectId,
    pub fields: Todo,
}

impl View for UpdateTodo {
    type V = CommandView;

    open spec fn view(&self) -> CommandView {
        CommandView::UpdateTodo { id: self.id@, fields: self.fields@ }
    }
}

impl Command for UpdateTodo {
    fn collection(&self) -> (name: &'static str) {
        TODOS_COLLECTION
    }
}

/// Drop the todo item named `id`. Where no item has that identifier, nothing
/// changes.
#[derive(Clone, Copy, Debug, PartialEq, Eq)]
pub struct DeleteTodo {
    pub id: ObjectId,
}

impl View for DeleteTodo {
    type V = CommandView;

    open spec fn view(&self) -> CommandView {
        CommandView::DeleteTodo { id: self.id@ }
    }
}

impl Command for DeleteTodo {
    fn collection(&self) -> (name: &'static str) {
        TODOS_COLLECTION
    }
}

/// Hand out every category.
#[derive(Clone, Copy, Debug, PartialEq, Eq)]
pub struct FindCategories;

impl View for FindCategories {
    type V = CommandView;

    open spec fn view(&self) -> CommandView {
        CommandView::FindCategories
    }
}

impl Command for FindCategories {
    fn collection(&self) -> (name: &'static str) {
        CATEGORIES_COLLECTION
    }
}

} // verus!
