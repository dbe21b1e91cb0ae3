//! The records that the service keeps: todo items and categories.

use vstd::prelude::*;
use crate::oid::ObjectId;

verus! {

/// A todo item.
///
/// The store assigns `id` when the item is first kept. An item that a client
/// sends for creation has none; an item that the store hands out has one.
/// `priority`, `category`, `due_date` and `created_at` are free text: the
/// service does not look into them.
#[derive(Clone, Debug, PartialEq, Eq)]
pub struct Todo {
    pub id: Option<ObjectId>,
    pub title: String,
    pub description: String,
    pub priority: String,
    pub category: String,
    pub due_date: Option<String>,
    pub completed: bool,
    pub created_at: String,
}

/// What a [`Todo`] holds, as plain mathematical values.
pub ghost struct TodoView {
    pub id: Option<Seq<u8>>,
    pub title: Seq<char>,
    pub description: Seq<char>,
    pub priority: Seq<char>,
    pub category: Seq<char>,
    pub due_date: Option<Seq<char>>,
    pub completed: bool,
    pub created_at: Seq<char>,
}

impl TodoView {
    /// The same item under the identifier `id`.
    pub open spec fn with_id(self, id: Option<Seq<u8>>) -> TodoView {
        TodoView { id, ..self }
    }

    /// Whether the item has not been kept yet: it has no identifier.
    pub open spec fn is_draft(self) -> bool {
        self.id is None
    }

    /// Whether the item is one that the store keeps: it has an identifier.
    pub open spec fn is_stored(self) -> bool {
        self.id is Some
    }
}

impl View for Todo {
    type V = TodoView;

    open spec fn view(&self) -> TodoView {
        TodoView {
            id: match self.id {
                Some(id) => Some(id@),
                None => None,
            },
            title: self.title@,
            description: self.description@,
            priority: self.priority@,
            category: self.category@,
            due_date: match self.due_date {
                Some(date) => Some(date@),
                None => None,
            },
            completed: self.completed,
            created_at: self.created_at@,
        }
    }
}

impl DeepView for Todo {
    type V = TodoView;

    open spec fn deep_view(&self) -> TodoView {
        self@
    }
}

/// A category that todo items can be filed under. It has no identifier of
/// its own towards clients.
#[derive(Clone, Debug, PartialEq, Eq)]
pub struct Category {
    pub name: String,
    pub color: String,
}

/// What a [`Category`] holds, as plain mathematical values.
pub ghost struct CategoryView {
    pub name: Seq<char>,
    pub color: Seq<char>,
}

impl View for Category {
    type V = CategoryView;

    open spec fn view(&self) -> CategoryView {
        CategoryView { name: self.name@, color: self.color@ }
    }
}

impl DeepView for Category {
    type V = CategoryView;

    open spec fn deep_view(&self) -> CategoryView {
        self@
    }
}

} // verus!
