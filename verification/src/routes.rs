//! The five request handlers.
//!
//! A handler never waits. It is called twice for one request: first with the
//! request, which it answers with a store command or, where the request
//! cannot be read, with a response at once; then with the outcome of that
//! command, which it answers with the response. Between the two calls it
//! keeps nothing.

use vstd::prelude::*;
use crate::http::{
    HttpResponse, HttpResponseView, STATUS_CREATED, STATUS_NO_CONTENT, STATUS_OK,
};
use crate::models::{Category, CategoryView, Todo, TodoView};
use crate::oid::{is_object_id_hex, object_id_bytes, ObjectId};
use crate::store::{
    Command, CommandView, DeleteTodo, FindCategories, FindTodos, InsertTodo, UpdateTodo,
};

verus! {

/// What a handler is called with: a request of kind `R`, or the outcome of
/// the command that it gave for one. A successful outcome carries a `T`, a
/// failed one the store's description of the failure.
#[derive(Debug, PartialEq, Eq)]
pub enum Event<R, T> {
    Request(R),
    Outcome(Result<T, String>),
}

/// What an [`Event`] holds, as plain mathematical values.
pub ghost enum EventView<R, T> {
    Request(R),
    Outcome(Result<T, Seq<char>>),
}

impl<R: DeepView, T: DeepView> DeepView for Event<R, T> {
    type V = EventView<R::V, T::V>;

    open spec fn deep_view(&self) -> EventView<R::V, T::V> {
        match self {
            Event::Request(request) => EventView::Request(request.deep_view()),
            Event::Outcome(Ok(value)) => EventView::Outcome(Ok(value.deep_view())),
            Event::Outcome(Err(message)) => EventView::Outcome(Err(message@)),
        }
    }
}

/// What a handler wants done next. `C` is the command that the handler may
/// give.
#[derive(Clone, Debug, PartialEq, Eq)]
pub enum Action<C> {
    /// Carry out the command and come back with its outcome.
    Store(C),
    /// Send the response. The request is done.
    Respond(HttpResponse),
}

/// What an [`Action`] holds, as plain mathematical values.
pub ghost enum ActionView {
    Store(CommandView),
    Respond(HttpResponseView),
}

impl<C: Command> View for Action<C> {
    type V = ActionView;

    open spec fn view(&self) -> ActionView {
        match self {
            Action::Store(command) => ActionView::Store(command@),
            Action::Respond(response) => ActionView::Respond(response@),
        }
    }
}

/// A request to change the todo item that `id` names into `item`.
#[derive(Clone, Debug, PartialEq, Eq)]
pub struct UpdateRequest {
    /// The identifier as the client wrote it in the path.
    pub id: String,
    /// The new values of all fields.
    pub item: Todo,
}

/// What an [`UpdateRequest`] holds, as plain mathematical values.
pub ghost struct UpdateRequestView {
    pub id: Seq<char>,
    pub item: TodoView,
}

impl DeepView for UpdateRequest {
    type V = UpdateRequestView;

    open spec fn deep_view(&self) -> UpdateRequestView {
        UpdateRequestView { id: self.id@, item: self.item@ }
    }
}

/// What listing the todo items decides.
pub open spec fn get_todos_action(event: EventView<(), Seq<TodoView>>) -> ActionView {
    match event {
        EventView::Request(_) => ActionView::Store(CommandView::FindTodos),
        EventView::Outcome(Ok(todos)) => ActionView::Respond(HttpResponseView::todos(todos)),
        EventView::Outcome(Err(message)) => ActionView::Respond(
            HttpResponseView::store_failure(message),
        ),
    }
}

/// Lists the todo items.
///
/// The request asks the store for all of them. What the store hands out is
/// sent as it is, in the store's order, with status 200; a failure of the
/// store is sent in the store's words with status 500.
pub fn get_todos(event: Event<(), Vec<Todo>>) -> (action: Action<FindTodos>)
    ensures
        action@ == get_todos_action(event.deep_view()),
{
    match event {
        Event::Request(_) => Action::Store(FindTodos),
        Event::Outcome(Ok(todos)) => Action::Respond(HttpResponse::todos(todos)),
        Event::Outcome(Err(message)) => Action::Respond(HttpResponse::store_failure(message)),
    }
}

/// What creating a todo item decides.
pub open spec fn create_todo_action(event: EventView<TodoView, ()>) -> ActionView {
    match event {
        EventView::Request(item) => ActionView::Store(
            CommandView::InsertTodo { item: item.with_id(None) },
        ),
        EventView::Outcome(Ok(_)) => ActionView::Respond(HttpResponseView::empty(STATUS_CREATED)),
        EventView::Outcome(Err(message)) => ActionView::Respond(
            HttpResponseView::store_failure(message),
        ),
    }
}

/// Creates a todo item.
///
/// The request asks the store to keep the item. An identifier that the
/// client sent along is left out, so that the store assigns one; no other
/// field is looked at or changed. Success is answered with status 201 and no
/// content, a failure of the store in the store's words with status 500.
pub fn create_todo(event: Event<Todo, ()>) -> (action: Action<InsertTodo>)
    ensures
        action@ == create_todo_action(event.deep_view()),
{
    match event {
        Event::Request(item) => {
            let mut item = item;
            item.id = None;
            Action::Store(InsertTodo { item })
        },
        Event::Outcome(Ok(_)) => Action::Respond(HttpResponse::empty(STATUS_CREATED)),
        Event::Outcome(Err(message)) => Action::Respond(HttpResponse::store_failure(message)),
    }
}

/// What updating a todo item decides.
pub open spec fn update_todo_action(event: EventView<UpdateRequestView, u64>) -> ActionView {
    match event {
        EventView::Request(request) => if is_object_id_hex(request.id) {
            ActionView::Store(
                CommandView::UpdateTodo {
                    id: object_id_bytes(request.id),
                    fields: request.item,
                },
            )
        } else {
            ActionView::Respond(HttpResponseView::invalid_id())
        },
        EventView::Outcome(Ok(_)) => ActionView::Respond(HttpResponseView::empty(STATUS_OK)),
        EventView::Outcome(Err(message)) => ActionView::Respond(
            HttpResponseView::store_failure(message),
        ),
    }
}

/// Updates a todo item.
///
/// Where the identifier in the path is twenty-four hexadecimal digits, the
/// request asks the store to set the fields of the item so named to those
/// sent. Any other identifier is answered at once with status 400, and the
/// store is not asked anything. The successful outcome carries the number of
/// items that the store found under the identifier; whatever it is, zero
/// included, the answer is status 200 without content. A failure of the store
/// is answered in the store's words with status 500.
pub fn update_todo(event: Event<UpdateRequest, u64>) -> (action: Action<UpdateTodo>)
    ensures
        action@ == update_todo_action(event.deep_view()),
{
    match event {
        Event::Request(request) => match ObjectId::parse_str(request.id.as_str()) {
            Some(id) => Action::Store(UpdateTodo { id, fields: request.item }),
            None => Action::Respond(HttpResponse::invalid_id()),
        },
        Event::Outcome(Ok(_)) => Action::Respond(HttpResponse::empty(STATUS_OK)),
        Event::Outcome(Err(message)) => Action::Respond(HttpResponse::store_failure(message)),
    }
}

/// What deleting a todo item decides.
pub open spec fn delete_todo_action(event: EventView<Seq<char>, u64>) -> ActionView {
    match event {
        EventView::Request(id) => if is_object_id_hex(id) {
            ActionView::Store(CommandView::DeleteTodo { id: object_id_bytes(id) })
        } else {
            ActionView::Respond(HttpResponseView::invalid_id())
        },
        EventView::Outcome(Ok(_)) => ActionView::Respond(
            HttpResponseView::empty(STATUS_NO_CONTENT),
        ),
        EventView::Outcome(Err(message)) => ActionView::Respond(
            HttpResponseView::store_failure(message),
        ),
    }
}

/// Deletes a todo item.
///
/// Where the identifier in the path is twenty-four hexadecimal digits, the
/// request asks the store to drop the item so named. Any other identifier is
/// answered at once with status 400, and the store is not asked anything. The
/// successful outcome carries the number of items that the store dropped;
/// whatever it is, zero included, the answer is status 204 without content.
/// A failure of the store is answered in the store's words with status 500.
pub fn delete_todo(event: Event<String, u64>) -> (action: Action<DeleteTodo>)
    ensures
        action@ == delete_todo_action(event.deep_view()),
{
    match event {
        Event::Request(id) => match ObjectId::parse_str(id.as_str()) {
            Some(id) => Action::Store(DeleteTodo { id }),
            None => Action::Respond(HttpResponse::invalid_id()),
        },
        Event::Outcome(Ok(_)) => Action::Respond(HttpResponse::empty(STATUS_NO_CONTENT)),
        Event::Outcome(Err(message)) => Action::Respond(HttpResponse::store_failure(message)),
    }
}

/// What listing the categories decides.
pub open spec fn get_categories_action(event: EventView<(), Seq<CategoryView>>) -> ActionView {
    match event {
        EventView::Request(_) => ActionView::Store(CommandView::FindCategories),
        EventView::Outcome(Ok(categories)) => ActionView::Respond(
            HttpResponseView::categories(categories),
        ),
        EventView::Outcome(Err(message)) => ActionView::Respond(
            HttpResponseView::store_failure(message),
        ),
    }
}

/// Lists the categories.
///
/// The request asks the store for all of them. What the store hands out is
/// sent as it is, in the store's order, with status 200; a failure of the
/// store is sent in the store's words with status 500.
pub fn get_categories(event: Event<(), Vec<Category>>) -> (action:
    Action<FindCategories>)
    ensures
        action@ == get_categories_action(event.deep_view()),
{
    match event {
        Event::Request(_) => Action::Store(FindCategories),
        Event::Outcome(Ok(categories)) => Action::Respond(HttpResponse::categories(categories)),
        Event::Outcome(Err(message)) => Action::Respond(HttpResponse::store_failure(message)),
    }
}

} // verus!
