//! What the handlers achieve on a store that does as it is told.
//!
//! The store itself is outside this crate, so nothing here is proved of it.
//! This file states what the commands are meant to do to the collection of
//! todo items, and proves what then follows from the decisions of the
//! handlers: a reader who trusts the store to behave as [`after`] says
//! learns how a request shows in later listings.

use vstd::prelude::*;
use crate::http::{HttpResponseView, STATUS_CREATED, STATUS_NO_CONTENT, STATUS_OK};
use crate::models::{CategoryView, TodoView};
use crate::oid::{is_object_id_hex, object_id_bytes};
use crate::routes::{
    create_todo_action, delete_todo_action, get_categories_action, get_todos_action,
    update_todo_action, ActionView, EventView, UpdateRequestView,
};
use crate::store::CommandView;

verus! {

/// Whether `docs` can be the collection of todo items: each item is kept
/// under the identifier that it carries.
pub open spec fn well_formed(docs: Map<Seq<u8>, TodoView>) -> bool {
    forall|id: Seq<u8>| #[trigger] docs.dom().contains(id) ==> docs[id].id == Some(id)
}

/// The collection after the store has carried out `command` on `docs` and
/// reported success.
///
/// `fresh` is the identifier that the store makes up for an item that comes
/// without one. An update changes every field but the identifier. An update
/// or a deletion under an identifier that no item has changes nothing, and so
/// does a command that only reads.
pub open spec fn after(
    command: CommandView,
    docs: Map<Seq<u8>, TodoView>,
    fresh: Seq<u8>,
) -> Map<Seq<u8>, TodoView> {
    match command {
        CommandView::InsertTodo { item } => {
            let id = match item.id {
                Some(id) => id,
                None => fresh,
            };
            docs.insert(id, item.with_id(Some(id)))
        },
        CommandView::UpdateTodo { id, fields } => if docs.dom().contains(id) {
            docs.insert(id, fields.with_id(Some(id)))
        } else {
            docs
        },
        CommandView::DeleteTodo { id } => docs.remove(id),
        CommandView::FindTodos => docs,
        CommandView::FindCategories => docs,
    }
}

/// Whether `todos` is what the store hands out for `docs`: the items of the
/// collection and no others, in whatever order.
pub open spec fn lists(todos: Seq<TodoView>, docs: Map<Seq<u8>, TodoView>) -> bool {
    forall|item: TodoView| #[trigger]
        todos.contains(item) <==> (item.id matches Some(id) && docs.dom().contains(id) && docs[id]
            == item)
}

/// Creating a todo item and then listing shows the item, under the
/// identifier that the store made up for it, whatever identifier the request
/// carried; the listing is sent to the client as the store gave it.
pub proof fn law_created_todo_is_listed(
    docs: Map<Seq<u8>, TodoView>,
    item: TodoView,
    command: CommandView,
    fresh: Seq<u8>,
    todos: Seq<TodoView>,
)
    requires
        well_formed(docs),
        !docs.dom().contains(fresh),
        create_todo_action(EventView::Request(item)) == ActionView::Store(command),
        lists(todos, after(command, docs, fresh)),
    ensures
        command matches CommandView::InsertTodo { item: sent } && sent.is_draft(),
        well_formed(after(command, docs, fresh)),
        todos.contains(item.with_id(Some(fresh))),
        forall|listed: TodoView| #[trigger] todos.contains(listed) ==> listed.is_stored(),
        create_todo_action(EventView::Outcome(Ok(()))) == ActionView::Respond(
            HttpResponseView::empty(STATUS_CREATED),
        ),
        get_todos_action(EventView::Outcome(Ok(todos))) == ActionView::Respond(
            HttpResponseView::todos(todos),
        ),
{
}

/// Updating a todo item under an identifier that is written as twenty-four
/// hexadecimal digits and then listing shows the new values under that
/// identifier, and every other item as it was. Where no item has the
/// identifier, the collection stays as it is. Either way the client is told
/// 200, whether the store found the item or not.
pub proof fn law_updated_todo_is_listed(
    docs: Map<Seq<u8>, TodoView>,
    request: UpdateRequestView,
    command: CommandView,
    fresh: Seq<u8>,
    todos: Seq<TodoView>,
    matched: u64,
)
    requires
        well_formed(docs),
        is_object_id_hex(request.id),
        update_todo_action(EventView::Request(request)) == ActionView::Store(command),
        lists(todos, after(command, docs, fresh)),
    ensures
        well_formed(after(command, docs, fresh)),
        after(command, docs, fresh).dom() == docs.dom(),
        docs.dom().contains(object_id_bytes(request.id)) ==> todos.contains(
            request.item.with_id(Some(object_id_bytes(request.id))),
        ),
        !docs.dom().contains(object_id_bytes(request.id)) ==> after(command, docs, fresh) == docs,
        forall|id: Seq<u8>|
            docs.dom().contains(id) && id != object_id_bytes(request.id) ==> #[trigger] todos.contains(
                docs[id],
            ),
        update_todo_action(EventView::Outcome(Ok(matched))) == ActionView::Respond(
            HttpResponseView::empty(STATUS_OK),
        ),
        get_todos_action(EventView::Outcome(Ok(todos))) == ActionView::Respond(
            HttpResponseView::todos(todos),
        ),
{
    let id = object_id_bytes(request.id);
    let kept = after(command, docs, fresh);
    assert(kept.dom() =~= docs.dom());
    if docs.dom().contains(id) {
        assert(kept.dom().contains(id));
    } else {
        assert(kept =~= docs);
    }
    assert forall|other: Seq<u8>| docs.dom().contains(other) && other != id implies #[trigger]
        todos.contains(docs[other]) by {
        assert(kept.dom().contains(other));
        assert(kept[other] == docs[other]);
    }
}

/// Updating under an identifier that is not twenty-four hexadecimal digits,
/// the empty text or digits of another length included, is answered with 400
/// and sends the store no command: no record is altered.
pub proof fn law_update_with_unreadable_id_is_refused(request: UpdateRequestView)
    requires
        !is_object_id_hex(request.id),
    ensures
        update_todo_action(EventView::Request(request)) == ActionView::Respond(
            HttpResponseView::invalid_id(),
        ),
        update_todo_action(EventView::Request(request)) !is Store,
{
}

/// Deleting a todo item under an identifier that is written as twenty-four
/// hexadecimal digits and then listing no longer shows an item under that
/// identifier, and shows every other item as it was. Deleting a second time
/// changes nothing more. Each time the client is told 204, whether the store
/// dropped an item or not.
pub proof fn law_deleted_todo_is_not_listed(
    docs: Map<Seq<u8>, TodoView>,
    id: Seq<char>,
    command: CommandView,
    fresh: Seq<u8>,
    todos: Seq<TodoView>,
    dropped: u64,
)
    requires
        well_formed(docs),
        is_object_id_hex(id),
        delete_todo_action(EventView::Request(id)) == ActionView::Store(command),
        lists(todos, after(command, docs, fresh)),
    ensures
        well_formed(after(command, docs, fresh)),
        forall|item: TodoView| #[trigger]
            todos.contains(item) ==> item.id != Some(object_id_bytes(id)),
        forall|other: Seq<u8>|
            docs.dom().contains(other) && other != object_id_bytes(id) ==> #[trigger] todos.contains(
                docs[other],
            ),
        after(command, after(command, docs, fresh), fresh) == after(command, docs, fresh),
        delete_todo_action(EventView::Outcome(Ok(dropped))) == ActionView::Respond(
            HttpResponseView::empty(STATUS_NO_CONTENT),
        ),
        get_todos_action(EventView::Outcome(Ok(todos))) == ActionView::Respond(
            HttpResponseView::todos(todos),
        ),
{
    let gone = object_id_bytes(id);
    let kept = after(command, docs, fresh);
    assert(after(command, kept, fresh) =~= kept);
    assert forall|other: Seq<u8>| docs.dom().contains(other) && other != gone implies #[trigger]
        todos.contains(docs[other]) by {
        assert(kept.dom().contains(other));
        assert(kept[other] == docs[other]);
    }
}

/// Deleting under an identifier that is not twenty-four hexadecimal digits is
/// answered with 400 and sends the store no command.
pub proof fn law_delete_with_unreadable_id_is_refused(id: Seq<char>)
    requires
        !is_object_id_hex(id),
    ensures
        delete_todo_action(EventView::Request(id)) == ActionView::Respond(
            HttpResponseView::invalid_id(),
        ),
        delete_todo_action(EventView::Request(id)) !is Store,
{
}

/// Listing the categories asks the store for them without changing a
/// record, and sends what the store hands out as it is: the same
/// categories, in the same order, with the same names and colours.
pub proof fn law_categories_are_listed_as_kept(categories: Seq<CategoryView>)
    ensures
        get_categories_action(EventView::Request(())) == ActionView::Store(
            CommandView::FindCategories,
        ),
        CommandView::FindCategories.reads_only(),
        get_categories_action(EventView::Outcome(Ok(categories))) == ActionView::Respond(
            HttpResponseView::categories(categories),
        ),
{
}

} // verus!
