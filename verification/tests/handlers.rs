use todo_server::http::{
    Body, HttpResponse, INVALID_ID_MESSAGE, STATUS_BAD_REQUEST, STATUS_CREATED, STATUS_INTERNAL_SERVER_ERROR,
    STATUS_NO_CONTENT, STATUS_OK,
};
use todo_server::models::{Category, Todo};
use todo_server::oid::ObjectId;
use todo_server::routes::{
    create_todo, delete_todo, get_categories, get_todos, update_todo, Action, Event,
    UpdateRequest,
};
use todo_server::store::{
    Command, DeleteTodo, FindCategories, FindTodos, InsertTodo, UpdateTodo,
    CATEGORIES_COLLECTION, DATABASE_NAME, TODOS_COLLECTION,
};

const HEX: &str = "53e37d08776f724e42000000";
const BYTES: [u8; 12] = [0x53, 0xe3, 0x7d, 0x08, 0x77, 0x6f, 0x72, 0x4e, 0x42, 0, 0, 0];

fn draft(title: &str) -> Todo {
    Todo {
        id: None,
        title: title.to_string(),
        description: format!("about {}", title),
        priority: "high".to_string(),
        category: "home".to_string(),
        due_date: Some("2024-05-01".to_string()),
        completed: false,
        created_at: "2024-04-01T10:00:00Z".to_string(),
    }
}

fn stored(last_byte: u8, title: &str) -> Todo {
    let mut bytes = [0u8; 12];
    bytes[11] = last_byte;
    Todo { id: Some(ObjectId { bytes }), ..draft(title) }
}

fn invalid_id<C>() -> Action<C> {
    Action::Respond(HttpResponse {
        status: 400,
        body: Body::Text("Invalid ID format".to_string()),
    })
}

fn failure<C>(message: &str) -> Action<C> {
    Action::Respond(HttpResponse { status: 500, body: Body::Text(message.to_string()) })
}

#[test]
fn status_codes() {
    assert_eq!(STATUS_OK, 200);
    assert_eq!(STATUS_CREATED, 201);
    assert_eq!(STATUS_NO_CONTENT, 204);
    assert_eq!(STATUS_BAD_REQUEST, 400);
    assert_eq!(STATUS_INTERNAL_SERVER_ERROR, 500);
}

#[test]
fn invalid_id_message() {
    assert_eq!(INVALID_ID_MESSAGE, "Invalid ID format");
}

#[test]
fn store_names() {
    assert_eq!(DATABASE_NAME, "todoapp");
    assert_eq!(TODOS_COLLECTION, "todos");
    assert_eq!(CATEGORIES_COLLECTION, "categories");
}

#[test]
fn commands_go_to_their_collection() {
    let id = ObjectId { bytes: BYTES };
    assert_eq!(FindTodos.collection(), "todos");
    assert_eq!(InsertTodo { item: draft("a") }.collection(), "todos");
    assert_eq!(UpdateTodo { id, fields: draft("a") }.collection(), "todos");
    assert_eq!(DeleteTodo { id }.collection(), "todos");
    assert_eq!(FindCategories.collection(), "categories");
}

#[test]
fn responses_are_built_as_named() {
    assert_eq!(
        HttpResponse::todos(vec![stored(1, "a")]),
        HttpResponse { status: 200, body: Body::Todos(vec![stored(1, "a")]) }
    );
    assert_eq!(
        HttpResponse::categories(vec![]),
        HttpResponse { status: 200, body: Body::Categories(vec![]) }
    );
    assert_eq!(HttpResponse::empty(204), HttpResponse { status: 204, body: Body::Empty });
    assert_eq!(
        HttpResponse::invalid_id(),
        HttpResponse { status: 400, body: Body::Text("Invalid ID format".to_string()) }
    );
    assert_eq!(
        HttpResponse::store_failure("no reply".to_string()),
        HttpResponse { status: 500, body: Body::Text("no reply".to_string()) }
    );
}

#[test]
fn get_todos_asks_for_all_todos() {
    assert_eq!(get_todos(Event::Request(())), Action::Store(FindTodos));
}

#[test]
fn get_todos_sends_what_the_store_gave() {
    let todos = vec![stored(2, "second"), stored(1, "first"), stored(3, "third")];
    assert_eq!(
        get_todos(Event::Outcome(Ok(todos.clone()))),
        Action::Respond(HttpResponse { status: 200, body: Body::Todos(todos) })
    );
}

#[test]
fn get_todos_sends_an_empty_list() {
    assert_eq!(
        get_todos(Event::Outcome(Ok(vec![]))),
        Action::Respond(HttpResponse { status: 200, body: Body::Todos(vec![]) })
    );
}

#[test]
fn get_todos_passes_on_a_failure() {
    assert_eq!(
        get_todos(Event::Outcome(Err("connection reset".to_string()))),
        failure("connection reset")
    );
}

#[test]
fn create_todo_inserts_the_item() {
    assert_eq!(
        create_todo(Event::Request(draft("milk"))),
        Action::Store(InsertTodo { item: draft("milk") })
    );
}

#[test]
fn create_todo_leaves_out_an_identifier_that_was_sent() {
    assert_eq!(
        create_todo(Event::Request(stored(9, "milk"))),
        Action::Store(InsertTodo { item: draft("milk") })
    );
}

#[test]
fn create_todo_does_not_look_into_the_fields() {
    let odd = Todo {
        id: None,
        title: String::new(),
        description: String::new(),
        priority: "no such priority".to_string(),
        category: String::new(),
        due_date: Some("not a date".to_string()),
        completed: true,
        created_at: "yesterday".to_string(),
    };
    assert_eq!(
        create_todo(Event::Request(odd.clone())),
        Action::Store(InsertTodo { item: odd })
    );
}

#[test]
fn create_todo_answers_created() {
    assert_eq!(
        create_todo(Event::Outcome(Ok(()))),
        Action::Respond(HttpResponse { status: 201, body: Body::Empty })
    );
}

#[test]
fn create_todo_passes_on_a_failure() {
    assert_eq!(
        create_todo(Event::Outcome(Err("duplicate key".to_string()))),
        failure("duplicate key")
    );
}

#[test]
fn update_todo_sets_the_fields_under_the_identifier() {
    let request = UpdateRequest { id: HEX.to_string(), item: draft("tea") };
    assert_eq!(
        update_todo(Event::Request(request)),
        Action::Store(UpdateTodo {
            id: ObjectId { bytes: BYTES },
            fields: draft("tea"),
        })
    );
}

#[test]
fn update_todo_keeps_an_identifier_in_the_body() {
    let request = UpdateRequest { id: HEX.to_string(), item: stored(4, "tea") };
    assert_eq!(
        update_todo(Event::Request(request)),
        Action::Store(UpdateTodo {
            id: ObjectId { bytes: BYTES },
            fields: stored(4, "tea"),
        })
    );
}

#[test]
fn update_todo_refuses_an_empty_identifier() {
    let request = UpdateRequest { id: String::new(), item: draft("tea") };
    assert_eq!(update_todo(Event::Request(request)), invalid_id());
}

#[test]
fn update_todo_refuses_hex_of_another_length() {
    for id in ["53e37d08776f", "53e37d08776f724e4200000", "53e37d08776f724e420000000"] {
        let request = UpdateRequest { id: id.to_string(), item: draft("tea") };
        assert_eq!(update_todo(Event::Request(request)), invalid_id(), "{:?}", id);
    }
}

#[test]
fn update_todo_refuses_other_characters() {
    let request = UpdateRequest { id: "53e37d08776f724e4200000x".to_string(), item: draft("tea") };
    assert_eq!(update_todo(Event::Request(request)), invalid_id());
}

#[test]
fn update_todo_answers_ok_whatever_was_matched() {
    for matched in [0u64, 1, 2, u64::MAX] {
        assert_eq!(
            update_todo(Event::Outcome(Ok(matched))),
            Action::Respond(HttpResponse { status: 200, body: Body::Empty })
        );
    }
}

#[test]
fn update_todo_passes_on_a_failure() {
    assert_eq!(
        update_todo(Event::Outcome(Err("the _id field is immutable".to_string()))),
        failure("the _id field is immutable")
    );
}

#[test]
fn delete_todo_drops_the_item_under_the_identifier() {
    assert_eq!(
        delete_todo(Event::Request(HEX.to_string())),
        Action::Store(DeleteTodo { id: ObjectId { bytes: BYTES } })
    );
}

#[test]
fn delete_todo_reads_upper_case_like_lower_case() {
    assert_eq!(
        delete_todo(Event::Request(HEX.to_uppercase())),
        delete_todo(Event::Request(HEX.to_string()))
    );
}

#[test]
fn delete_todo_refuses_an_unreadable_identifier() {
    for id in ["", "1", "53e37d08776f", "53e37d08776f724e4200000", "not an identifier at all!"] {
        assert_eq!(delete_todo(Event::Request(id.to_string())), invalid_id(), "{:?}", id);
    }
}

#[test]
fn delete_todo_answers_no_content_whatever_was_dropped() {
    for dropped in [0u64, 1] {
        assert_eq!(
            delete_todo(Event::Outcome(Ok(dropped))),
            Action::Respond(HttpResponse { status: 204, body: Body::Empty })
        );
    }
}

#[test]
fn delete_todo_passes_on_a_failure() {
    assert_eq!(delete_todo(Event::Outcome(Err("timed out".to_string()))), failure("timed out"));
}

#[test]
fn get_categories_asks_for_all_categories() {
    assert_eq!(get_categories(Event::Request(())), Action::Store(FindCategories));
}

#[test]
fn get_categories_sends_what_the_store_gave() {
    let categories = vec![
        Category { name: "work".to_string(), color: "#ff0000".to_string() },
        Category { name: "home".to_string(), color: "green".to_string() },
        Category { name: String::new(), color: String::new() },
    ];
    assert_eq!(
        get_categories(Event::Outcome(Ok(categories.clone()))),
        Action::Respond(HttpResponse { status: 200, body: Body::Categories(categories) })
    );
}

#[test]
fn get_categories_passes_on_a_failure() {
    assert_eq!(
        get_categories(Event::Outcome(Err("cursor lost".to_string()))),
        failure("cursor lost")
    );
}

#[test]
fn a_failure_is_passed_on_word_for_word() {
    let message = "  Kind: I/O error: timed out, labels: {}\n";
    assert_eq!(get_todos(Event::Outcome(Err(message.to_string()))), failure(message));
    assert_eq!(get_todos(Event::Outcome(Err(String::new()))), failure(""));
}
