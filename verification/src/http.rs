//! The responses that the service gives, apart from how they travel.

use vstd::prelude::*;
use vstd::string::StringExecFns;
use crate::models::{Category, CategoryView, Todo, TodoView};

verus! {

/// Status of a request that was answered with content, or that changed a record.
pub const STATUS_OK: u16 = 200;

/// Status of a request that made a new record.
pub const STATUS_CREATED: u16 = 201;

/// Status of a request that was carried out and has nothing to say.
pub const STATUS_NO_CONTENT: u16 = 204;

/// Status of a request that the service could not read.
pub const STATUS_BAD_REQUEST: u16 = 400;

/// Status of a request on which the store failed.
pub const STATUS_INTERNAL_SERVER_ERROR: u16 = 500;

/// What a client is told when the text in the path is no identifier.
pub const INVALID_ID_MESSAGE: &'static str = "Invalid ID format";

/// The content of a response.
#[derive(Clone, Debug, PartialEq, Eq)]
pub enum Body {
    /// No content at all.
    Empty,
    /// Plain text.
    Text(String),
    /// Todo items, to be sent as a JSON array.
    Todos(Vec<Todo>),
    /// Categories, to be sent as a JSON array.
    Categories(Vec<Category>),
}

/// What a [`Body`] holds, as plain mathematical values.
pub ghost enum BodyView {
    Empty,
    Text(Seq<char>),
    Todos(Seq<TodoView>),
    Categories(Seq<CategoryView>),
}

impl View for Body {
    type V = BodyView;

    open spec fn view(&self) -> BodyView {
        match self {
            Body::Empty => BodyView::Empty,
            Body::Text(text) => BodyView::Text(text@),
            Body::Todos(todos) => BodyView::Todos(todos.deep_view()),
            Body::Categories(categories) => BodyView::Categories(categories.deep_view()),
        }
    }
}

/// A response: its status code and its content.
#[derive(Clone, Debug, PartialEq, Eq)]
pub struct HttpResponse {
    pub status: u16,
    pub body: Body,
}

/// What an [`HttpResponse`] holds, as plain mathematical values.
pub ghost struct HttpResponseView {
    pub status: u16,
    pub body: BodyView,
}

impl HttpResponseView {
    /// 200 with the todo items as content.
    pub open spec fn todos(todos: Seq<TodoView>) -> HttpResponseView {
        HttpResponseView { status: STATUS_OK, body: BodyView::Todos(todos) }
    }

    /// 200 with the categories as content.
    pub open spec fn categories(categories: Seq<CategoryView>) -> HttpResponseView {
        HttpResponseView { status: STATUS_OK, body: BodyView::Categories(categories) }
    }

    /// The given status without content.
    pub open spec fn empty(status: u16) -> HttpResponseView {
        HttpResponseView { status, body: BodyView::Empty }
    }

    /// 400, saying that the identifier could not be read.
    pub open spec fn invalid_id() -> HttpResponseView {
        HttpResponseView { status: STATUS_BAD_REQUEST, body: BodyView::Text(INVALID_ID_MESSAGE@) }
    }

    /// 500 with the store's own words as content.
    pub open spec fn store_failure(message: Seq<char>) -> HttpResponseView {
        HttpResponseView { status: STATUS_INTERNAL_SERVER_ERROR, body: BodyView::Text(message) }
    }
}

impl View for HttpResponse {
    type V = HttpResponseView;

    open spec fn view(&self) -> HttpResponseView {
        HttpResponseView { status: self.status, body: self.body@ }
    }
}

impl HttpResponse {
    /// 200 with the todo items as content, in the order given.
    pub fn todos(todos: Vec<Todo>) -> (response: HttpResponse)
        ensures
            response@ == HttpResponseView::todos(todos.deep_view()),
    {
        HttpResponse { status: STATUS_OK, body: Body::Todos(todos) }
    }

    /// 200 with the categories as content, in the order given.
    pub fn categories(categories: Vec<Category>) -> (response: HttpResponse)
        ensures
            response@ == HttpResponseView::categories(categories.deep_view()),
    {
        HttpResponse { status: STATUS_OK, body: Body::Categories(categories) }
    }

    /// The given status without content.
    pub fn empty(status: u16) -> (response: HttpResponse)
        ensures
            response@ == HttpResponseView::empty(status),
    {
        HttpResponse { status, body: Body::Empty }
    }

    /// 400, saying that the identifier could not be read.
    pub fn invalid_id() -> (response: HttpResponse)
        ensures
            response@ == HttpResponseView::invalid_id(),
    {
        HttpResponse {
            status: STATUS_BAD_REQUEST,
            body: Body::Text(String::from_str(INVALID_ID_MESSAGE)),
        }
    }

    /// 500 with the store's own words as content, unchanged.
    pub fn store_failure(message: String) -> (response: HttpResponse)
        ensures
            response@ == HttpResponseView::store_failure(message@),
    {
        HttpResponse { status: STATUS_INTERNAL_SERVER_ERROR, body: Body::Text(message) }
    }
}

} // verus!
