//! The fixed settings of the service: where it listens, which routes it
//! offers, what it allows other origins, and how it ends when the store
//! cannot be reached.

use vstd::prelude::*;

verus! {

/// Address that the service listens on: every interface.
pub const BIND_ADDRESS: &'static str = "0.0.0.0";

/// Port that the service listens on.
pub const PORT: u16 = 8080;

/// Prefix of every route.
pub const API_PREFIX: &'static str = "/api";

/// Exit code of the process when the store could not be reached at start-up.
pub const EXIT_STORE_UNREACHABLE: i32 = 1;

/// Seconds for which a client may remember what the service allows other
/// origins.
pub const CORS_MAX_AGE_SECS: usize = 3600;

/// What the service allows requests from other origins.
#[derive(Clone, Copy, Debug, PartialEq, Eq)]
pub struct CorsPolicy {
    pub any_origin: bool,
    pub any_method: bool,
    pub any_header: bool,
    pub max_age_secs: usize,
}

/// The policy of the service: every origin, every method and every header is
/// allowed, and clients may remember that for an hour.
pub fn cors_policy() -> (policy: CorsPolicy)
    ensures
        policy == (CorsPolicy {
            any_origin: true,
            any_method: true,
            any_header: true,
            max_age_secs: CORS_MAX_AGE_SECS,
        }),
{
    CorsPolicy {
        any_origin: true,
        any_method: true,
        any_header: true,
        max_age_secs: CORS_MAX_AGE_SECS,
    }
}

/// The request methods that the service routes.
#[derive(Clone, Copy, Debug, PartialEq, Eq)]
pub enum Method {
    Get,
    Post,
    Put,
    Delete,
}

/// The handlers of [`crate::routes`], by name.
#[derive(Clone, Copy, Debug, PartialEq, Eq)]
pub enum Handler {
    GetTodos,
    CreateTodo,
    UpdateTodo,
    DeleteTodo,
    GetCategories,
}

/// One route: requests with `method` on `path`, below [`API_PREFIX`], go to
/// `handler`. In a path `{id}` stands for one segment, the identifier.
#[derive(Clone, Copy, Debug, PartialEq, Eq)]
pub struct Route {
    pub method: Method,
    pub path: &'static str,
    pub handler: Handler,
}

/// What a [`Route`] holds, as plain mathematical values.
pub ghost struct RouteView {
    pub method: Method,
    pub path: Seq<char>,
    pub handler: Handler,
}

impl View for Route {
    type V = RouteView;

    open spec fn view(&self) -> RouteView {
        RouteView { method: self.method, path: self.path@, handler: self.handler }
    }
}

/// The routes of the service.
pub open spec fn route_table() -> Seq<RouteView> {
    seq![
        RouteView { method: Method::Get, path: "/todos"@, handler: Handler::GetTodos },
        RouteView { method: Method::Post, path: "/todos"@, handler: Handler::CreateTodo },
        RouteView { method: Method::Put, path: "/todos/{id}"@, handler: Handler::UpdateTodo },
        RouteView { method: Method::Delete, path: "/todos/{id}"@, handler: Handler::DeleteTodo },
        RouteView { method: Method::Get, path: "/categories"@, handler: Handler::GetCategories },
    ]
}

/// Hands out the routes of the service, in the order of [`route_table`].
pub fn api_routes() -> (routes: Vec<Route>)
    ensures
        routes.len() == 5,
        forall|i: int| 0 <= i < 5 ==> (#[trigger] routes[i])@ == route_table()[i],
{
    let mut routes: Vec<Route> = Vec::new();
    routes.push(Route { method: Method::Get, path: "/todos", handler: Handler::GetTodos });
    routes.push(Route { method: Method::Post, path: "/todos", handler: Handler::CreateTodo });
    routes.push(Route { method: Method::Put, path: "/todos/{id}", handler: Handler::UpdateTodo });
    routes.push(
        Route { method: Method::Delete, path: "/todos/{id}", handler: Handler::DeleteTodo },
    );
    routes.push(
        Route { method: Method::Get, path: "/categories", handler: Handler::GetCategories },
    );
    routes
}

} // verus!
