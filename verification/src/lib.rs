//! The decisions of a small todo-list service, stated and proved.
//!
//! The service keeps todo items and categories in a document store and
//! answers HTTP requests about them. Everything that waits on the network
//! lives with the caller. This crate holds what the service decides: how an
//! identifier is read, which store command a request leads to, which response
//! a store outcome leads to, and when the start-up connection is retried.

pub mod db;
pub mod http;
pub mod model;
pub mod models;
pub mod oid;
pub mod routes;
pub mod server;
pub mod store;
