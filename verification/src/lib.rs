//! An in-memory collection of todo records and the operations a small web
//! service offers on it: list, create, update and delete.
//!
//! Every operation is an ordinary function from the store and the request's
//! values to a [`Reply`]; what each one does to the store and what it answers
//! is stated over the store's view, a sequence of [`TodoView`].

pub mod handlers;
pub mod laws;
pub mod reply;
pub mod store;
pub mod todo;

pub use handlers::{create_todo, delete_todo, get_todos, update_todo};
pub use reply::{Reply, ReplyView, STATUS_NOT_FOUND, STATUS_OK};
pub use store::{TodoStore, CREATED_ID};
pub use todo::{Todo, TodoView};
