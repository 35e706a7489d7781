//! A small document API over two collections, users and lists: the document
//! schema, identifier handling, an in-memory collection store, the repository
//! operations over it and the HTTP status decisions of the handlers.

pub mod object_id;
pub mod models;
pub mod collection;
pub mod repository;
pub mod api;
