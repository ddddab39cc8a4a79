//! Clients in a SQLite database: a repository that stores, changes and
//! removes them and searches them a page at a time, and a manager that
//! validates records and keeps the last search up to date.
//!
//! The statements that the store is handed, the decoding of its rows, the
//! page arithmetic, the validation rules and what the manager keeps are
//! verified. What the store answers is not known in advance: the functions
//! that ask it say what holds for every answer, and the functions that take
//! an answer as an argument say what is made of it.

use vstd::prelude::*;

pub mod client;
pub mod client_manager;
pub mod client_repo;
pub mod connector;
pub mod criteria;
pub mod data_management;
pub mod json;
pub mod navigation;
pub mod paging;
pub mod query;
pub mod repo_error;
pub mod row;
pub mod sql;
pub mod store;
pub mod text;
pub mod update;
pub mod validation;
