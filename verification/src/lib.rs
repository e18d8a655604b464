//! A verified chat backend core: users register and sign in, create
//! channels, and post, edit and delete messages, all against an in-memory
//! relational state.
//!
//! - [`store`] holds the state — five relations and the well-formedness
//!   rules a relational schema would enforce on them;
//! - [`entities`] holds the rows and the values the API hands out;
//! - [`api`] holds the query and mutation surface, each function with a
//!   contract that classifies every outcome;
//! - [`laws`] holds the properties that span several calls, proved for
//!   every state;
//! - [`errors`] holds the typed failures;
//! - [`outside`] holds the few trusted calls into bcrypt, uuid and chrono.

pub mod api;
pub mod entities;
pub mod errors;
pub mod laws;
pub mod outside;
pub mod store;
