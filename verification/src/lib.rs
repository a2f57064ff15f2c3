//! The core of a personal-finance ledger service: buckets (budget envelopes),
//! transactions (spends against a bucket) and a balance (an account
//! snapshot), each with a list, create, update and delete endpoint over a
//! relational store.
//!
//! The library makes every decision of the service and does none of its
//! input or output. A request passes through it in three steps, with the
//! store's work between the second and the third:
//!
//! 1. [`service::accept`] routes the request ([`router`]) and decodes its body
//!    ([`decode`]) into a call on the store, or turns it away;
//! 2. [`service::query_statement`] and [`service::command_statement`] say
//!    which SQL statement the call runs ([`db`]);
//! 3. [`service::answer_query`] and [`service::answer_command`] turn what the
//!    store answered into the response ([`handlers`]).
//!
//! Three choices hold throughout. An update overwrites every settable column,
//! and writes NULL for a field that the request leaves out. An update or a
//! delete that finds no row is a success like any other. Nothing keeps a
//! second balance from being created, and reading the balance fails unless
//! there is exactly one.
//!
//! Every function is verified against a contract that says exactly what it
//! returns; [`laws`] holds what follows for the service as a whole.

pub mod db;
pub mod decode;
pub mod handlers;
pub mod json;
pub mod laws;
pub mod models;
pub mod router;
pub mod service;
pub mod text;
