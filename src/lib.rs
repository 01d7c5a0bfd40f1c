//! A small web server's own logic: the port setting, the route table,
//! the replies of its built-in pages and the startup sequence.
use vstd::prelude::*;

pub mod config;
pub mod routes;
pub mod startup;

verus! {

/// The context shared by every request handler. It carries nothing: it is made
/// once at startup, shared read-only and never changed.
#[derive(Clone, Copy, Debug)]
pub struct AppState {}

} // verus!
