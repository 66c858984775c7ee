//! Rules of a freelancing marketplace: clients post tasks, freelancers bid with
//! proposals made of milestones, and an accepted proposal becomes a deal.
//!
//! The library decides; it performs no input or output of its own. Serving a
//! request is a function from the answers that the document store has given
//! so far to the next call to make, or to the answer to the request. Whoever
//! runs the service makes the calls.
//!
//! - [`schema`], [`model`], [`response`]: what is sent, stored and shown.
//! - [`document`], [`utils`], [`reading`]: documents in the format of the
//!   store, how they are built, and how they are read.
//! - [`store`]: the calls to the store and its answers. Identifiers are
//!   made of numbers that the store sets aside in one step, so that no two
//!   requests are given the same.
//! - [`steps`], [`db`]: the operations, call by call.
//! - [`web`], [`handler`]: routes, sessions, and the answer to each request.
//! - [`memory`]: a store in memory, against which requests can be served.
//! - [`laws`], [`conduct`], [`runs`], [`concurrent`]: what is proved of the
//!   store, of the calls that the service makes, of the serving of a request,
//!   and of requests that are served at once.
//! - [`retry`], [`faultless`]: what is proved of a request that asks for
//!   what is there already, and of a request to which the store reports no
//!   fault.

pub mod concurrent;
pub mod conduct;
pub mod db;
pub mod document;
pub mod error;
pub mod faultless;
pub mod handler;
pub mod laws;
pub mod memory;
pub mod model;
pub mod reading;
pub mod response;
pub mod retry;
pub mod runs;
pub mod schema;
pub mod settings;
pub mod steps;
pub mod store;
pub mod text;
pub mod utils;
pub mod web;
