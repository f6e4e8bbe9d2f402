//! A user registry with two ways of creating an account.
//!
//! The registry keeps full user records under their email. One creation path
//! stores whatever record the client sent, privileged fields included; the
//! other accepts only a username, a password and an email and assigns the
//! privileged fields itself.
//!
//! - [`user`]: the record and the narrower shape a client may submit.
//! - [`store`]: the records, kept in a `DashMap` under their email.
//! - [`service`]: the two creation paths on a store that the caller holds
//!   exclusively, specified exactly over a map from emails to records.
//! - [`registry`]: a store that only the two paths can fill, so that every
//!   record in it is kept under its own email.
//! - [`laws`]: what follows for every sequence of requests.

pub mod laws;
pub mod registry;
pub mod service;
pub mod store;
pub mod user;
