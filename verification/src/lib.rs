//! Subscriber lifecycle and confirmation engine of a newsletter service.
//!
//! A visitor submits a name and an email address, and the subscription
//! becomes active once the visitor has clicked the link that was sent to
//! that address.
//!
//! - [`domain`] validates raw input into names and email addresses.
//! - [`form`] picks the fields out of form-encoded bodies and query strings.
//! - [`token`] issues confirmation tokens.
//! - [`store`] holds the rows of the two tables and judges what the store
//!   answers; [`tables`] is the model of the tables and keeps them in
//!   memory.
//! - [`email_client`] builds the requests to the mail endpoint and judges
//!   how they ended.
//! - [`routes`] holds the two flows, sign-up and confirmation. Each is a
//!   state machine: a step takes what happened outside and tells what is to
//!   be done next, and the server does it.
//! - [`engine`] states and proves what holds of whole runs of the flows.
//! - [`configuration`] holds the settings and what follows from them.
pub mod configuration;
pub mod domain;
pub mod email_client;
pub mod engine;
pub mod form;
pub mod routes;
pub mod store;
pub mod tables;
pub mod text;
pub mod token;
