//! A controller for a 3D printer on a serial line that speaks Marlin's
//! G-code: the bridge that drives the serial session, the parser of the
//! firmware's replies, the print job, the supervisor that brings the bridge up
//! and down, and what the front door decides about a request.
//!
//! Nothing in this crate reads or writes: the bridge and the supervisor are
//! state machines that take what happened and return what is to be done,
//! and the routes take what a request holds as plain values.

pub mod api_manager;
pub mod auth;

pub mod bridge;
pub mod frames;
pub mod machine;
pub mod manager;
pub mod models;
pub mod outside;
pub mod parser;
pub mod print_info;
pub mod routes;
pub mod settings;
pub mod text;
