//! What each route of the API decides once a request has reached it. The
//! handlers take what the request holds as plain values and return either
//! the event to publish or the reply that turns the request down.

pub mod cancel_print;
pub mod create_connection;
pub mod disconnect_connection;
pub mod list_files;
pub mod login;
pub mod ping;
pub mod reconnect_connection;
pub mod rename_file;
pub mod start_print;
pub mod terminal;
pub mod upload_file;
