//! Request and response logic of a small web front end for a terminal
//! multiplexer: which command lines to run for each endpoint, and how the
//! outcome of each run becomes an HTTP status and a response body.

pub mod capture;
pub mod process;
pub mod send;
pub mod server;
pub mod status;
pub mod target;
pub mod text;
pub mod windows;
