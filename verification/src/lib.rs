//! The verified core of a small file-serving daemon: request parsing, path
//! resolution, response framing, and the dispatch rules of its worker pool.

pub mod accept;
pub mod handler;
pub mod mime;
pub mod path;
pub mod request;
pub mod response;
pub mod structs;
pub mod text;

pub use handler::handle_client;
pub use structs::{Config, ThreadPool, Worker};
