//! A minimal concurrent HTTP server core: request parsing, response framing,
//! demo endpoints, the job store, the worker pool protocol and the accept loop,
//! each stated over mathematical models and proved.

pub mod connection;
pub mod job_store;
pub mod server;
pub mod text;
pub mod thread_pool;
pub mod utils;

pub use crate::server::WebServer;
pub use crate::thread_pool::ThreadPool;
