//! Sessions of a service and the handlers that answer their requests.
pub mod service;
pub mod session;

pub use service::{RequestHandler, RequestHandlerResult};
pub use session::Session;
