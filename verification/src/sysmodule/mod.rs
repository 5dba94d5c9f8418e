//! Building blocks for a process that offers a service itself.
pub mod server;
