//! The synchronous command-buffer protocol: how a request is laid out in the
//! thread's command buffer, sent, and how the reply is read back.
pub mod command;
pub mod layout;
pub mod parser;
pub mod static_buffer;

pub use command::{ThreadCommand, ThreadCommandBuilder};
pub use layout::{make_static_buffer_header, ThreadLocalStorage};
pub use parser::ThreadCommandParser;
pub use static_buffer::StaticBufferGuard;
