//! A socket client built on the command-buffer protocol, and a stand-in for it
//! that talks to nobody.
pub mod ctr;
pub mod mock;
pub mod shared;

pub use shared::{SocketAddr, SocketType, SocuState};
