//! Client side of the ssh-agent wire protocol: typed requests are turned into
//! length-prefixed packets, and the agent's packets are checked and handed on.

pub mod buffer;
pub mod error;
pub mod utils;
pub mod packet;
pub mod client;
