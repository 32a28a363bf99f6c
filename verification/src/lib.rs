//! A real-time chat relay core: message envelopes, a two-way membership
//! directory, a process-wide fan-out channel and the per-connection session
//! state machine, with their behaviour stated in contracts.

pub mod clock;
pub mod directory;
pub mod fanout;
pub mod index;
pub mod membership;
pub mod msg;
pub mod session;
pub mod state;

pub use msg::{Msg, MsgData};
pub use state::ChatState;
