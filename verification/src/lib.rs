//! The session/protocol engine of a terminal chat client: the flag-prefixed
//! wire codec, the acknowledgment-windowed send queue, the application and
//! job state machines, the inbound-frame dispatcher and the connection
//! bootstrap. Terminal rendering, networking and the async plumbing live
//! outside this crate; they drive the engine through the functions here.

pub mod bootstrap;
mod clock;
pub mod codec;
pub mod inbound;
pub mod queue;
pub mod secure;
pub mod session;
pub mod state;
pub mod strings;
pub mod text;
