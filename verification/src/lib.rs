//! Protection of session tickets: a resumption payload is sealed into a blob
//! that can be handed to an untrusted peer and opened again when the peer
//! presents it. The sealing key is replaced at a fixed period, lazily, and the
//! key before it is kept for one more period so that tickets survive exactly
//! one rotation.

pub mod cipher;
pub mod clock;
pub mod producer;
pub mod rand;
pub mod recommended;
pub mod rotation;
pub mod single_key;

pub use crate::clock::timebase;
pub use crate::producer::ProducesTickets;
pub use crate::rand::GetRandomFailed;
pub use crate::recommended::Ticketer;
pub use crate::rotation::TicketSwitcher;
pub use crate::rotation::TicketSwitcherState;
pub use crate::single_key::AeadTicketer;
