//! The capability that the resumption protocol holds.

use vstd::prelude::*;

verus! {

/// Something that turns a resumption payload into a ticket and back.
///
/// Both directions answer `None` on any failure, without saying which: a
/// caller cannot tell a forged ticket from one whose key is gone.
pub trait ProducesTickets {
    /// Whether this instance should be used at all.
    fn enabled(&self) -> bool;

    /// For how many seconds a caller should accept the tickets issued here.
    fn lifetime(&self) -> u32;

    /// Seals `plain` into a ticket.
    fn encrypt(&self, plain: &[u8]) -> Option<Vec<u8>>;

    /// Opens the ticket `cipher`.
    fn decrypt(&self, cipher: &[u8]) -> Option<Vec<u8>>;
}

} // verus!
