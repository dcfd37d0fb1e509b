//! The recommended ticketer.

use crate::cipher::KEY_LEN;
use crate::rand::GetRandomFailed;
use crate::rotation::TicketSwitcher;
use crate::single_key::AeadTicketer;
use crate::single_key::TICKET_LIFETIME;
use vstd::prelude::*;

verus! {

/// The recommended rotation period in seconds: six hours.
pub const ROTATION_PERIOD: u32 = 6 * 60 * 60;

/// A concrete, safe ticket creation mechanism.
pub struct Ticketer {}

/// Makes one single-key ticketer over a fresh random key; this is the
/// generator of the recommended ticketer. Fails only when the random source
/// does.
pub fn generate_inner() -> (r: Result<AeadTicketer, GetRandomFailed>)
    ensures
        r matches Ok(ticketer) ==> ticketer.key().len() == KEY_LEN && ticketer.nominal_lifetime()
            == TICKET_LIFETIME,
{
    AeadTicketer::new()
}

impl Ticketer {
    /// Makes the recommended ticketer: ChaCha20-Poly1305 under randomly
    /// generated keys that are replaced every six hours, so that its tickets
    /// have a twelve hour life.
    ///
    /// Fails only when the first key cannot be generated.
    pub fn new() -> (r: Result<
        TicketSwitcher<impl Fn() -> Result<AeadTicketer, GetRandomFailed>>,
        GetRandomFailed,
    >)
        ensures
            match r {
                Ok(switcher) => {
                    &&& switcher.period() == ROTATION_PERIOD
                    &&& forall|made: AeadTicketer| #[trigger]
                        switcher.generated(Ok(made)) ==> made.nominal_lifetime() == TICKET_LIFETIME
                },
                Err(e) => call_ensures(generate_inner, (), Err(e)),
            },
    {
        TicketSwitcher::new(ROTATION_PERIOD, generate_inner)
    }
}

} // verus!
