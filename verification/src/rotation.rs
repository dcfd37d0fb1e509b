//! Rotation of the ticketing key.
//!
//! Two generations of key are live at any time: the current one, which seals
//! new tickets and is tried first on opening, and the one before it, which
//! only opens. Each rotation retires the current key to that second place and
//! drops whatever stood there, so a ticket outlives exactly one rotation.
//! Nothing rotates in the background: every call checks the deadline first.

use crate::cipher::blob_opened;
use crate::cipher::is_ticket;
use crate::cipher::lemma_ticket_opens;
use crate::cipher::KEY_LEN;
use crate::cipher::MAX_INPUT_LEN;
use crate::cipher::NONCE_LEN;
use crate::cipher::TAG_LEN;
use crate::clock::timebase;
use crate::producer::ProducesTickets;
use crate::rand::GetRandomFailed;
use crate::single_key::lemma_key_len;
use crate::single_key::AeadTicketer;
use std::sync::Mutex;
use std::sync::MutexGuard;
use vstd::prelude::*;

verus! {

/// The rotation state as the contracts see it: the two keys and the time
/// after which the next rotation is due.
pub struct Rotation {
    pub current: Seq<u8>,
    pub previous: Option<Seq<u8>>,
    pub next_switch_time: u64,
}

/// The deadline that a rotation at `now` sets: one period from `now`, held at
/// the largest time that can be written where the sum would pass it.
pub open spec fn switch_deadline(now: u64, period: u32) -> u64 {
    if now + period <= u64::MAX {
        (now + period) as u64
    } else {
        u64::MAX
    }
}

impl Rotation {
    /// Whether each key that the state holds has `KEY_LEN` bytes.
    pub open spec fn well_keyed(self) -> bool {
        &&& self.current.len() == KEY_LEN
        &&& self.previous matches Some(previous) ==> previous.len() == KEY_LEN
    }

    /// Whether a rotation is due at `now`.
    pub open spec fn due(self, now: u64) -> bool {
        now > self.next_switch_time
    }

    /// The state after a rotation at `now` that brings in the key `fresh`.
    pub open spec fn rolled(self, now: u64, period: u32, fresh: Seq<u8>) -> Rotation {
        Rotation {
            current: fresh,
            previous: Some(self.current),
            next_switch_time: switch_deadline(now, period),
        }
    }

    /// What a blob decrypts to in this state: what the current key recovers
    /// from it, else what the previous key does, if there is one.
    pub open spec fn opened(self, blob: Seq<u8>) -> Option<Seq<u8>> {
        match blob_opened(self.current, blob) {
            Some(message) => Some(message),
            None => match self.previous {
                Some(previous) => blob_opened(previous, blob),
                None => None,
            },
        }
    }
}

/// For how long tickets are accepted under a rotation period: two periods,
/// one with their key as the current one and one more with it as the previous,
/// held at the largest figure that can be written.
pub open spec fn accepted_for(period: u32) -> u32 {
    if 2 * period <= u32::MAX {
        (2 * period) as u32
    } else {
        u32::MAX
    }
}

/// `blob` is a ticket that was issued for `message` under some key of
/// `KEY_LEN` bytes.
pub open spec fn is_ticket_for(message: Seq<u8>, blob: Seq<u8>) -> bool {
    exists|key: Seq<u8>| key.len() == KEY_LEN && #[trigger] is_ticket(key, message, blob)
}

/// Some key of `KEY_LEN` bytes opens `blob` to `message`.
pub open spec fn opens_to(blob: Seq<u8>, message: Seq<u8>) -> bool {
    exists|key: Seq<u8>| key.len() == KEY_LEN && #[trigger] blob_opened(key, blob) == Some(message)
}

/// The keys and the deadline, owned as one unit: whoever holds it exclusively
/// sees a rotation either entirely or not at all.
pub struct TicketSwitcherState {
    current: AeadTicketer,
    previous: Option<AeadTicketer>,
    next_switch_time: u64,
}

impl View for TicketSwitcherState {
    type V = Rotation;

    closed spec fn view(&self) -> Rotation {
        Rotation {
            current: self.current.key(),
            previous: match self.previous {
                Some(previous) => Some(previous.key()),
                None => None,
            },
            next_switch_time: self.next_switch_time,
        }
    }
}

impl TicketSwitcherState {
    /// Every state holds keys of `KEY_LEN` bytes.
    pub proof fn lemma_well_keyed(self)
        ensures
            self@.well_keyed(),
    {
        lemma_key_len(self.current);
        if self.previous is Some {
            lemma_key_len(self.previous->0);
        }
    }

    /// The state at construction: `current` alone, with the first rotation
    /// due one period after `now`.
    pub fn new(current: AeadTicketer, now: u64, period: u32) -> (state: TicketSwitcherState)
        ensures
            state@ == (Rotation {
                current: current.key(),
                previous: None,
                next_switch_time: switch_deadline(now, period),
            }),
    {
        TicketSwitcherState {
            current,
            previous: None,
            next_switch_time: now.saturating_add(period as u64),
        }
    }
}

/// A lock around a value that threads share.
#[verifier::external_type_specification]
#[verifier::external_body]
#[verifier::reject_recursive_types(T)]
pub struct ExMutex<T: ?Sized>(Mutex<T>);

/// The exclusive hold on what a `Mutex` guards; the lock is released when it
/// is dropped.
#[verifier::external_type_specification]
#[verifier::external_body]
#[verifier::reject_recursive_types(T)]
pub struct ExMutexGuard<'a, T: ?Sized + 'a>(MutexGuard<'a, T>);

/// `Mutex::new`: a lock that guards `state`.
#[verifier::external_body]
fn new_lock(state: TicketSwitcherState) -> Mutex<TicketSwitcherState> {
    Mutex::new(state)
}

/// `Mutex::lock`, with a poisoned lock answered by `None`. What state the
/// guard holds depends on the threads that held the lock before: nothing is
/// said of it.
///
/// The calling thread must not hold this lock already. The switcher takes it
/// only for the length of one call, so that holds unless the generator calls
/// back into the switcher that it serves.
#[verifier::external_body]
fn lock<'a>(shared: &'a Mutex<TicketSwitcherState>) -> Option<
    MutexGuard<'a, TicketSwitcherState>,
> {
    shared.lock().ok()
}

/// `DerefMut::deref_mut` of the guard: the state that it guards, to read and
/// to change while the guard lives.
#[verifier::external_body]
fn guarded<'a, 'b>(guard: &'a mut MutexGuard<'b, TicketSwitcherState>) -> &'a mut TicketSwitcherState {
    &mut **guard
}

/// A ticketer that has a current key and at most one previous key. Once a
/// period it makes a new key with its generator and retires the current one.
pub struct TicketSwitcher<G: Fn() -> Result<AeadTicketer, GetRandomFailed>> {
    generator: G,
    lifetime: u32,
    state: Mutex<TicketSwitcherState>,
}

impl<G: Fn() -> Result<AeadTicketer, GetRandomFailed>> TicketSwitcher<G> {
    #[verifier::type_invariant]
    spec fn callable(&self) -> bool {
        call_requires(self.generator, ())
    }

    /// The rotation period in seconds.
    pub closed spec fn period(&self) -> u32 {
        self.lifetime
    }

    /// The generator that makes the keys.
    pub closed spec fn generator(&self) -> G {
        self.generator
    }

    /// Whether `outcome` is something that the generator may answer.
    pub open spec fn generated(&self, outcome: Result<AeadTicketer, GetRandomFailed>) -> bool {
        call_ensures(self.generator(), (), outcome)
    }

    /// A switcher whose clock starts at `now`. `lifetime` is in seconds, and
    /// is how long one key seals new tickets; tickets are accepted for no
    /// longer than twice that. The first key is made at once, and the call
    /// fails exactly when making it does.
    ///
    /// The state starts as `TicketSwitcherState::new` makes it from that key,
    /// `now` and `lifetime`; it stands behind the lock, where a contract does
    /// not reach. The generator runs under that lock and must not call back
    /// into the switcher.
    pub fn new_at(lifetime: u32, generator: G, now: u64) -> (r: Result<
        TicketSwitcher<G>,
        GetRandomFailed,
    >)
        requires
            call_requires(generator, ()),
        ensures
            match r {
                Ok(switcher) => {
                    &&& switcher.period() == lifetime
                    &&& switcher.generator() == generator
                    &&& exists|first: AeadTicketer| #[trigger] call_ensures(generator, (), Ok(first))
                },
                Err(e) => call_ensures(generator, (), Err(e)),
            },
    {
        match generator() {
            Ok(first) => {
                let ghost made = first;
                let state = TicketSwitcherState::new(first, now, lifetime);
                assert(call_ensures(generator, (), Ok(made)));
                Ok(TicketSwitcher { generator, lifetime, state: new_lock(state) })
            },
            Err(e) => Err(e),
        }
    }

    /// A switcher whose clock starts at the present time; see `new_at`.
    pub fn new(lifetime: u32, generator: G) -> (r: Result<TicketSwitcher<G>, GetRandomFailed>)
        requires
            call_requires(generator, ()),
        ensures
            match r {
                Ok(switcher) => {
                    &&& switcher.period() == lifetime
                    &&& switcher.generator() == generator
                    &&& exists|first: AeadTicketer| #[trigger] call_ensures(generator, (), Ok(first))
                },
                Err(e) => call_ensures(generator, (), Err(e)),
            },
    {
        let now = timebase();
        TicketSwitcher::new_at(lifetime, generator, now)
    }

    /// If it's time, retires the current key to `previous` (where it seals no
    /// more, but still opens) and makes a fresh current key.
    ///
    /// Before the deadline nothing happens. Past it, the generator is asked
    /// for a key: with one, the state is the old one rolled at `now`; without
    /// one, the state is left exactly as it was, deadline included, so the
    /// next call asks again.
    pub fn maybe_roll(&self, state: &mut TicketSwitcherState, now: u64) -> (r: Result<
        (),
        GetRandomFailed,
    >)
        ensures
            !old(state)@.due(now) ==> r is Ok && *final(state) == *old(state),
            old(state)@.due(now) ==> match r {
                Ok(_) => exists|fresh: AeadTicketer|
                    #![trigger self.generated(Ok(fresh))]
                    self.generated(Ok(fresh)) && final(state)@ == old(state)@.rolled(
                        now,
                        self.period(),
                        fresh.key(),
                    ),
                Err(e) => self.generated(Err(e)) && *final(state) == *old(state),
            },
    {
        proof {
            use_type_invariant(self);
        }
        if now > state.next_switch_time {
            match (self.generator)() {
                Ok(fresh) => {
                    let ghost made = fresh;
                    let mut retired = fresh;
                    std::mem::swap(&mut state.current, &mut retired);
                    state.previous = Some(retired);
                    state.next_switch_time = now.saturating_add(self.lifetime as u64);
                    assert(self.generated(Ok(made)));
                    Ok(())
                },
                Err(e) => Err(e),
            }
        } else {
            Ok(())
        }
    }

    /// Whether `after` is what the rotation check at `now` can make of
    /// `before`: the same state before the deadline; past it, either the same
    /// state, where the generator failed, or `before` rolled at `now` with a
    /// key that the generator made.
    pub open spec fn checked(
        &self,
        before: TicketSwitcherState,
        after: TicketSwitcherState,
        now: u64,
    ) -> bool {
        if before@.due(now) {
            (after == before && self.generated(Err(GetRandomFailed))) || exists|fresh: AeadTicketer|
                #![trigger self.generated(Ok(fresh))]
                self.generated(Ok(fresh)) && after@ == before@.rolled(
                    now,
                    self.period(),
                    fresh.key(),
                )
        } else {
            after == before
        }
    }

    /// Whether a rotation was due at `now` and did not happen. A rotation
    /// moves the deadline to `now` or past it, so a state that is due and
    /// unchanged has not rolled.
    pub open spec fn stalled(before: TicketSwitcherState, after: TicketSwitcherState, now: u64) -> bool {
        before@.due(now) && after == before
    }

    /// Seals `message` on a state that the caller holds exclusively: first the
    /// rotation check at `now`, then the (possibly just replaced) current key
    /// seals.
    ///
    /// A rotation that was due and failed fails the call. A ticket that comes
    /// back is one for `message` under the current key of the state as it is
    /// left, and that state opens it to `message`.
    pub fn encrypt_locked(&self, state: &mut TicketSwitcherState, now: u64, message: &[u8]) -> (r:
        Option<Vec<u8>>)
        ensures
            self.checked(*old(state), *final(state), now),
            Self::stalled(*old(state), *final(state), now) ==> r is None,
            message@.len() > MAX_INPUT_LEN ==> r is None,
            r matches Some(blob) ==> {
                &&& is_ticket(final(state)@.current, message@, blob@)
                &&& blob@.len() == NONCE_LEN + message@.len() + TAG_LEN
                &&& final(state)@.opened(blob@) == Some(message@)
            },
    {
        match self.maybe_roll(state, now) {
            Ok(()) => state.current.encrypt(message),
            Err(_) => None,
        }
    }

    /// Opens `ciphertext` on a state that the caller holds exclusively: first
    /// the rotation check at `now`, then the current key is tried, and the
    /// previous one, if there is one, only where the current one refuses.
    ///
    /// A rotation that was due and failed fails the call; otherwise the result
    /// is exactly what the state, as it is left, opens the blob to.
    pub fn decrypt_locked(&self, state: &mut TicketSwitcherState, now: u64, ciphertext: &[u8]) -> (r:
        Option<Vec<u8>>)
        ensures
            self.checked(*old(state), *final(state), now),
            match r {
                Some(message) => {
                    &&& !Self::stalled(*old(state), *final(state), now)
                    &&& final(state)@.opened(ciphertext@) == Some(message@)
                },
                None => {
                    ||| Self::stalled(*old(state), *final(state), now)
                    ||| final(state)@.opened(ciphertext@) is None
                },
            },
            ciphertext@.len() < NONCE_LEN + TAG_LEN ==> r is None,
            r matches Some(message) ==> message@.len() + NONCE_LEN + TAG_LEN == ciphertext@.len(),
    {
        match self.maybe_roll(state, now) {
            Ok(()) => {},
            Err(_) => {
                return None;
            },
        }
        // Decrypt with the current key; if that fails, try with the previous.
        match state.current.decrypt(ciphertext) {
            Some(message) => Some(message),
            None => match &state.previous {
                Some(previous) => previous.decrypt(ciphertext),
                None => None,
            },
        }
    }

    /// `encrypt` at a time that the caller names instead of the clock's:
    /// takes the lock, makes the rotation check at `now` and seals `message`
    /// under the current key. The contract is that of `encrypt`.
    pub fn encrypt_at(&self, now: u64, message: &[u8]) -> (r: Option<Vec<u8>>)
        ensures
            r matches Some(blob) ==> is_ticket_for(message@, blob@) && blob@.len() == NONCE_LEN
                + message@.len() + TAG_LEN,
            message@.len() > MAX_INPUT_LEN ==> r is None,
    {
        let mut guard = match lock(&self.state) {
            Some(guard) => guard,
            None => {
                return None;
            },
        };
        let state = guarded(&mut guard);
        let r = self.encrypt_locked(state, now, message);
        proof {
            if r is Some {
                state.lemma_well_keyed();
                assert(is_ticket(state@.current, message@, r->0@));
            }
        }
        r
    }

    /// `decrypt` at a time that the caller names instead of the clock's:
    /// takes the lock, makes the rotation check at `now` and opens
    /// `ciphertext` with the current key or else the previous one. The
    /// contract is that of `decrypt`.
    pub fn decrypt_at(&self, now: u64, ciphertext: &[u8]) -> (r: Option<Vec<u8>>)
        ensures
            r matches Some(message) ==> opens_to(ciphertext@, message@) && message@.len()
                + NONCE_LEN + TAG_LEN == ciphertext@.len(),
            ciphertext@.len() < NONCE_LEN + TAG_LEN ==> r is None,
    {
        let mut guard = match lock(&self.state) {
            Some(guard) => guard,
            None => {
                return None;
            },
        };
        let state = guarded(&mut guard);
        let r = self.decrypt_locked(state, now, ciphertext);
        proof {
            if r is Some {
                state.lemma_well_keyed();
                lemma_opened_by_a_key(state@, ciphertext@);
            }
        }
        r
    }
}

impl<G: Fn() -> Result<AeadTicketer, GetRandomFailed>> ProducesTickets for TicketSwitcher<G> {
    /// A switcher that exists can be used.
    fn enabled(&self) -> (r: bool)
        ensures
            r,
    {
        true
    }

    /// Two rotation periods: a ticket is opened while its key is the current
    /// one, and for one more period while it is the previous one.
    fn lifetime(&self) -> (r: u32)
        ensures
            r == accepted_for(self.period()),
    {
        if self.lifetime > u32::MAX / 2 {
            u32::MAX
        } else {
            self.lifetime * 2
        }
    }

    /// Takes the lock, reads the clock, makes the rotation check and seals
    /// `message` under the current key.
    ///
    /// Which key that is depends on the clock and on the other holders of the
    /// lock, so the contract says what holds of every outcome; what happens
    /// on a given state and time is the contract of `encrypt_locked`. A
    /// poisoned lock, a rotation that failed, a random source that failed and
    /// a message longer than the cipher takes all answer `None`.
    fn encrypt(&self, message: &[u8]) -> (r: Option<Vec<u8>>)
        ensures
            r matches Some(blob) ==> is_ticket_for(message@, blob@) && blob@.len() == NONCE_LEN
                + message@.len() + TAG_LEN,
            message@.len() > MAX_INPUT_LEN ==> r is None,
    {
        let mut guard = match lock(&self.state) {
            Some(guard) => guard,
            None => {
                return None;
            },
        };
        let state = guarded(&mut guard);
        let now = timebase();
        let r = self.encrypt_locked(state, now, message);
        proof {
            if r is Some {
                state.lemma_well_keyed();
                assert(is_ticket(state@.current, message@, r->0@));
            }
        }
        r
    }

    /// Takes the lock, reads the clock, makes the rotation check and opens
    /// `ciphertext` with the current key or else the previous one.
    ///
    /// Which keys those are depends on the clock and on the other holders of
    /// the lock, so the contract says what holds of every outcome; what
    /// happens on a given state and time is the contract of `decrypt_locked`.
    /// Every failure answers `None`.
    fn decrypt(&self, ciphertext: &[u8]) -> (r: Option<Vec<u8>>)
        ensures
            r matches Some(message) ==> opens_to(ciphertext@, message@) && message@.len()
                + NONCE_LEN + TAG_LEN == ciphertext@.len(),
            ciphertext@.len() < NONCE_LEN + TAG_LEN ==> r is None,
    {
        let mut guard = match lock(&self.state) {
            Some(guard) => guard,
            None => {
                return None;
            },
        };
        let state = guarded(&mut guard);
        let now = timebase();
        let r = self.decrypt_locked(state, now, ciphertext);
        proof {
            if r is Some {
                state.lemma_well_keyed();
                lemma_opened_by_a_key(state@, ciphertext@);
            }
        }
        r
    }
}

/// Whatever a state opens a blob to, one of its keys opens the blob to.
pub proof fn lemma_opened_by_a_key(state: Rotation, blob: Seq<u8>)
    requires
        state.well_keyed(),
        state.opened(blob) is Some,
    ensures
        opens_to(blob, state.opened(blob)->0),
{
    let message = state.opened(blob)->0;
    if blob_opened(state.current, blob) is Some {
        assert(blob_opened(state.current, blob) == Some(message));
    } else {
        assert(blob_opened(state.previous->0, blob) == Some(message));
    }
}

/// A state opens no blob that is too short to hold a nonce and a tag.
pub proof fn lemma_short_blob_never_opens(state: Rotation, blob: Seq<u8>)
    requires
        blob.len() < NONCE_LEN + TAG_LEN,
    ensures
        state.opened(blob) is None,
{
}

/// Tickets survive one rotation: a ticket issued before a rotation is still
/// opened to its message after it, by the previous key, and a ticket issued
/// after it is opened by the current key.
///
/// The current key is tried first, so the first part is stated of the older
/// tickets that the new key does not take for a ticket of something else.
pub proof fn lemma_rotation_fallback(
    state: Rotation,
    now: u64,
    period: u32,
    fresh: Seq<u8>,
    message_before: Seq<u8>,
    ticket_before: Seq<u8>,
    message_after: Seq<u8>,
    ticket_after: Seq<u8>,
)
    requires
        is_ticket(state.current, message_before, ticket_before),
        is_ticket(fresh, message_after, ticket_after),
        blob_opened(fresh, ticket_before) is None || blob_opened(fresh, ticket_before) == Some(
            message_before,
        ),
    ensures
        state.rolled(now, period, fresh).opened(ticket_before) == Some(message_before),
        state.rolled(now, period, fresh).opened(ticket_after) == Some(message_after),
{
    lemma_ticket_opens(state.current, message_before, ticket_before);
    lemma_ticket_opens(fresh, message_after, ticket_after);
}

/// Two rotations erase a key: after them the state holds only the two keys
/// that they brought in, so a blob that neither of those opens is opened no
/// more, whatever key it was issued under; and a ticket issued between the
/// two rotations is still opened to its message.
///
/// The current key is tried first, so the second part is stated of the
/// tickets that the newest key does not take for a ticket of something else.
pub proof fn lemma_double_rotation_erasure(
    state: Rotation,
    period: u32,
    first_time: u64,
    first_key: Seq<u8>,
    second_time: u64,
    second_key: Seq<u8>,
    older_ticket: Seq<u8>,
    message_between: Seq<u8>,
    ticket_between: Seq<u8>,
)
    requires
        blob_opened(first_key, older_ticket) is None,
        blob_opened(second_key, older_ticket) is None,
        is_ticket(first_key, message_between, ticket_between),
        blob_opened(second_key, ticket_between) is None || blob_opened(second_key, ticket_between)
            == Some(message_between),
    ensures
        state.rolled(first_time, period, first_key).rolled(second_time, period, second_key).opened(
            older_ticket,
        ) is None,
        state.rolled(first_time, period, first_key).rolled(second_time, period, second_key).opened(
            ticket_between,
        ) == Some(message_between),
{
    lemma_ticket_opens(first_key, message_between, ticket_between);
}

} // verus!
