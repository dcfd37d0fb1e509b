//! A ticketer over one key.

use crate::cipher::blob_opened;
use crate::cipher::is_ticket;
use crate::cipher::lemma_ticket_opens;
use crate::cipher::open_in_place;
use crate::cipher::seal_in_place_separate_tag;
use crate::cipher::seals;
use crate::cipher::ticket_blob;
use crate::cipher::KEY_LEN;
use crate::cipher::MAX_INPUT_LEN;
use crate::cipher::NONCE_LEN;
use crate::cipher::TAG_LEN;
use crate::producer::ProducesTickets;
use crate::rand::fill_random;
use crate::rand::GetRandomFailed;
use vstd::prelude::*;
use vstd::slice::slice_subrange;
use vstd::slice::slice_to_vec;

verus! {

/// The validity, in seconds, that a single-key ticketer reports: twelve hours.
pub const TICKET_LIFETIME: u32 = 60 * 60 * 12;

/// A ticketer bound to one key for good. It knows nothing of time: its
/// lifetime is a figure that it reports and does not enforce.
pub struct AeadTicketer {
    key: [u8; KEY_LEN],
    lifetime: u32,
}

impl AeadTicketer {
    /// The key, as the contracts see it.
    pub closed spec fn key(&self) -> Seq<u8> {
        self.key@
    }

    /// The lifetime that `lifetime` reports.
    pub closed spec fn nominal_lifetime(&self) -> u32 {
        self.lifetime
    }

    /// A ticketer over the given key, with the recommended lifetime.
    ///
    /// The key is a secret: whoever knows it can read and forge the tickets.
    pub fn with_key(key: [u8; KEY_LEN]) -> (t: AeadTicketer)
        ensures
            t.key() == key@,
            t.nominal_lifetime() == TICKET_LIFETIME,
    {
        AeadTicketer { key, lifetime: TICKET_LIFETIME }
    }

    /// A ticketer over a fresh random key, with the recommended lifetime.
    ///
    /// Fails only when the random source does.
    pub fn new() -> (r: Result<AeadTicketer, GetRandomFailed>)
        ensures
            r matches Ok(t) ==> t.key().len() == KEY_LEN && t.nominal_lifetime()
                == TICKET_LIFETIME,
    {
        let mut key = [0u8; KEY_LEN];
        match fill_random(&mut key) {
            Ok(()) => Ok(AeadTicketer::with_key(key)),
            Err(e) => Err(e),
        }
    }

    /// Seals `message` with the given nonce: the ticket is the nonce, the
    /// ciphertext and the tag, in that order.
    ///
    /// Fails exactly when the message is longer than the cipher takes. The
    /// caller answers for the nonce: one that is used twice under one key
    /// gives the secrecy of both tickets away.
    pub fn encrypt_with_nonce(&self, nonce: [u8; NONCE_LEN], message: &[u8]) -> (r: Option<Vec<u8>>)
        ensures
            r is Some <==> message@.len() <= MAX_INPUT_LEN,
            r matches Some(blob) ==> {
                &&& blob@ == ticket_blob(self.key(), nonce@, message@)
                &&& blob@.len() == NONCE_LEN + message@.len() + TAG_LEN
                &&& is_ticket(self.key(), message@, blob@)
            },
    {
        let mut ciphertext: Vec<u8> = Vec::new();
        ciphertext.extend_from_slice(nonce.as_slice());
        let mut body = slice_to_vec(message);
        match seal_in_place_separate_tag(&self.key, nonce, &mut body) {
            Ok(tag) => {
                let mut tag = tag;
                ciphertext.append(&mut body);
                ciphertext.append(&mut tag);
                proof {
                    assert(ciphertext@ =~= ticket_blob(self.key(), nonce@, message@));
                    assert(seals(self.key(), nonce@, message@));
                }
                Some(ciphertext)
            },
            Err(_) => None,
        }
    }
}

/// The key of every ticketer has `KEY_LEN` bytes.
pub proof fn lemma_key_len(ticketer: AeadTicketer)
    ensures
        ticketer.key().len() == KEY_LEN,
{
    broadcast use vstd::array::array_len_matches_n;

}

impl ProducesTickets for AeadTicketer {
    /// A ticketer that exists can be used.
    fn enabled(&self) -> (r: bool)
        ensures
            r,
    {
        true
    }

    /// The nominal validity of the tickets in seconds. Nothing here enforces
    /// it; that is the caller's to do.
    fn lifetime(&self) -> (r: u32)
        ensures
            r == self.nominal_lifetime(),
    {
        self.lifetime
    }

    /// Seals `message` under a nonce drawn from the random source.
    ///
    /// Whatever nonce was drawn, a ticket that comes back is one for
    /// `message` under this key, `NONCE_LEN + TAG_LEN` bytes longer than the
    /// message, and `decrypt` opens it to `message`. Nothing comes back when
    /// the random source fails or the message is longer than the cipher takes.
    fn encrypt(&self, message: &[u8]) -> (r: Option<Vec<u8>>)
        ensures
            r matches Some(blob) ==> {
                &&& is_ticket(self.key(), message@, blob@)
                &&& blob@.len() == NONCE_LEN + message@.len() + TAG_LEN
                &&& blob_opened(self.key(), blob@) == Some(message@)
            },
            message@.len() > MAX_INPUT_LEN ==> r is None,
    {
        let mut nonce_buf = [0u8; NONCE_LEN];
        match fill_random(&mut nonce_buf) {
            Ok(()) => {
                let r = self.encrypt_with_nonce(nonce_buf, message);
                proof {
                    if r is Some {
                        lemma_ticket_opens(self.key(), message@, r->0@);
                    }
                }
                r
            },
            Err(_) => None,
        }
    }

    /// Opens a ticket: the result is exactly what `blob_opened` gives for
    /// this key.
    ///
    /// A blob too short to hold a nonce and a tag is refused before the
    /// cipher sees it. Every refusal looks the same to the caller.
    fn decrypt(&self, ciphertext: &[u8]) -> (r: Option<Vec<u8>>)
        ensures
            match r {
                Some(message) => blob_opened(self.key(), ciphertext@) == Some(message@),
                None => blob_opened(self.key(), ciphertext@) is None,
            },
            ciphertext@.len() < NONCE_LEN + TAG_LEN ==> r is None,
            r matches Some(message) ==> message@.len() + NONCE_LEN + TAG_LEN == ciphertext@.len(),
    {
        if ciphertext.len() < NONCE_LEN + TAG_LEN {
            return None;
        }
        let nonce = slice_subrange(ciphertext, 0, NONCE_LEN);
        let mut out: Vec<u8> = Vec::new();
        out.extend_from_slice(slice_subrange(ciphertext, NONCE_LEN, ciphertext.len()));
        assert(out@ =~= ciphertext@.subrange(NONCE_LEN as int, ciphertext@.len() as int));
        let plain_len = match open_in_place(&self.key, nonce, &mut out) {
            Ok(plaintext_len) => plaintext_len,
            Err(_) => {
                return None;
            },
        };
        out.truncate(plain_len);
        Some(out)
    }
}

} // verus!
