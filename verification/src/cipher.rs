//! The authenticated cipher under the tickets, and the layout of a ticket.

use ring::aead::Aad;
use ring::aead::LessSafeKey;
use ring::aead::Nonce;
use ring::aead::UnboundKey;
use ring::aead::CHACHA20_POLY1305;
use ring::error::Unspecified;
use vstd::prelude::*;

verus! {

/// Length of a key in bytes.
pub const KEY_LEN: usize = 32;

/// Length of the nonce that leads every ticket.
pub const NONCE_LEN: usize = 12;

/// Length of the authentication tag that ends every ticket.
pub const TAG_LEN: usize = 16;

/// The longest message that the cipher seals under one nonce.
pub const MAX_INPUT_LEN: u64 = 274_877_906_880;

/// The ciphertext followed by the tag that ChaCha20-Poly1305 gives for
/// `plaintext` under `key` and `nonce`, with no associated data.
pub uninterp spec fn sealed(key: Seq<u8>, nonce: Seq<u8>, plaintext: Seq<u8>) -> Seq<u8>;

/// What ChaCha20-Poly1305 recovers from `boxed` (ciphertext followed by tag)
/// under `key` and `nonce`, with no associated data; `None` where it rejects.
pub uninterp spec fn opened(key: Seq<u8>, nonce: Seq<u8>, boxed: Seq<u8>) -> Option<Seq<u8>>;

/// `LessSafeKey::seal_in_place_separate_tag` under a key made from `key` by
/// `UnboundKey::new` for `CHACHA20_POLY1305`, with `nonce` and empty
/// associated data.
///
/// Claimed of the outside crate, and not proved here: it refuses exactly the
/// inputs longer than `MAX_INPUT_LEN`; otherwise it overwrites the plaintext
/// with a ciphertext of the same length and returns a tag of `TAG_LEN` bytes,
/// both determined by key, nonce and plaintext alone; and, being an AEAD,
/// what it seals it opens again, under the same key and nonce, to the same
/// plaintext.
#[verifier::external_body]
pub(crate) fn seal_in_place_separate_tag(
    key: &[u8; KEY_LEN],
    nonce: [u8; NONCE_LEN],
    in_out: &mut Vec<u8>,
) -> (r: Result<Vec<u8>, Unspecified>)
    ensures
        r is Ok <==> old(in_out)@.len() <= MAX_INPUT_LEN,
        r matches Ok(tag) ==> {
            &&& tag@.len() == TAG_LEN
            &&& final(in_out)@.len() == old(in_out)@.len()
            &&& final(in_out)@ + tag@ == sealed(key@, nonce@, old(in_out)@)
            &&& opened(key@, nonce@, final(in_out)@ + tag@) == Some(old(in_out)@)
        },
{
    let key = LessSafeKey::new(UnboundKey::new(&CHACHA20_POLY1305, key)?);
    let nonce = Nonce::assume_unique_for_key(nonce);
    let tag = key.seal_in_place_separate_tag(nonce, Aad::empty(), in_out)?;
    Ok(tag.as_ref().to_vec())
}

/// `LessSafeKey::open_in_place` under a key made from `key` by
/// `UnboundKey::new` for `CHACHA20_POLY1305`, with the nonce that
/// `Nonce::try_assume_unique_for_key` makes of `nonce` and empty associated
/// data. The result is the length of the plaintext that it hands back.
///
/// Claimed of the outside crate, and not proved here: whether it accepts, and
/// the plaintext, are determined by key, nonce and input alone; on success the
/// plaintext stands at the front of the buffer and is `TAG_LEN` bytes shorter
/// than the input; the buffer keeps its length either way.
#[verifier::external_body]
pub(crate) fn open_in_place(key: &[u8; KEY_LEN], nonce: &[u8], in_out: &mut Vec<u8>) -> (r: Result<
    usize,
    Unspecified,
>)
    requires
        nonce@.len() == NONCE_LEN,
    ensures
        final(in_out)@.len() == old(in_out)@.len(),
        match r {
            Ok(n) => n + TAG_LEN == old(in_out)@.len() && opened(key@, nonce@, old(in_out)@)
                == Some(final(in_out)@.subrange(0, n as int)),
            Err(_) => opened(key@, nonce@, old(in_out)@) is None,
        },
{
    let key = LessSafeKey::new(UnboundKey::new(&CHACHA20_POLY1305, key)?);
    let nonce = Nonce::try_assume_unique_for_key(nonce)?;
    let plaintext = key.open_in_place(nonce, Aad::empty(), in_out)?;
    Ok(plaintext.len())
}

/// The ticket for `message` under `key` and `nonce`: the nonce, then the
/// ciphertext, then the tag.
pub open spec fn ticket_blob(key: Seq<u8>, nonce: Seq<u8>, message: Seq<u8>) -> Seq<u8> {
    nonce + sealed(key, nonce, message)
}

/// What a blob decrypts to under `key`: nothing if it is too short to hold a
/// nonce and a tag, else what the cipher recovers from the rest under the
/// leading nonce.
pub open spec fn blob_opened(key: Seq<u8>, blob: Seq<u8>) -> Option<Seq<u8>> {
    if blob.len() < NONCE_LEN + TAG_LEN {
        None
    } else {
        opened(
            key,
            blob.subrange(0, NONCE_LEN as int),
            blob.subrange(NONCE_LEN as int, blob.len() as int),
        )
    }
}

/// What the cipher establishes of every plaintext that it seals: the box is
/// `TAG_LEN` bytes longer than the plaintext, and opens to it again.
pub open spec fn seals(key: Seq<u8>, nonce: Seq<u8>, message: Seq<u8>) -> bool {
    &&& sealed(key, nonce, message).len() == message.len() + TAG_LEN
    &&& opened(key, nonce, sealed(key, nonce, message)) == Some(message)
}

/// `blob` is a ticket that was issued for `message` under `key`, with some
/// nonce of the right length.
pub open spec fn is_ticket(key: Seq<u8>, message: Seq<u8>, blob: Seq<u8>) -> bool {
    exists|nonce: Seq<u8>|
        #![trigger ticket_blob(key, nonce, message)]
        nonce.len() == NONCE_LEN && seals(key, nonce, message) && blob == ticket_blob(
            key,
            nonce,
            message,
        )
}

/// Every ticket opens, under the key that it was issued with, to the message
/// that it was issued for, and is `NONCE_LEN + TAG_LEN` bytes longer than it.
pub proof fn lemma_ticket_opens(key: Seq<u8>, message: Seq<u8>, blob: Seq<u8>)
    requires
        is_ticket(key, message, blob),
    ensures
        blob_opened(key, blob) == Some(message),
        blob.len() == NONCE_LEN + message.len() + TAG_LEN,
{
    let nonce = choose|nonce: Seq<u8>|
        #![trigger ticket_blob(key, nonce, message)]
        nonce.len() == NONCE_LEN && seals(key, nonce, message) && blob == ticket_blob(
            key,
            nonce,
            message,
        );
    let boxed = sealed(key, nonce, message);
    assert(blob.subrange(0, NONCE_LEN as int) =~= nonce);
    assert(blob.subrange(NONCE_LEN as int, blob.len() as int) =~= boxed);
}

/// No key opens a blob that is too short to hold a nonce and a tag.
pub proof fn lemma_short_blob_rejected(key: Seq<u8>, blob: Seq<u8>)
    requires
        blob.len() < NONCE_LEN + TAG_LEN,
    ensures
        blob_opened(key, blob) is None,
{
}

} // verus!
