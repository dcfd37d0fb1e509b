use std::sync::atomic::AtomicUsize;
use std::sync::atomic::Ordering;
use std::sync::Arc;
use ticketer::AeadTicketer;
use ticketer::GetRandomFailed;
use ticketer::ProducesTickets;
use ticketer::TicketSwitcher;
use ticketer::TicketSwitcherState;

fn fresh() -> Result<AeadTicketer, GetRandomFailed> {
    AeadTicketer::new()
}

#[test]
fn switcher_round_trip_and_lifetime() {
    let t = TicketSwitcher::new(6 * 60 * 60, fresh).unwrap();
    assert!(t.enabled());
    assert_eq!(t.lifetime(), 12 * 60 * 60);
    let blob = t.encrypt(b"hello world").unwrap();
    assert_eq!(blob.len(), 39);
    assert_eq!(t.decrypt(&blob), Some(b"hello world".to_vec()));
}

#[test]
fn lifetime_is_twice_the_period() {
    assert_eq!(TicketSwitcher::new_at(0, fresh, 0).unwrap().lifetime(), 0);
    assert_eq!(TicketSwitcher::new_at(5, fresh, 0).unwrap().lifetime(), 10);
    assert_eq!(TicketSwitcher::new_at(0x7fff_ffff, fresh, 0).unwrap().lifetime(), 0xffff_fffe);
    assert_eq!(TicketSwitcher::new_at(0x8000_0000, fresh, 0).unwrap().lifetime(), u32::MAX);
    assert_eq!(TicketSwitcher::new_at(u32::MAX, fresh, 0).unwrap().lifetime(), u32::MAX);
}

#[test]
fn construction_fails_with_the_generator() {
    assert!(TicketSwitcher::new(10, || Err(GetRandomFailed)).is_err());
    assert!(TicketSwitcher::new_at(10, || Err(GetRandomFailed), 1000).is_err());
}

#[test]
fn rotation_fallback() {
    let t = TicketSwitcher::new_at(10, fresh, 1000).unwrap();
    let first = t.encrypt_at(1000, b"before the rotation").unwrap();
    assert_eq!(t.decrypt_at(1005, &first), Some(b"before the rotation".to_vec()));
    let second = t.encrypt_at(1011, b"after the rotation").unwrap();
    assert_eq!(t.decrypt_at(1011, &first), Some(b"before the rotation".to_vec()));
    assert_eq!(t.decrypt_at(1011, &second), Some(b"after the rotation".to_vec()));
}

#[test]
fn rotation_fallback_with_a_period_of_zero() {
    let t = TicketSwitcher::new_at(0, fresh, 50).unwrap();
    let first = t.encrypt_at(50, b"M1").unwrap();
    let second = t.encrypt_at(51, b"M2").unwrap();
    assert_eq!(t.decrypt_at(51, &first), Some(b"M1".to_vec()));
    assert_eq!(t.decrypt_at(51, &second), Some(b"M2".to_vec()));
}

#[test]
fn double_rotation_erasure() {
    let t = TicketSwitcher::new_at(10, fresh, 1000).unwrap();
    let oldest = t.encrypt_at(1000, b"before the first rotation").unwrap();
    let between = t.encrypt_at(1011, b"between the rotations").unwrap();
    assert_eq!(t.decrypt_at(1011, &oldest), Some(b"before the first rotation".to_vec()));
    let newest = t.encrypt_at(1022, b"after the second rotation").unwrap();
    assert_eq!(t.decrypt_at(1022, &oldest), None);
    assert_eq!(t.decrypt_at(1022, &between), Some(b"between the rotations".to_vec()));
    assert_eq!(t.decrypt_at(1022, &newest), Some(b"after the second rotation".to_vec()));
}

#[test]
fn decrypt_alone_drives_the_rotation() {
    let t = TicketSwitcher::new_at(10, fresh, 1000).unwrap();
    let oldest = t.encrypt_at(1000, b"payload").unwrap();
    assert_eq!(t.decrypt_at(1011, &oldest), Some(b"payload".to_vec()));
    assert_eq!(t.decrypt_at(1022, &oldest), None);
}

#[test]
fn the_deadline_is_measured_from_the_rotation() {
    let calls = Arc::new(AtomicUsize::new(0));
    let seen = calls.clone();
    let t = TicketSwitcher::new_at(
        10,
        move || {
            seen.fetch_add(1, Ordering::SeqCst);
            AeadTicketer::new()
        },
        1000,
    )
    .unwrap();
    assert_eq!(calls.load(Ordering::SeqCst), 1);
    // Not due at the deadline itself, only after it.
    assert!(t.encrypt_at(1010, b"x").is_some());
    assert_eq!(calls.load(Ordering::SeqCst), 1);
    // A late call rotates, and the next deadline is 2000 + 10, not 1010 + 10.
    assert!(t.encrypt_at(2000, b"x").is_some());
    assert_eq!(calls.load(Ordering::SeqCst), 2);
    assert!(t.encrypt_at(2010, b"x").is_some());
    assert_eq!(calls.load(Ordering::SeqCst), 2);
    assert!(t.encrypt_at(2011, b"x").is_some());
    assert_eq!(calls.load(Ordering::SeqCst), 3);
    // A clock that jumps back only delays the next rotation.
    assert!(t.encrypt_at(5, b"x").is_some());
    assert_eq!(calls.load(Ordering::SeqCst), 3);
}

#[test]
fn a_failing_generator_fails_the_call_and_leaves_the_state() {
    let calls = Arc::new(AtomicUsize::new(0));
    let seen = calls.clone();
    let t = TicketSwitcher::new_at(
        10,
        move || {
            let n = seen.fetch_add(1, Ordering::SeqCst);
            if n == 1 || n == 2 || n == 3 {
                Err(GetRandomFailed)
            } else {
                AeadTicketer::new()
            }
        },
        1000,
    )
    .unwrap();
    let first = t.encrypt_at(1000, b"kept").unwrap();
    // Due, and the generator fails: both directions fail, each call asks again.
    assert_eq!(t.encrypt_at(1011, b"lost"), None);
    assert_eq!(calls.load(Ordering::SeqCst), 2);
    assert_eq!(t.decrypt_at(1011, &first), None);
    assert_eq!(calls.load(Ordering::SeqCst), 3);
    // The state is as it was: before the old deadline nothing is due and the
    // old key still seals and opens.
    assert_eq!(t.decrypt_at(1010, &first), Some(b"kept".to_vec()));
    let again = t.encrypt_at(1010, b"still the first key").unwrap();
    assert_eq!(calls.load(Ordering::SeqCst), 3);
    assert_eq!(t.encrypt_at(1011, b"lost"), None);
    assert_eq!(calls.load(Ordering::SeqCst), 4);
    // The generator recovers: one rotation, and the old key is the previous.
    let second = t.encrypt_at(1011, b"second key").unwrap();
    assert_eq!(calls.load(Ordering::SeqCst), 5);
    assert_eq!(t.decrypt_at(1011, &first), Some(b"kept".to_vec()));
    assert_eq!(t.decrypt_at(1011, &again), Some(b"still the first key".to_vec()));
    assert_eq!(t.decrypt_at(1011, &second), Some(b"second key".to_vec()));
}

#[test]
fn the_deadline_stops_at_the_largest_time() {
    let calls = Arc::new(AtomicUsize::new(0));
    let seen = calls.clone();
    let t = TicketSwitcher::new_at(
        10,
        move || {
            seen.fetch_add(1, Ordering::SeqCst);
            AeadTicketer::new()
        },
        u64::MAX - 3,
    )
    .unwrap();
    let blob = t.encrypt_at(u64::MAX, b"x").unwrap();
    assert_eq!(calls.load(Ordering::SeqCst), 1);
    assert_eq!(t.decrypt_at(u64::MAX, &blob), Some(b"x".to_vec()));
}

#[test]
fn switcher_rejects_short_and_tampered_blobs() {
    let t = TicketSwitcher::new_at(10, fresh, 1000).unwrap();
    for len in 0..28usize {
        assert_eq!(t.decrypt_at(1000, &vec![0u8; len]), None);
        assert_eq!(t.decrypt(&vec![0u8; len]), None);
    }
    let blob = t.encrypt_at(1000, b"hello world").unwrap();
    // Also after a rotation, when the previous key is the one that is asked.
    assert!(t.encrypt_at(1011, b"rotate").is_some());
    for index in 0..blob.len() {
        let mut tampered = blob.clone();
        tampered[index] ^= 0x01;
        assert_eq!(t.decrypt_at(1011, &tampered), None);
    }
    assert_eq!(t.decrypt_at(1011, &blob), Some(b"hello world".to_vec()));
}

#[test]
fn switchers_do_not_share_keys() {
    let a = TicketSwitcher::new_at(10, fresh, 1000).unwrap();
    let b = TicketSwitcher::new_at(10, fresh, 1000).unwrap();
    let blob = a.encrypt_at(1000, b"hello world").unwrap();
    assert_eq!(b.decrypt_at(1000, &blob), None);
}

#[test]
fn the_current_key_is_tried_before_the_previous() {
    // With a generator that hands out one key twice, both generations open
    // the ticket; it is the current one that answers.
    let t = TicketSwitcher::new_at(10, || Ok(AeadTicketer::with_key([3u8; 32])), 1000).unwrap();
    let blob = t.encrypt_at(1000, b"same key").unwrap();
    assert!(t.encrypt_at(1011, b"rotate").is_some());
    assert!(t.encrypt_at(1022, b"rotate").is_some());
    assert_eq!(t.decrypt_at(1022, &blob), Some(b"same key".to_vec()));
    let direct = AeadTicketer::with_key([3u8; 32]);
    assert_eq!(direct.decrypt(&blob), Some(b"same key".to_vec()));
}

#[test]
fn the_state_can_be_driven_without_the_lock() {
    let t = TicketSwitcher::new_at(10, fresh, 0).unwrap();
    let mut state = TicketSwitcherState::new(AeadTicketer::with_key([1u8; 32]), 1000, 10);
    let first = t.encrypt_locked(&mut state, 1000, b"one").unwrap();
    assert_eq!(
        AeadTicketer::with_key([1u8; 32]).decrypt(&first),
        Some(b"one".to_vec())
    );
    assert!(t.maybe_roll(&mut state, 1010).is_ok());
    assert_eq!(
        AeadTicketer::with_key([1u8; 32]).decrypt(&t.encrypt_locked(&mut state, 1010, b"two").unwrap()),
        Some(b"two".to_vec())
    );
    assert!(t.maybe_roll(&mut state, 1011).is_ok());
    let third = t.encrypt_locked(&mut state, 1011, b"three").unwrap();
    assert_eq!(AeadTicketer::with_key([1u8; 32]).decrypt(&third), None);
    assert_eq!(t.decrypt_locked(&mut state, 1011, &first), Some(b"one".to_vec()));
    assert_eq!(t.decrypt_locked(&mut state, 1011, &third), Some(b"three".to_vec()));
    assert_eq!(t.decrypt_locked(&mut state, 1022, &first), None);
    assert_eq!(t.decrypt_locked(&mut state, 1022, &third), Some(b"three".to_vec()));
}

#[test]
fn a_failed_rotation_on_a_held_state() {
    let failing = TicketSwitcher::new_at(
        10,
        {
            let calls = AtomicUsize::new(0);
            move || {
                if calls.fetch_add(1, Ordering::SeqCst) == 0 {
                    AeadTicketer::new()
                } else {
                    Err(GetRandomFailed)
                }
            }
        },
        0,
    )
    .unwrap();
    let mut state = TicketSwitcherState::new(AeadTicketer::with_key([1u8; 32]), 1000, 10);
    let blob = failing.encrypt_locked(&mut state, 1000, b"one").unwrap();
    assert!(failing.maybe_roll(&mut state, 1011).is_err());
    assert_eq!(failing.encrypt_locked(&mut state, 1011, b"two"), None);
    assert_eq!(failing.decrypt_locked(&mut state, 1011, &blob), None);
    assert!(failing.maybe_roll(&mut state, 1010).is_ok());
    assert_eq!(failing.decrypt_locked(&mut state, 1010, &blob), Some(b"one".to_vec()));
}
