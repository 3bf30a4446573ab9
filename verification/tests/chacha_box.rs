use chacha20poly1305::aead::{Aead, NewAead, Payload};
use chacha20poly1305::XChaCha20Poly1305;
use crypto_box::{BoxError, ChaChaBox, PublicKey, SalsaBox, SecretKey};

const A_SECRET: [u8; 32] = [
    0x77, 0x07, 0x6d, 0x0a, 0x73, 0x18, 0xa5, 0x7d, 0x3c, 0x16, 0xc1, 0x72, 0x51, 0xb2, 0x66, 0x45,
    0xdf, 0x4c, 0x2f, 0x87, 0xeb, 0xc0, 0x99, 0x2a, 0xb1, 0x77, 0xfb, 0xa5, 0x1d, 0xb9, 0x2c, 0x2a,
];

const B_SECRET: [u8; 32] = [
    0x5d, 0xab, 0x08, 0x7e, 0x62, 0x4a, 0x8a, 0x4b, 0x79, 0xe1, 0x7f, 0x8b, 0x83, 0x80, 0x0e, 0xe6,
    0x6f, 0x3b, 0xb1, 0x29, 0x26, 0x18, 0xb6, 0xfd, 0x1c, 0x2f, 0x8b, 0x27, 0xff, 0x88, 0xe0, 0xeb,
];

const FIXED_NONCE: [u8; 24] = [
    0x40, 0x41, 0x42, 0x43, 0x44, 0x45, 0x46, 0x47, 0x48, 0x49, 0x4a, 0x4b, 0x4c, 0x4d, 0x4e, 0x4f,
    0x50, 0x51, 0x52, 0x53, 0x54, 0x55, 0x56, 0x57,
];

fn a_box() -> ChaChaBox {
    ChaChaBox::new(&SecretKey::from(B_SECRET).public_key(), &SecretKey::from(A_SECRET))
}

fn b_box() -> ChaChaBox {
    ChaChaBox::new(&SecretKey::from(A_SECRET).public_key(), &SecretKey::from(B_SECRET))
}

/// The cipher put together by hand: X25519, HChaCha20 on sixteen
/// zero bytes, XChaCha20-Poly1305.
fn chacha_by_hand(secret: [u8; 32], public: [u8; 32]) -> XChaCha20Poly1305 {
    let shared = x25519_dalek::x25519(secret, public);
    let key = chacha20::hchacha::<chacha20::R20>((&shared).into(), (&[0u8; 16]).into());
    XChaCha20Poly1305::new(&key)
}

#[test]
fn chacha_box_is_the_composition_of_its_parts() {
    let public = SecretKey::from(B_SECRET).public_key();
    let message = b"Top secret message we're encrypting";
    let associated = b"customized associated data here";
    let expected = chacha_by_hand(A_SECRET, *public.as_bytes())
        .encrypt((&FIXED_NONCE).into(), Payload { msg: &message[..], aad: &associated[..] })
        .unwrap();
    let boxed = a_box().encrypt(&FIXED_NONCE, message, associated).unwrap();
    assert_eq!(boxed, expected);
    assert_eq!(boxed.len(), message.len() + 16);
}

#[test]
fn chacha_expands_the_shared_secret() {
    let public = SecretKey::from(B_SECRET).public_key();
    let shared = x25519_dalek::x25519(A_SECRET, *public.as_bytes());
    let unexpanded = XChaCha20Poly1305::new((&shared).into());
    let boxed = a_box().encrypt(&FIXED_NONCE, b"hello", b"").unwrap();
    assert_ne!(boxed, unexpanded.encrypt((&FIXED_NONCE).into(), &b"hello"[..]).unwrap());
    assert!(unexpanded.decrypt((&FIXED_NONCE).into(), &boxed[..]).is_err());
}

#[test]
fn chacha_and_salsa_differ() {
    let public = SecretKey::from(B_SECRET).public_key();
    let salsa = SalsaBox::new(&public, &SecretKey::from(A_SECRET));
    let boxed = a_box().encrypt(&FIXED_NONCE, b"one message", b"").unwrap();
    assert_ne!(salsa.encrypt(&FIXED_NONCE, b"one message", b""), Ok(boxed.clone()));
    assert_eq!(salsa.decrypt(&FIXED_NONCE, &boxed, b""), Err(BoxError));
}

#[test]
fn chacha_round_trip_with_associated_data() {
    let boxed = a_box().encrypt(&FIXED_NONCE, b"hello", b"meta").unwrap();
    assert_eq!(boxed.len(), 5 + 16);
    assert_eq!(b_box().decrypt(&FIXED_NONCE, &boxed, b"meta"), Ok(b"hello".to_vec()));
}

#[test]
fn chacha_other_associated_data_does_not_open() {
    let boxed = a_box().encrypt(&FIXED_NONCE, b"hello", b"meta").unwrap();
    assert_eq!(b_box().decrypt(&FIXED_NONCE, &boxed, b"meta!"), Err(BoxError));
    assert_eq!(b_box().decrypt(&FIXED_NONCE, &boxed, b""), Err(BoxError));
    assert_eq!(b_box().decrypt(&FIXED_NONCE, &boxed, b"met"), Err(BoxError));
    assert_eq!(a_box().decrypt(&FIXED_NONCE, &boxed, b"meta!"), Err(BoxError));
}

#[test]
fn chacha_round_trip_of_an_empty_message() {
    let boxed = a_box().encrypt(&FIXED_NONCE, b"", b"").unwrap();
    assert_eq!(boxed.len(), 16);
    assert_eq!(b_box().decrypt(&FIXED_NONCE, &boxed, b""), Ok(Vec::new()));
    let bound = a_box().encrypt(&FIXED_NONCE, b"", b"only associated data").unwrap();
    assert_ne!(bound, boxed);
    assert_eq!(b_box().decrypt(&FIXED_NONCE, &bound, b"only associated data"), Ok(Vec::new()));
}

#[test]
fn chacha_round_trip_of_many_lengths() {
    let sender = a_box();
    let receiver = b_box();
    for len in [1usize, 15, 16, 17, 63, 64, 65, 127, 128, 129, 255, 256, 257, 1000] {
        let message: Vec<u8> = (0..len).map(|i| (i * 5 + len) as u8).collect();
        let associated: Vec<u8> = (0..len % 19).map(|i| i as u8).collect();
        let mut nonce = FIXED_NONCE;
        nonce[23] = len as u8;
        let boxed = sender.encrypt(&nonce, &message, &associated).unwrap();
        assert_eq!(boxed.len(), len + 16);
        assert_eq!(receiver.decrypt(&nonce, &boxed, &associated), Ok(message));
    }
}

#[test]
fn chacha_in_place_puts_the_tag_behind_the_ciphertext() {
    let cipher = a_box();
    let message = b"a message of some length, longer than one block of the cipher's keystream";
    let boxed = cipher.encrypt(&FIXED_NONCE, message, b"ad").unwrap();

    let mut buffer = message.to_vec();
    assert_eq!(cipher.encrypt_in_place(&FIXED_NONCE, b"ad", &mut buffer), Ok(()));
    assert_eq!(buffer, boxed);

    let mut detached = message.to_vec();
    let tag = cipher.encrypt_in_place_detached(&FIXED_NONCE, b"ad", &mut detached).unwrap();
    assert_eq!(&detached[..], &boxed[..message.len()]);
    assert_eq!(&tag[..], &boxed[message.len()..]);
    assert_ne!(&detached[..], &message[..]);

    assert_eq!(b_box().decrypt_in_place(&FIXED_NONCE, b"ad", &mut buffer), Ok(()));
    assert_eq!(buffer, message.to_vec());
    assert_eq!(b_box().decrypt_in_place_detached(&FIXED_NONCE, b"ad", &mut detached, &tag), Ok(()));
    assert_eq!(detached, message.to_vec());
}

#[test]
fn chacha_ciphertext_is_the_plaintext_under_a_keystream() {
    let cipher = a_box();
    let mut first = [0u8; 150];
    let mut second = [0u8; 150];
    for i in 0..150 {
        second[i] = (11 * i + 3) as u8;
    }
    let plain = second;
    let first_tag = cipher.encrypt_in_place_detached(&FIXED_NONCE, b"x", &mut first).unwrap();
    let second_tag = cipher.encrypt_in_place_detached(&FIXED_NONCE, b"y", &mut second).unwrap();
    for i in 0..150 {
        assert_eq!(first[i] ^ second[i], plain[i]);
    }
    assert_ne!(first, [0u8; 150]);
    assert_ne!(first_tag, second_tag);
}

#[test]
fn chacha_tag_depends_on_the_associated_data_only() {
    // The ciphertext does not: associated data is authenticated, not mixed in.
    let cipher = a_box();
    let mut with = *b"the same plaintext";
    let mut without = *b"the same plaintext";
    let tag_with = cipher.encrypt_in_place_detached(&FIXED_NONCE, b"meta", &mut with).unwrap();
    let tag_without = cipher.encrypt_in_place_detached(&FIXED_NONCE, b"", &mut without).unwrap();
    assert_eq!(with, without);
    assert_ne!(tag_with, tag_without);
}

#[test]
fn chacha_refuses_what_is_shorter_than_a_tag() {
    let cipher = b_box();
    assert_eq!(cipher.decrypt(&FIXED_NONCE, b"", b""), Err(BoxError));
    assert_eq!(cipher.decrypt(&FIXED_NONCE, &[0u8; 15], b""), Err(BoxError));
    let mut buffer = vec![1u8; 15];
    assert_eq!(cipher.decrypt_in_place(&FIXED_NONCE, b"", &mut buffer), Err(BoxError));
    assert_eq!(buffer, vec![1u8; 15]);
}

#[test]
fn chacha_detects_every_flipped_bit_of_the_boxed_message() {
    let boxed = a_box().encrypt(&FIXED_NONCE, b"any single bit", b"meta").unwrap();
    let cipher = b_box();
    for position in 0..boxed.len() {
        for bit in 0..8 {
            let mut changed = boxed.clone();
            changed[position] ^= 1 << bit;
            assert_eq!(cipher.decrypt(&FIXED_NONCE, &changed, b"meta"), Err(BoxError));
            let before = changed.clone();
            assert_eq!(cipher.decrypt_in_place(&FIXED_NONCE, b"meta", &mut changed), Err(BoxError));
            assert_eq!(changed, before);
        }
    }
}

#[test]
fn chacha_detects_every_flipped_bit_of_the_nonce() {
    let boxed = a_box().encrypt(&FIXED_NONCE, b"any single bit", b"meta").unwrap();
    let cipher = b_box();
    for position in 0..FIXED_NONCE.len() {
        for bit in 0..8 {
            let mut changed = FIXED_NONCE;
            changed[position] ^= 1 << bit;
            assert_eq!(cipher.decrypt(&changed, &boxed, b"meta"), Err(BoxError));
        }
    }
}

#[test]
fn chacha_detects_every_flipped_bit_of_the_associated_data() {
    let associated = *b"meta";
    let boxed = a_box().encrypt(&FIXED_NONCE, b"any single bit", &associated).unwrap();
    let cipher = b_box();
    for position in 0..associated.len() {
        for bit in 0..8 {
            let mut changed = associated;
            changed[position] ^= 1 << bit;
            assert_eq!(cipher.decrypt(&FIXED_NONCE, &boxed, &changed), Err(BoxError));
        }
    }
}

#[test]
fn chacha_detects_a_changed_detached_tag() {
    let mut buffer = *b"detached";
    let tag = a_box().encrypt_in_place_detached(&FIXED_NONCE, b"", &mut buffer).unwrap();
    let sealed = buffer;
    for position in 0..16 {
        let mut changed = tag;
        changed[position] ^= 1;
        assert_eq!(
            b_box().decrypt_in_place_detached(&FIXED_NONCE, b"", &mut buffer, &changed),
            Err(BoxError)
        );
        assert_eq!(buffer, sealed);
    }
    assert_eq!(b_box().decrypt_in_place_detached(&FIXED_NONCE, b"", &mut buffer, &tag), Ok(()));
    assert_eq!(&buffer, b"detached");
}

#[test]
fn chacha_boxes_of_the_same_keys_are_interchangeable() {
    let first = a_box();
    let second = a_box();
    let boxed = first.encrypt(&FIXED_NONCE, b"twice the same", b"ad").unwrap();
    assert_eq!(second.encrypt(&FIXED_NONCE, b"twice the same", b"ad"), Ok(boxed.clone()));
    assert_eq!(second.decrypt(&FIXED_NONCE, &boxed, b"ad"), Ok(b"twice the same".to_vec()));
    assert_eq!(first.clone().decrypt(&FIXED_NONCE, &boxed, b"ad"), Ok(b"twice the same".to_vec()));
}

#[test]
fn chacha_peers_open_each_others_messages() {
    let a = SecretKey::from([0xa1u8; 32]);
    let b = SecretKey::from([0xb2u8; 32]);
    let a_cipher = ChaChaBox::new(&b.public_key(), &a);
    let b_cipher = ChaChaBox::new(&a.public_key(), &b);
    let to_b = a_cipher.encrypt(&FIXED_NONCE, b"from a to b", b"1").unwrap();
    let to_a = b_cipher.encrypt(&FIXED_NONCE, b"from b to a", b"2").unwrap();
    assert_eq!(b_cipher.decrypt(&FIXED_NONCE, &to_b, b"1"), Ok(b"from a to b".to_vec()));
    assert_eq!(a_cipher.decrypt(&FIXED_NONCE, &to_a, b"2"), Ok(b"from b to a".to_vec()));
}

#[test]
fn chacha_does_not_open_with_a_strangers_key() {
    let boxed = a_box().encrypt(&FIXED_NONCE, b"for b alone", b"").unwrap();
    let stranger = ChaChaBox::new(&PublicKey::from([5u8; 32]), &SecretKey::from([3u8; 32]));
    assert_eq!(stranger.decrypt(&FIXED_NONCE, &boxed, b""), Err(BoxError));
}

#[test]
fn chacha_fixed_message_gives_a_fixed_box() {
    let secret = SecretKey::from([0x1fu8; 32]);
    let peer = PublicKey::from([
        0xe8, 0x98, 0x0c, 0x86, 0xe0, 0x32, 0xf1, 0xeb, 0x29, 0x75, 0x05, 0x2e, 0x8d, 0x65, 0xbd,
        0xdd, 0x15, 0xc3, 0xb5, 0x96, 0x41, 0x17, 0x4e, 0xc9, 0x67, 0x8a, 0x53, 0x78, 0x9d, 0x92,
        0xc7, 0x54,
    ]);
    let nonce = [
        0x69, 0x69, 0x6e, 0xe9, 0x55, 0xb6, 0x2b, 0x73, 0xcd, 0x62, 0xbd, 0xa8, 0x75, 0xfc, 0x73,
        0xd6, 0x82, 0x19, 0xe0, 0x03, 0x6b, 0x7a, 0x0b, 0x37,
    ];
    let boxed = ChaChaBox::new(&peer, &secret)
        .encrypt(&nonce, b"Top secret message we're encrypting", b"")
        .unwrap();
    let expected: [u8; 51] = [
        0x0e, 0x55, 0xb4, 0xef, 0x16, 0xc1, 0x92, 0x60, 0x39, 0xe5, 0x13, 0xa6, 0xa5, 0x58, 0x4c,
        0xab, 0x95, 0x4b, 0xd9, 0xa0, 0x22, 0x87, 0x87, 0x88, 0xd1, 0x4e, 0x56, 0xe9, 0x9d, 0x48,
        0xcd, 0xa9, 0xba, 0x6c, 0x13, 0xba, 0x38, 0x6a, 0x88, 0xb8, 0xb6, 0xec, 0x70, 0x53, 0x7f,
        0x31, 0x1c, 0xe4, 0x8f, 0xb2, 0x8f,
    ];
    assert_eq!(boxed, expected.to_vec());
}

#[test]
fn chacha_boxed_message_is_ciphertext_then_tag() {
    let cipher = a_box();
    let message = b"hello";
    let mut buffer = *message;
    let tag = cipher.encrypt_in_place_detached(&FIXED_NONCE, b"meta", &mut buffer).unwrap();
    let boxed = cipher.encrypt(&FIXED_NONCE, message, b"meta").unwrap();
    assert_eq!(boxed.len(), message.len() + 16);
    assert_eq!(&boxed[..message.len()], &buffer[..]);
    assert_eq!(&boxed[message.len()..], &tag[..]);
}

#[test]
fn chacha_failed_opening_in_place_leaves_the_buffer() {
    let boxed = a_box().encrypt(&FIXED_NONCE, b"hello", b"meta").unwrap();
    let mut buffer = boxed.clone();
    assert_eq!(b_box().decrypt_in_place(&FIXED_NONCE, b"meta!", &mut buffer), Err(BoxError));
    assert_eq!(buffer, boxed);
    assert_eq!(b_box().decrypt_in_place(&FIXED_NONCE, b"meta", &mut buffer), Ok(()));
    assert_eq!(buffer, b"hello".to_vec());
}
