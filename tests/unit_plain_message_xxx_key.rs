use serde_encrypt::combined_key::{ReceiverCombinedKey, SenderCombinedKey};
use serde_encrypt::encrypt::{
    PlainMessagePublicKey, PlainMessageSharedKey, PlainMessageSharedKeyDeterministic,
};
use serde_encrypt::error::{Error, ErrorKind};
use serde_encrypt::key_pair::{ReceiverKeyPair, SenderKeyPair};
use serde_encrypt::msg::EncryptedMessage;
use serde_encrypt::random::RngSingletonImpl;
use serde_encrypt::shared_key::SharedKey;

fn gen_key_pairs(rng: &mut RngSingletonImpl) -> (SenderKeyPair, ReceiverKeyPair) {
    (SenderKeyPair::generate(rng), ReceiverKeyPair::generate(rng))
}

#[test]
fn test_decrypt_with_wrong_key() -> Result<(), Error> {
    let mut rng = RngSingletonImpl::new(0);
    let (s1, r1) = gen_key_pairs(&mut rng);
    let (s2, r2) = gen_key_pairs(&mut rng);
    let sender_combined_key1 = SenderCombinedKey::new(s1.private_key(), r1.public_key());
    let receiver_combined_key2 = ReceiverCombinedKey::new(s2.public_key(), r2.private_key());

    let plain_msg = PlainMessagePublicKey::new(b"abc".to_vec());
    let enc_msg = plain_msg.encrypt(&sender_combined_key1, &mut rng)?;
    let e = PlainMessagePublicKey::decrypt(&enc_msg, &receiver_combined_key2).unwrap_err();
    assert_eq!(e.kind(), &ErrorKind::DecryptionError);

    Ok(())
}

#[test]
fn test_decrypt_with_wrong_public_key() -> Result<(), Error> {
    let mut rng = RngSingletonImpl::new(0);
    let (s1, r1) = gen_key_pairs(&mut rng);
    let (s2, _r2) = gen_key_pairs(&mut rng);
    let sender_combined_key1 = SenderCombinedKey::new(s1.private_key(), r1.public_key());
    // right receiver, but the public key of another sender
    let receiver_combined_key2 = ReceiverCombinedKey::new(s2.public_key(), r1.private_key());

    let plain_msg = PlainMessagePublicKey::new(b"abc".to_vec());
    let enc_msg = plain_msg.encrypt(&sender_combined_key1, &mut rng)?;
    let e = PlainMessagePublicKey::decrypt(&enc_msg, &receiver_combined_key2).unwrap_err();
    assert_eq!(e.kind(), &ErrorKind::DecryptionError);

    Ok(())
}

#[test]
fn test_decrypt_with_wrong_shared_key() -> Result<(), Error> {
    let mut rng = RngSingletonImpl::new(0);
    let shared_key1 = SharedKey::generate(&mut rng);
    let shared_key2 = SharedKey::generate(&mut rng);

    let plain_msg = PlainMessageSharedKey::new(b"abc".to_vec());
    let enc_msg = plain_msg.encrypt(&shared_key1, &mut rng)?;
    let e = PlainMessageSharedKey::decrypt(&enc_msg, &shared_key2).unwrap_err();
    assert_eq!(e.kind(), &ErrorKind::DecryptionError);

    Ok(())
}

#[test]
fn public_key_round_trip() {
    let mut rng = RngSingletonImpl::new(0);
    let (s, r) = gen_key_pairs(&mut rng);
    let sck = SenderCombinedKey::new(s.private_key(), r.public_key());
    let rck = ReceiverCombinedKey::new(s.public_key(), r.private_key());
    let enc = PlainMessagePublicKey::new(b"hello".to_vec()).encrypt(&sck, &mut rng).unwrap();
    assert_eq!(enc.encrypted().len(), 5 + 16);
    assert_ne!(&enc.encrypted()[..5], b"hello");
    let dec = PlainMessagePublicKey::decrypt(&enc, &rck).unwrap();
    assert_eq!(dec.into_vec(), b"hello".to_vec());
}

#[test]
fn shared_key_round_trip_including_empty() {
    let mut rng = RngSingletonImpl::new(0);
    let key = SharedKey::generate(&mut rng);
    for plain in [Vec::new(), b"x".to_vec(), vec![0u8; 1000]] {
        let enc = PlainMessageSharedKey::new(plain.clone()).encrypt(&key, &mut rng).unwrap();
        assert_eq!(enc.encrypted().len(), plain.len() + 16);
        let dec = PlainMessageSharedKey::decrypt(&enc, &key).unwrap();
        assert_eq!(dec.as_slice(), &plain[..]);
    }
}

#[test]
fn deterministic_round_trip_and_fixed_nonce() {
    let key = SharedKey::from_array([5u8; 32]);
    let enc = PlainMessageSharedKeyDeterministic::new(b"abc".to_vec()).encrypt(&key).unwrap();
    assert_eq!(enc.nonce(), &[0xffu8; 24][..]);
    assert_ne!(&enc.encrypted()[..3], b"abc");
    let dec = PlainMessageSharedKeyDeterministic::decrypt(&enc, &key).unwrap();
    assert_eq!(dec.into_vec(), b"abc".to_vec());
    // both shared-key variants read the same envelopes
    let dec = PlainMessageSharedKey::decrypt(&enc, &key).unwrap();
    assert_eq!(dec.into_vec(), b"abc".to_vec());
}

#[test]
fn tampered_ciphertext_is_rejected() {
    let mut rng = RngSingletonImpl::new(0);
    let key = SharedKey::generate(&mut rng);
    let enc = PlainMessageSharedKey::new(b"abc".to_vec()).encrypt(&key, &mut rng).unwrap();
    let mut bin = enc.serialize();
    let last = bin.len() - 1;
    bin[last] ^= 1;
    let tampered = EncryptedMessage::deserialize(bin).unwrap();
    let e = PlainMessageSharedKey::decrypt(&tampered, &key).unwrap_err();
    assert_eq!(e.kind(), &ErrorKind::DecryptionError);
}

#[test]
fn tampered_nonce_is_rejected() {
    let mut rng = RngSingletonImpl::new(0);
    let (s, r) = gen_key_pairs(&mut rng);
    let sck = SenderCombinedKey::new(s.private_key(), r.public_key());
    let rck = ReceiverCombinedKey::new(s.public_key(), r.private_key());
    let enc = PlainMessagePublicKey::new(b"abc".to_vec()).encrypt(&sck, &mut rng).unwrap();
    let mut bin = enc.serialize();
    bin[0] ^= 1;
    let tampered = EncryptedMessage::deserialize(bin).unwrap();
    let e = PlainMessagePublicKey::decrypt(&tampered, &rck).unwrap_err();
    assert_eq!(e.kind(), &ErrorKind::DecryptionError);
}

#[test]
fn undersized_ciphertext_is_rejected_at_decryption() {
    let key = SharedKey::from_array([1u8; 32]);
    let msg = EncryptedMessage::deserialize(vec![0u8; 24 + 15]).unwrap();
    let e = PlainMessageSharedKey::decrypt(&msg, &key).unwrap_err();
    assert_eq!(e.kind(), &ErrorKind::DecryptionError);
    let msg = EncryptedMessage::deserialize(vec![0u8; 24]).unwrap();
    let e = PlainMessageSharedKeyDeterministic::decrypt(&msg, &key).unwrap_err();
    assert_eq!(e.kind(), &ErrorKind::DecryptionError);
}

fn hex32(s: &str) -> [u8; 32] {
    let mut out = [0u8; 32];
    for i in 0..32 {
        out[i] = u8::from_str_radix(&s[2 * i..2 * i + 2], 16).unwrap();
    }
    out
}

#[test]
fn x25519_public_keys_match_known_vectors() {
    let alice = SenderKeyPair::from_private_bytes(hex32(
        "77076d0a7318a57d3c16c17251b26645df4c2f87ebc0992ab177fba51db92c2a",
    ));
    assert_eq!(
        alice.public_key().as_bytes(),
        &hex32("8520f0098930a754748b7ddcb43ef75a0dbf3a0d26381af4eba4a98eaa9b4e6a")
    );
    let bob = ReceiverKeyPair::from_private_bytes(hex32(
        "5dab087e624a8a4b79e17f8b83800ee66f3bb1292618b6fd1c2f8b27ff88e0eb",
    ));
    assert_eq!(
        bob.public_key().as_bytes(),
        &hex32("de9edb7d7b7dc1b4d35b61c2ece435373f8343c85b78674dadfc7e146f882b4f")
    );
}

#[test]
fn public_keys_received_as_bytes_work() {
    let mut rng = RngSingletonImpl::new(0);
    let (s, r) = gen_key_pairs(&mut rng);
    let receiver_public =
        serde_encrypt::key_pair::ReceiverPublicKey::from_bytes(*r.public_key().as_bytes());
    let sender_public =
        serde_encrypt::key_pair::SenderPublicKey::from_bytes(*s.public_key().as_bytes());
    let sck = SenderCombinedKey::new(s.private_key(), &receiver_public);
    let rck = ReceiverCombinedKey::new(&sender_public, r.private_key());
    let enc = PlainMessagePublicKey::new(b"q".to_vec()).encrypt(&sck, &mut rng).unwrap();
    assert_eq!(PlainMessagePublicKey::decrypt(&enc, &rck).unwrap().into_vec(), b"q".to_vec());
}

#[test]
fn public_key_short_ciphertext_is_rejected() {
    let mut rng = RngSingletonImpl::new(0);
    let (s, r) = gen_key_pairs(&mut rng);
    let rck = ReceiverCombinedKey::new(s.public_key(), r.private_key());
    let msg = EncryptedMessage::deserialize(vec![0u8; 24 + 10]).unwrap();
    let e = PlainMessagePublicKey::decrypt(&msg, &rck).unwrap_err();
    assert_eq!(e.kind(), &ErrorKind::DecryptionError);
}

#[test]
fn ciphertexts_are_plaintext_plus_tag() {
    let mut rng = RngSingletonImpl::new(0);
    let key = SharedKey::generate(&mut rng);
    let enc = PlainMessageSharedKeyDeterministic::new(vec![3u8; 100]).encrypt(&key).unwrap();
    assert_eq!(enc.encrypted().len(), 116);
    let (s, r) = gen_key_pairs(&mut rng);
    let sck = SenderCombinedKey::new(s.private_key(), r.public_key());
    let enc = PlainMessagePublicKey::new(Vec::new()).encrypt(&sck, &mut rng).unwrap();
    assert_eq!(enc.encrypted().len(), 16);
}

#[test]
fn seeded_nonces_come_from_the_source() {
    let key = SharedKey::from_array([2u8; 32]);
    let mut rng1 = RngSingletonImpl::from_seed([4u8; 32]);
    let mut rng2 = RngSingletonImpl::from_seed([4u8; 32]);
    let enc = PlainMessageSharedKey::new(b"n".to_vec()).encrypt(&key, &mut rng1).unwrap();
    assert_eq!(enc.nonce(), &rng2.next_nonce_bytes()[..]);
}
