use serde_encrypt::error::Error;
use serde_encrypt::random::RngSingletonImpl;
use serde_encrypt::shared_key::SharedKey;

#[test]
fn test_shared_key_distribution() -> Result<(), Error> {
    let mut rng = RngSingletonImpl::new(0);
    let mut keys = Vec::<SharedKey>::new();
    for _ in 0..100 {
        let key = SharedKey::generate(&mut rng);
        keys.push(key);
    }

    for i in 0..100 {
        let key_i = keys.get(i).unwrap();
        for j in (i + 1)..100 {
            let key_j = keys.get(j).unwrap();
            assert_ne!(key_i, key_j);
        }
    }

    Ok(())
}

#[test]
fn build_sharedkey_from_array() {
    const STATIC_ARRAY: [u8; 32] = [
        1, 1, 4, 5, 1, 4, 0, 0, 0, 0, 0, 0, 0, 0, 0, 0, 0, 0, 0, 0, 0, 0, 0, 0, 0, 0, 0, 0, 0, 0,
        0, 0,
    ];

    let runtime_array: [u8; 32] = Vec::from(STATIC_ARRAY).try_into().unwrap();

    let shared_key = SharedKey::new(runtime_array);

    assert_eq!(shared_key, SharedKey::from_array(STATIC_ARRAY));
    assert_eq!(shared_key.as_slice(), &STATIC_ARRAY[..]);
    assert_eq!(shared_key.into_array(), STATIC_ARRAY);
}

#[test]
fn shared_key_from_words_is_little_endian_concatenation() {
    let words = [0x0807060504030201u64, 0x100f0e0d0c0b0a09, 0, u64::MAX];
    let key = SharedKey::from_words(words);
    let mut expected = Vec::new();
    for w in words {
        expected.extend_from_slice(&w.to_le_bytes());
    }
    assert_eq!(key.as_slice(), &expected[..]);
    assert_eq!(&key.as_slice()[..16], &(1u8..=16).collect::<Vec<u8>>()[..]);
}

#[test]
fn shared_keys_from_same_seed_are_equal() {
    let mut rng1 = RngSingletonImpl::from_seed([9u8; 32]);
    let mut rng2 = RngSingletonImpl::from_seed([9u8; 32]);
    let a = SharedKey::generate(&mut rng1);
    let b = SharedKey::generate(&mut rng2);
    assert_eq!(a, b);
    assert_ne!(a, SharedKey::generate(&mut rng1));
}

#[test]
fn generated_key_is_the_next_four_words() {
    let mut rng1 = RngSingletonImpl::from_seed([11u8; 32]);
    let mut rng2 = RngSingletonImpl::from_seed([11u8; 32]);
    let words = [rng2.next_u64(), rng2.next_u64(), rng2.next_u64(), rng2.next_u64()];
    assert_eq!(SharedKey::generate(&mut rng1), SharedKey::from_words(words));
    assert_eq!(rng1.next_u64(), rng2.next_u64());
}
