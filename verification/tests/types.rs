use hacl_star::{curve25519, ed25519, And};
use std::any::TypeId;

#[test]
fn x25519_and_ed25519_keys_are_distinct_types() {
    assert_ne!(
        TypeId::of::<curve25519::PublicKey>(),
        TypeId::of::<ed25519::PublicKey>()
    );
    assert_ne!(
        TypeId::of::<curve25519::SecretKey>(),
        TypeId::of::<ed25519::SecretKey>()
    );
    assert_ne!(
        TypeId::of::<curve25519::SecretKey>(),
        TypeId::of::<curve25519::PublicKey>()
    );
    assert_ne!(
        TypeId::of::<ed25519::SecretKey>(),
        TypeId::of::<ed25519::PublicKey>()
    );
}

#[test]
fn same_bytes_give_different_public_keys_per_scheme() {
    let seed = [7u8; 32];
    let x = curve25519::SecretKey(seed).get_public();
    let e = ed25519::SecretKey(seed).get_public();
    assert_ne!(x.0, e.0);
}

#[test]
fn and_holds_both_values() {
    let sk = curve25519::SecretKey([3u8; 32]);
    let pk = sk.get_public();
    let expected = pk.0;
    let And(first, second) = And(sk, pk);
    assert_eq!(first.0, [3u8; 32]);
    assert_eq!(second.0, expected);
    let pair = And(1u8, "one");
    assert_eq!(pair.0, 1);
    assert_eq!(pair.1, "one");
}
