//! X25519: key pairs and Diffie-Hellman exchange over Curve25519.
use vstd::prelude::*;

verus! {

/// Length of a public key in bytes.
pub const PUBLIC_LENGTH: usize = 32;

/// Length of a secret key in bytes.
pub const SECRET_LENGTH: usize = 32;

/// The u-coordinate of the curve's base point: the number 9, little-endian.
pub const BASEPOINT: [u8; 32] = [
    9, 0, 0, 0, 0, 0, 0, 0, 0, 0, 0, 0, 0, 0, 0, 0, 0, 0, 0, 0, 0, 0, 0, 0, 0, 0, 0, 0, 0, 0, 0, 0,
];

/// The 32 bytes that the X25519 function gives for a 32-byte secret scalar
/// and the 32-byte u-coordinate of a point.
///
/// The value is computed by the primitive layer and is not defined here; it
/// depends on the two byte strings alone.
pub uninterp spec fn x25519(secret: Seq<u8>, point: Seq<u8>) -> Seq<u8>;

/// An X25519 secret key: 32 bytes, used as a scalar.
pub struct SecretKey(pub [u8; SECRET_LENGTH]);

/// An X25519 public key: the 32-byte u-coordinate of a point.
pub struct PublicKey(pub [u8; PUBLIC_LENGTH]);

impl Clone for SecretKey {
    fn clone(&self) -> (copy: Self)
        ensures
            copy == *self,
    {
        SecretKey(self.0)
    }
}

impl Clone for PublicKey {
    fn clone(&self) -> (copy: Self)
        ensures
            copy == *self,
    {
        PublicKey(self.0)
    }
}

impl View for SecretKey {
    type V = Seq<u8>;

    open spec fn view(&self) -> Seq<u8> {
        self.0@
    }
}

impl View for PublicKey {
    type V = Seq<u8>;

    open spec fn view(&self) -> Seq<u8> {
        self.0@
    }
}

/// Wraps a copy of `target` as a secret key.
pub fn secretkey(target: &[u8; SECRET_LENGTH]) -> (key: SecretKey)
    ensures
        key.0 == *target,
        key@ == target@,
{
    SecretKey(*target)
}

/// Wraps a copy of `target` as a public key.
pub fn publickey(target: &[u8; PUBLIC_LENGTH]) -> (key: PublicKey)
    ensures
        key.0 == *target,
        key@ == target@,
{
    PublicKey(*target)
}

/// Calls `libcrux_curve25519::hacl::scalarmult`, the scalar multiplication
/// of HACL*, on a fresh output buffer.
///
/// The contract claims that the 32 bytes it writes are a function of the
/// bytes of `secret` and `point` alone, and gives that function the name
/// `x25519`. The routine reads 32 bytes of each argument, overwrites all 32
/// bytes of the output whatever they held, and accepts every input.
#[verifier::external_body]
fn hacl_scalarmult(secret: &[u8; 32], point: &[u8; 32]) -> (out: [u8; 32])
    ensures
        out@ == x25519(secret@, point@),
{
    let mut out = [0u8; 32];
    libcrux_curve25519::hacl::scalarmult(&mut out, secret, point);
    out
}

/// Multiplies the point with u-coordinate `basepoint` by the scalar `secret`
/// and writes the u-coordinate of the result to `mypublic`.
///
/// Every 32-byte input is accepted and passed on as it is; there is no
/// branch on the bytes of `secret`.
pub fn scalarmult(mypublic: &mut [u8; 32], secret: &[u8; 32], basepoint: &[u8; 32])
    ensures
        final(mypublic)@ == x25519(secret@, basepoint@),
{
    *mypublic = hacl_scalarmult(secret, basepoint);
}

/// Builds a key pair from 32 bytes that the caller has drawn from a
/// cryptographically secure random source.
///
/// The secret key holds `secret` as it is; the public key is the base point
/// multiplied by it. This function draws nothing itself and keeps no state.
pub fn keypair(secret: [u8; SECRET_LENGTH]) -> (pair: (SecretKey, PublicKey))
    ensures
        pair.0.0 == secret,
        pair.1@ == pair.0.public_bytes(),
{
    let mut pk = [0u8; 32];
    scalarmult(&mut pk, &secret, &BASEPOINT);
    (SecretKey(secret), PublicKey(pk))
}

impl SecretKey {
    /// The bytes of the public key that belongs to this secret key.
    pub open spec fn public_bytes(&self) -> Seq<u8> {
        x25519(self@, BASEPOINT@)
    }

    /// The bytes of the secret that this key shares with the holder of
    /// `peer`.
    pub open spec fn shared_bytes(&self, peer: &PublicKey) -> Seq<u8> {
        x25519(self@, peer@)
    }

    /// Computes the public key: the base point multiplied by this key.
    pub fn get_public(&self) -> (pk: PublicKey)
        ensures
            pk@ == self.public_bytes(),
    {
        let mut pk = [0u8; 32];
        scalarmult(&mut pk, &self.0, &BASEPOINT);
        PublicKey(pk)
    }

    /// Writes the raw Diffie-Hellman value shared with the holder of `peer`
    /// to `output`. No hash or key derivation is applied to it.
    ///
    /// No peer key is rejected: for a point of small order the value is
    /// all zero, and a caller who must rule such peers out tests `output`.
    pub fn exchange(&self, peer: &PublicKey, output: &mut [u8; 32])
        ensures
            final(output)@ == self.shared_bytes(peer),
    {
        scalarmult(output, &self.0, &peer.0);
    }
}

/// The base point is the number 9 written as 32 little-endian bytes: a 9
/// followed by 31 zero bytes.
pub proof fn lemma_basepoint_bytes()
    ensures
        BASEPOINT@.len() == 32,
        BASEPOINT@[0] == 9,
        forall|i: int| 1 <= i < 32 ==> BASEPOINT@[i] == 0,
{
}

/// Keys hold exactly 32 bytes each.
pub proof fn lemma_key_lengths(secret: SecretKey, public: PublicKey)
    ensures
        secret@.len() == SECRET_LENGTH,
        public@.len() == PUBLIC_LENGTH,
{
}

/// A public key is no more than its bytes: two public keys that hold the
/// same bytes are the same key.
pub proof fn lemma_public_key_is_its_bytes(first: PublicKey, second: PublicKey)
    requires
        first@ == second@,
    ensures
        first == second,
{
    assert(first.0 =~= second.0);
}

/// `get_public` is deterministic: any two public keys that it may return for
/// one secret key are the same key.
pub proof fn lemma_get_public_deterministic(secret: SecretKey, first: PublicKey, second: PublicKey)
    requires
        first@ == secret.public_bytes(),
        second@ == secret.public_bytes(),
    ensures
        first == second,
{
    lemma_public_key_is_its_bytes(first, second);
}

/// The public key of a secret key is the base point multiplied by that key:
/// what `get_public` returns for `secret` holds the bytes that `scalarmult`
/// writes for the bytes of `secret` and `BASEPOINT`.
pub proof fn lemma_public_is_basepoint_multiple(secret: SecretKey, public: PublicKey, product: [u8; 32])
    requires
        public@ == secret.public_bytes(),
        product@ == x25519(secret.0@, BASEPOINT@),
    ensures
        public.0 == product,
{
    assert(public.0 =~= product);
}

/// `exchange` is `scalarmult` on the bytes of the two keys: what it writes
/// for `secret` and `peer` are the bytes that `scalarmult` writes for them.
pub proof fn lemma_exchange_is_scalarmult(secret: SecretKey, peer: PublicKey, shared: [u8; 32], product: [u8; 32])
    requires
        shared@ == secret.shared_bytes(&peer),
        product@ == x25519(secret.0@, peer.0@),
    ensures
        shared == product,
{
    assert(shared =~= product);
}

/// What agreement between two key pairs comes down to. The values that the
/// two sides get from `exchange` with each other's public key are equal
/// exactly when the X25519 function gives the same bytes for `a` and the
/// public key of `b` as for `b` and the public key of `a`. That equation is
/// a property of the curve, which this crate does not define, and it is not
/// proved here.
pub proof fn lemma_agreement_is_commutation(
    a: SecretKey,
    b: SecretKey,
    a_public: PublicKey,
    b_public: PublicKey,
    at_a: [u8; 32],
    at_b: [u8; 32],
)
    requires
        a_public@ == a.public_bytes(),
        b_public@ == b.public_bytes(),
        at_a@ == a.shared_bytes(&b_public),
        at_b@ == b.shared_bytes(&a_public),
    ensures
        at_a == at_b <==> x25519(a@, x25519(b@, BASEPOINT@)) == x25519(b@, x25519(a@, BASEPOINT@)),
{
    assert(at_a@ == at_b@ ==> at_a =~= at_b);
}

} // verus!
