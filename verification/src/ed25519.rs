//! Ed25519: key pairs, signing and verification.
use vstd::pervasive::unreached;
use vstd::prelude::*;

verus! {

/// Length of a secret key in bytes.
pub const SECRET_LENGTH: usize = 32;

/// Length of a public key in bytes.
pub const PUBLIC_LENGTH: usize = 32;

/// Length of a signature in bytes.
pub const SIG_LENGTH: usize = 64;

/// The 32 bytes of the Ed25519 public key that belongs to a 32-byte secret
/// key.
pub uninterp spec fn ed25519_public(secret: Seq<u8>) -> Seq<u8>;

/// The 64 bytes of the Ed25519 signature of `message` under a 32-byte secret
/// key. Signing draws no randomness: the signature depends on the key and the
/// message alone.
pub uninterp spec fn ed25519_signature(secret: Seq<u8>, message: Seq<u8>) -> Seq<u8>;

/// Whether the primitive layer accepts the 64 bytes `signature` for
/// `message` under the 32-byte public key `public`.
pub uninterp spec fn ed25519_accepts(public: Seq<u8>, message: Seq<u8>, signature: Seq<u8>) -> bool;

/// An Ed25519 secret key: a 32-byte seed.
pub struct SecretKey(pub [u8; SECRET_LENGTH]);

/// An Ed25519 public key: a 32-byte encoded point.
pub struct PublicKey(pub [u8; PUBLIC_LENGTH]);

/// An Ed25519 signature: 64 bytes.
pub struct Signature(pub [u8; SIG_LENGTH]);

impl Clone for SecretKey {
    fn clone(&self) -> (copy: Self)
        ensures
            copy == *self,
    {
        SecretKey(self.0)
    }
}

impl Clone for PublicKey {
    fn clone(&self) -> (copy: Self)
        ensures
            copy == *self,
    {
        PublicKey(self.0)
    }
}

impl Clone for Signature {
    fn clone(&self) -> (copy: Self)
        ensures
            copy == *self,
    {
        Signature(self.0)
    }
}

impl View for SecretKey {
    type V = Seq<u8>;

    open spec fn view(&self) -> Seq<u8> {
        self.0@
    }
}

impl View for PublicKey {
    type V = Seq<u8>;

    open spec fn view(&self) -> Seq<u8> {
        self.0@
    }
}

impl View for Signature {
    type V = Seq<u8>;

    open spec fn view(&self) -> Seq<u8> {
        self.0@
    }
}

/// Wraps a copy of `target` as a secret key.
pub fn secretkey(target: &[u8; SECRET_LENGTH]) -> (key: SecretKey)
    ensures
        key.0 == *target,
        key@ == target@,
{
    SecretKey(*target)
}

/// Wraps a copy of `target` as a public key.
pub fn publickey(target: &[u8; PUBLIC_LENGTH]) -> (key: PublicKey)
    ensures
        key.0 == *target,
        key@ == target@,
{
    PublicKey(*target)
}

/// Wraps a copy of `target` as a signature.
pub fn signature(target: &[u8; SIG_LENGTH]) -> (sig: Signature)
    ensures
        sig.0 == *target,
        sig@ == target@,
{
    Signature(*target)
}

/// Calls `libcrux_ed25519::secret_to_public` on a fresh output buffer.
///
/// The contract claims that the 32 bytes it writes are a function of the
/// bytes of `secret` alone, and gives that function the name
/// `ed25519_public`.
#[verifier::external_body]
fn hacl_secret_to_public(secret: &[u8; 32]) -> (public: [u8; 32])
    ensures
        public@ == ed25519_public(secret@),
{
    let mut public = [0u8; 32];
    libcrux_ed25519::secret_to_public(&mut public, secret);
    public
}

/// Calls `libcrux_ed25519::sign` and drops the error value.
///
/// The contract claims two things. The call fails exactly when the length of
/// `message` does not fit in 32 bits, which is the one case in which the
/// outside function returns an error. Otherwise the 64 bytes it returns are a
/// function of the bytes of `secret` and `message` alone, named
/// `ed25519_signature`.
#[verifier::external_body]
fn hacl_sign(message: &[u8], secret: &[u8; 32]) -> (signed: Option<[u8; 64]>)
    ensures
        signed is Some <==> message@.len() <= u32::MAX,
        signed matches Some(bytes) ==> bytes@ == ed25519_signature(secret@, message@),
{
    libcrux_ed25519::sign(message, secret).ok()
}

/// Calls `libcrux_ed25519::verify` and reports whether it returned `Ok`.
///
/// The contract claims that the answer is a function of the three byte
/// strings alone, named `ed25519_accepts`, and that it is `false` whenever
/// the length of `message` does not fit in 32 bits: the outside function
/// returns an error for such a message before it looks at the signature.
#[verifier::external_body]
fn hacl_verify(message: &[u8], public: &[u8; 32], signature: &[u8; 64]) -> (ok: bool)
    ensures
        ok == ed25519_accepts(public@, message@, signature@),
        message@.len() > u32::MAX ==> !ok,
{
    libcrux_ed25519::verify(message, public, signature).is_ok()
}

/// Builds a key pair from 32 bytes that the caller has drawn from a
/// cryptographically secure random source.
///
/// The secret key holds `secret` as it is; the public key is the one that
/// belongs to it. This function draws nothing itself and keeps no state.
pub fn keypair(secret: [u8; SECRET_LENGTH]) -> (pair: (SecretKey, PublicKey))
    ensures
        pair.0.0 == secret,
        pair.1@ == pair.0.public_bytes(),
{
    let sk = SecretKey(secret);
    let pk = sk.get_public();
    (sk, pk)
}

impl SecretKey {
    /// The bytes of the public key that belongs to this secret key.
    pub open spec fn public_bytes(&self) -> Seq<u8> {
        ed25519_public(self@)
    }

    /// Computes the public key that belongs to this secret key.
    pub fn get_public(&self) -> (pk: PublicKey)
        ensures
            pk@ == self.public_bytes(),
    {
        PublicKey(hacl_secret_to_public(&self.0))
    }
}

/// Signs `message` with `secret_key`.
///
/// The primitive layer takes the length of the message as a 32-bit number,
/// so the message may hold at most `u32::MAX` bytes.
pub fn sign(secret_key: &SecretKey, message: &[u8]) -> (sig: Signature)
    requires
        message@.len() <= u32::MAX,
    ensures
        sig@ == ed25519_signature(secret_key@, message@),
{
    match hacl_sign(message, &secret_key.0) {
        Some(bytes) => Signature(bytes),
        None => unreached(),
    }
}

/// Says whether `signature` is valid for `message` under `public_key`.
///
/// A signature that is not valid is an ordinary answer, `false`; no input
/// of the right sizes is an error.
pub fn verify(public_key: &PublicKey, message: &[u8], signature: &Signature) -> (ok: bool)
    ensures
        ok == ed25519_accepts(public_key@, message@, signature@),
        message@.len() > u32::MAX ==> !ok,
{
    hacl_verify(message, &public_key.0, &signature.0)
}

/// Keys hold exactly 32 bytes each, and a signature exactly 64.
pub proof fn lemma_lengths(secret: SecretKey, public: PublicKey, sig: Signature)
    ensures
        secret@.len() == SECRET_LENGTH,
        public@.len() == PUBLIC_LENGTH,
        sig@.len() == SIG_LENGTH,
{
}

/// `get_public` is deterministic: any two public keys that it may return for
/// one secret key are the same key.
pub proof fn lemma_get_public_deterministic(secret: SecretKey, first: PublicKey, second: PublicKey)
    requires
        first@ == secret.public_bytes(),
        second@ == secret.public_bytes(),
    ensures
        first == second,
{
    assert(first.0 =~= second.0);
}

/// `sign` is deterministic: any two signatures that it may return for one
/// secret key and one message are the same signature.
pub proof fn lemma_sign_deterministic(secret: SecretKey, message: Seq<u8>, first: Signature, second: Signature)
    requires
        first@ == ed25519_signature(secret@, message),
        second@ == ed25519_signature(secret@, message),
    ensures
        first == second,
{
    assert(first.0 =~= second.0);
}

/// What the round trip of signing and verifying comes down to. For the
/// public key that `get_public` gives for `secret` and the signature that
/// `sign` gives for `secret` and `message`, the answer of `verify` is the
/// answer of the primitive layer for the named public key and the named
/// signature. That this answer is `true` is a property of the scheme, which
/// this crate does not define, and it is not proved here.
pub proof fn lemma_round_trip_is_acceptance(
    secret: SecretKey,
    public: PublicKey,
    message: Seq<u8>,
    sig: Signature,
    ok: bool,
)
    requires
        public@ == secret.public_bytes(),
        sig@ == ed25519_signature(secret@, message),
        ok == ed25519_accepts(public@, message, sig@),
    ensures
        ok == ed25519_accepts(
            ed25519_public(secret@),
            message,
            ed25519_signature(secret@, message),
        ),
{
}

} // verus!
