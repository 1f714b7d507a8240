//! The primitives of the national-standard family, as a backend supplies
//! them, and what may be said of a backend's answers.
//!
//! The registry does not compute these primitives itself. It is handed a
//! backend and calls it. Nothing is assumed of a backend: each predicate below
//! says that the backend may give a certain answer to a certain question,
//! that is, that the answer is one that a call of the method allows.

use vstd::prelude::*;

use crate::bytes::{spec_bytes, spec_bytes_pair};

verus! {

/// The primitives of the national-standard family. A method answers `None`
/// where the primitive fails on what it was given.
pub trait StbBackend {
    /// The bash512 digest of `data`.
    fn bash512(&self, data: &[u8]) -> Option<Vec<u8>>;

    /// A bign key pair on the curve of level 3, private key first, drawn from
    /// a generator that starts from `seed`.
    fn bign_keypair(&self, seed: &[u8]) -> Option<(Vec<u8>, Vec<u8>)>;

    /// The bign signature of `digest` by the key pair, with the randomness of
    /// a generator that starts from `seed`.
    fn bign_sign(
        &self,
        private_key: &[u8],
        public_key: &[u8],
        digest: &[u8],
        seed: &[u8],
    ) -> Option<Vec<u8>>;

    /// Whether `signature` is the bign signature of `digest` by the owner of
    /// `public_key`.
    fn bign_verify(&self, public_key: &[u8], digest: &[u8], signature: &[u8]) -> bool;

    /// The 32 bytes that the key pair and the other party's public key agree
    /// on by bign Diffie-Hellman.
    fn bign_diffie_hellman(
        &self,
        private_key: &[u8],
        public_key: &[u8],
        other_public_key: &[u8],
    ) -> Option<Vec<u8>>;

    /// One block of 32 bytes derived from `secret`.
    fn bake_kdf(&self, secret: &[u8]) -> Option<Vec<u8>>;

    /// The belt-dwp ciphertext and tag of `plaintext` under the 32-byte
    /// `key`, bound to `associated_data`.
    fn belt_dwp_wrap(&self, plaintext: &[u8], associated_data: &[u8], key: &[u8]) -> Option<
        (Vec<u8>, Vec<u8>),
    >;

    /// The plaintext of a belt-dwp ciphertext, or `None` where the tag does
    /// not fit the ciphertext, the associated data and the key.
    fn belt_dwp_unwrap(
        &self,
        ciphertext: &[u8],
        associated_data: &[u8],
        tag: &[u8],
        key: &[u8],
    ) -> Option<Vec<u8>>;

    /// `data` encrypted with belt in counter mode under `key`, starting from
    /// the 16-byte `iv`.
    fn belt_ctr_encrypt(&self, data: &[u8], key: &[u8], iv: &[u8]) -> Option<Vec<u8>>;

    /// `data` decrypted with belt in counter mode under `key`, starting from
    /// the 16-byte `iv`.
    fn belt_ctr_decrypt(&self, data: &[u8], key: &[u8], iv: &[u8]) -> Option<Vec<u8>>;

    /// The first `len` bytes of the counter-mode generator that starts from
    /// `seed`.
    fn brng_ctr(&self, seed: &[u8], len: usize) -> Option<Vec<u8>>;
}

/// Whether the backend may answer `out` when asked for the digest of `data`.
pub open spec fn may_bash512<B: StbBackend>(
    backend: &B,
    data: Seq<u8>,
    out: Option<Seq<u8>>,
) -> bool {
    exists|d: &[u8], r: Option<Vec<u8>>|
        #![trigger call_ensures(B::bash512, (backend, d), r)]
        call_ensures(B::bash512, (backend, d), r) && d@ == data && spec_bytes(r) == out
}

/// Whether the backend may answer `out` when asked for a key pair from `seed`.
pub open spec fn may_bign_keypair<B: StbBackend>(
    backend: &B,
    seed: Seq<u8>,
    out: Option<(Seq<u8>, Seq<u8>)>,
) -> bool {
    exists|s: &[u8], r: Option<(Vec<u8>, Vec<u8>)>|
        #![trigger call_ensures(B::bign_keypair, (backend, s), r)]
        call_ensures(B::bign_keypair, (backend, s), r) && s@ == seed && spec_bytes_pair(r) == out
}

/// Whether the backend may answer `out` when asked to sign `digest`.
pub open spec fn may_bign_sign<B: StbBackend>(
    backend: &B,
    private_key: Seq<u8>,
    public_key: Seq<u8>,
    digest: Seq<u8>,
    seed: Seq<u8>,
    out: Option<Seq<u8>>,
) -> bool {
    exists|sk: &[u8], pk: &[u8], d: &[u8], s: &[u8], r: Option<Vec<u8>>|
        #![trigger call_ensures(B::bign_sign, (backend, sk, pk, d, s), r)]
        call_ensures(B::bign_sign, (backend, sk, pk, d, s), r) && sk@ == private_key && pk@
            == public_key && d@ == digest && s@ == seed && spec_bytes(r) == out
}

/// Whether the backend may answer `out` when asked to check `signature`.
pub open spec fn may_bign_verify<B: StbBackend>(
    backend: &B,
    public_key: Seq<u8>,
    digest: Seq<u8>,
    signature: Seq<u8>,
    out: bool,
) -> bool {
    exists|pk: &[u8], d: &[u8], s: &[u8]|
        #![trigger call_ensures(B::bign_verify, (backend, pk, d, s), out)]
        call_ensures(B::bign_verify, (backend, pk, d, s), out) && pk@ == public_key && d@ == digest
            && s@ == signature
}

/// Whether the backend may answer `out` when asked for the agreement of a key
/// pair with another public key.
pub open spec fn may_bign_diffie_hellman<B: StbBackend>(
    backend: &B,
    private_key: Seq<u8>,
    public_key: Seq<u8>,
    other_public_key: Seq<u8>,
    out: Option<Seq<u8>>,
) -> bool {
    exists|sk: &[u8], pk: &[u8], other: &[u8], r: Option<Vec<u8>>|
        #![trigger call_ensures(B::bign_diffie_hellman, (backend, sk, pk, other), r)]
        call_ensures(B::bign_diffie_hellman, (backend, sk, pk, other), r) && sk@ == private_key
            && pk@ == public_key && other@ == other_public_key && spec_bytes(r) == out
}

/// Whether the backend may answer `out` when asked for a block derived from
/// `secret`.
pub open spec fn may_bake_kdf<B: StbBackend>(
    backend: &B,
    secret: Seq<u8>,
    out: Option<Seq<u8>>,
) -> bool {
    exists|s: &[u8], r: Option<Vec<u8>>|
        #![trigger call_ensures(B::bake_kdf, (backend, s), r)]
        call_ensures(B::bake_kdf, (backend, s), r) && s@ == secret && spec_bytes(r) == out
}

/// Whether the backend may answer `out`, a ciphertext and its tag, when asked
/// to wrap `plaintext`.
pub open spec fn may_belt_dwp_wrap<B: StbBackend>(
    backend: &B,
    plaintext: Seq<u8>,
    associated_data: Seq<u8>,
    key: Seq<u8>,
    out: Option<(Seq<u8>, Seq<u8>)>,
) -> bool {
    exists|p: &[u8], a: &[u8], k: &[u8], r: Option<(Vec<u8>, Vec<u8>)>|
        #![trigger call_ensures(B::belt_dwp_wrap, (backend, p, a, k), r)]
        call_ensures(B::belt_dwp_wrap, (backend, p, a, k), r) && p@ == plaintext && a@
            == associated_data && k@ == key && spec_bytes_pair(r) == out
}

/// Whether the backend may answer `out` when asked to unwrap `ciphertext`.
pub open spec fn may_belt_dwp_unwrap<B: StbBackend>(
    backend: &B,
    ciphertext: Seq<u8>,
    associated_data: Seq<u8>,
    tag: Seq<u8>,
    key: Seq<u8>,
    out: Option<Seq<u8>>,
) -> bool {
    exists|c: &[u8], a: &[u8], t: &[u8], k: &[u8], r: Option<Vec<u8>>|
        #![trigger call_ensures(B::belt_dwp_unwrap, (backend, c, a, t, k), r)]
        call_ensures(B::belt_dwp_unwrap, (backend, c, a, t, k), r) && c@ == ciphertext && a@
            == associated_data && t@ == tag && k@ == key && spec_bytes(r) == out
}

/// Whether the backend may answer `out` when asked to encrypt `data` in
/// counter mode.
pub open spec fn may_belt_ctr_encrypt<B: StbBackend>(
    backend: &B,
    data: Seq<u8>,
    key: Seq<u8>,
    iv: Seq<u8>,
    out: Option<Seq<u8>>,
) -> bool {
    exists|d: &[u8], k: &[u8], i: &[u8], r: Option<Vec<u8>>|
        #![trigger call_ensures(B::belt_ctr_encrypt, (backend, d, k, i), r)]
        call_ensures(B::belt_ctr_encrypt, (backend, d, k, i), r) && d@ == data && k@ == key && i@
            == iv && spec_bytes(r) == out
}

/// Whether the backend may answer `out` when asked to decrypt `data` in
/// counter mode.
pub open spec fn may_belt_ctr_decrypt<B: StbBackend>(
    backend: &B,
    data: Seq<u8>,
    key: Seq<u8>,
    iv: Seq<u8>,
    out: Option<Seq<u8>>,
) -> bool {
    exists|d: &[u8], k: &[u8], i: &[u8], r: Option<Vec<u8>>|
        #![trigger call_ensures(B::belt_ctr_decrypt, (backend, d, k, i), r)]
        call_ensures(B::belt_ctr_decrypt, (backend, d, k, i), r) && d@ == data && k@ == key && i@
            == iv && spec_bytes(r) == out
}

/// Whether the backend may answer `out` when asked for `len` bytes of the
/// generator that starts from `seed`.
pub open spec fn may_brng_ctr<B: StbBackend>(
    backend: &B,
    seed: Seq<u8>,
    len: usize,
    out: Option<Seq<u8>>,
) -> bool {
    exists|s: &[u8], r: Option<Vec<u8>>|
        #![trigger call_ensures(B::brng_ctr, (backend, s, len), r)]
        call_ensures(B::brng_ctr, (backend, s, len), r) && s@ == seed && spec_bytes(r) == out
}

/// Asks the backend for the digest of `data`.
pub(crate) fn ask_bash512<B: StbBackend>(backend: &B, data: &[u8]) -> (r: Option<Vec<u8>>)
    ensures
        may_bash512(backend, data@, spec_bytes(r)),
{
    backend.bash512(data)
}

/// Asks the backend for a key pair from `seed`.
pub(crate) fn ask_bign_keypair<B: StbBackend>(backend: &B, seed: &[u8]) -> (r: Option<
    (Vec<u8>, Vec<u8>),
>)
    ensures
        may_bign_keypair(backend, seed@, spec_bytes_pair(r)),
{
    backend.bign_keypair(seed)
}

/// Asks the backend to sign `digest`.
pub(crate) fn ask_bign_sign<B: StbBackend>(
    backend: &B,
    private_key: &[u8],
    public_key: &[u8],
    digest: &[u8],
    seed: &[u8],
) -> (r: Option<Vec<u8>>)
    ensures
        may_bign_sign(backend, private_key@, public_key@, digest@, seed@, spec_bytes(r)),
{
    backend.bign_sign(private_key, public_key, digest, seed)
}

/// Asks the backend to check `signature`.
pub(crate) fn ask_bign_verify<B: StbBackend>(
    backend: &B,
    public_key: &[u8],
    digest: &[u8],
    signature: &[u8],
) -> (r: bool)
    ensures
        may_bign_verify(backend, public_key@, digest@, signature@, r),
{
    backend.bign_verify(public_key, digest, signature)
}

/// Asks the backend for the agreement of a key pair with another public key.
pub(crate) fn ask_bign_diffie_hellman<B: StbBackend>(
    backend: &B,
    private_key: &[u8],
    public_key: &[u8],
    other_public_key: &[u8],
) -> (r: Option<Vec<u8>>)
    ensures
        may_bign_diffie_hellman(
            backend,
            private_key@,
            public_key@,
            other_public_key@,
            spec_bytes(r),
        ),
{
    backend.bign_diffie_hellman(private_key, public_key, other_public_key)
}

/// Asks the backend for a block derived from `secret`.
pub(crate) fn ask_bake_kdf<B: StbBackend>(backend: &B, secret: &[u8]) -> (r: Option<Vec<u8>>)
    ensures
        may_bake_kdf(backend, secret@, spec_bytes(r)),
{
    backend.bake_kdf(secret)
}

/// Asks the backend to wrap `plaintext`.
pub(crate) fn ask_belt_dwp_wrap<B: StbBackend>(
    backend: &B,
    plaintext: &[u8],
    associated_data: &[u8],
    key: &[u8],
) -> (r: Option<(Vec<u8>, Vec<u8>)>)
    ensures
        may_belt_dwp_wrap(backend, plaintext@, associated_data@, key@, spec_bytes_pair(r)),
{
    backend.belt_dwp_wrap(plaintext, associated_data, key)
}

/// Asks the backend to unwrap `ciphertext`.
pub(crate) fn ask_belt_dwp_unwrap<B: StbBackend>(
    backend: &B,
    ciphertext: &[u8],
    associated_data: &[u8],
    tag: &[u8],
    key: &[u8],
) -> (r: Option<Vec<u8>>)
    ensures
        may_belt_dwp_unwrap(backend, ciphertext@, associated_data@, tag@, key@, spec_bytes(r)),
{
    backend.belt_dwp_unwrap(ciphertext, associated_data, tag, key)
}

/// Asks the backend to encrypt `data` in counter mode.
pub(crate) fn ask_belt_ctr_encrypt<B: StbBackend>(
    backend: &B,
    data: &[u8],
    key: &[u8],
    iv: &[u8],
) -> (r: Option<Vec<u8>>)
    ensures
        may_belt_ctr_encrypt(backend, data@, key@, iv@, spec_bytes(r)),
{
    backend.belt_ctr_encrypt(data, key, iv)
}

/// Asks the backend to decrypt `data` in counter mode.
pub(crate) fn ask_belt_ctr_decrypt<B: StbBackend>(
    backend: &B,
    data: &[u8],
    key: &[u8],
    iv: &[u8],
) -> (r: Option<Vec<u8>>)
    ensures
        may_belt_ctr_decrypt(backend, data@, key@, iv@, spec_bytes(r)),
{
    backend.belt_ctr_decrypt(data, key, iv)
}

/// Asks the backend for `len` bytes of the generator that starts from `seed`.
pub(crate) fn ask_brng_ctr<B: StbBackend>(backend: &B, seed: &[u8], len: usize) -> (r: Option<
    Vec<u8>,
>)
    ensures
        may_brng_ctr(backend, seed@, len, spec_bytes(r)),
{
    backend.brng_ctr(seed, len)
}

} // verus!
