//! The algorithm registry: which primitive an identifier names in each role,
//! and the uniform operations that look the primitive up and run it. An
//! identifier that names no primitive of its role is refused with `None`; no
//! operation falls back to another primitive.

use vstd::prelude::*;

use crate::aes::{
    aes_decrypt, aes_encrypt_with_nonce, spec_aes_accepts, spec_aes_decrypt, spec_aes_encrypt,
    NONCE_LEN,
};
use crate::algorithms::{
    names, spec_prequantum_bee2rs, spec_prequantum_standard, AlgorithmNames, CryptoAlgorithms,
    AES_GCM, BAKE_KDF, BASH512, BELT_CTR, BELT_DWP, BIGN_B3, DEFAULT_RNG,
};
use crate::backend::{
    ask_bake_kdf, ask_bash512, ask_belt_ctr_decrypt, ask_belt_ctr_encrypt, ask_belt_dwp_unwrap,
    ask_belt_dwp_wrap, ask_bign_diffie_hellman, ask_bign_keypair, ask_bign_sign, ask_bign_verify,
    ask_brng_ctr, may_bake_kdf, may_bash512, may_belt_ctr_decrypt, may_belt_ctr_encrypt,
    may_belt_dwp_unwrap, may_belt_dwp_wrap, may_bign_diffie_hellman, may_bign_keypair,
    may_bign_sign, may_bign_verify, may_brng_ctr, StbBackend,
};
use crate::bytes::{concat_bytes, copy_into, spec_bytes, spec_bytes_pair, sub_bytes};
use crate::keys::{is_key_len, spec_is_key_len, KeyStrength, PrivateKey, PublicKey};
use crate::random::{fill_random, get_iv, SEED_LEN};

verus! {

/// The hash functions of the registry.
#[derive(Clone, Copy, Debug, PartialEq, Eq, Structural)]
pub enum HashAlgorithm {
    Bash512,
}

/// The key-derivation functions of the registry.
#[derive(Clone, Copy, Debug, PartialEq, Eq, Structural)]
pub enum KdfAlgorithm {
    Bake,
}

/// The Diffie-Hellman schemes of the registry.
#[derive(Clone, Copy, Debug, PartialEq, Eq, Structural)]
pub enum DiffieHellmanAlgorithm {
    BignB3,
}

/// The signature schemes of the registry.
#[derive(Clone, Copy, Debug, PartialEq, Eq, Structural)]
pub enum SignatureAlgorithm {
    BignB3,
}

/// The symmetric ciphers of the registry.
#[derive(Clone, Copy, Debug, PartialEq, Eq, Structural)]
pub enum SymmetricAlgorithm {
    BeltCtr,
    AesGcm,
}

/// The authenticated ciphers of the registry.
#[derive(Clone, Copy, Debug, PartialEq, Eq, Structural)]
pub enum AeadAlgorithm {
    BeltDwp,
}

/// The random-number generators of the registry.
#[derive(Clone, Copy, Debug, PartialEq, Eq, Structural)]
pub enum RngAlgorithm {
    BeltCtr,
    Default,
}

/// The number of bytes of a block of the key-derivation function.
pub const KDF_BLOCK_LEN: usize = 32;

/// The number of bytes of a key of the authenticated cipher.
pub const AEAD_KEY_LEN: usize = 32;

/// The number of bytes of the initial value of belt in counter mode.
pub const CTR_IV_LEN: usize = 16;

/// The hash function that `id` names.
pub open spec fn spec_hash_algorithm(id: Seq<char>) -> Option<HashAlgorithm> {
    if id == BASH512@ {
        Some(HashAlgorithm::Bash512)
    } else {
        None
    }
}

/// The key-derivation function that `id` names.
pub open spec fn spec_kdf_algorithm(id: Seq<char>) -> Option<KdfAlgorithm> {
    if id == BAKE_KDF@ {
        Some(KdfAlgorithm::Bake)
    } else {
        None
    }
}

/// The Diffie-Hellman scheme that `id` names.
pub open spec fn spec_diffie_hellman_algorithm(id: Seq<char>) -> Option<DiffieHellmanAlgorithm> {
    if id == BIGN_B3@ {
        Some(DiffieHellmanAlgorithm::BignB3)
    } else {
        None
    }
}

/// The signature scheme that `id` names.
pub open spec fn spec_signature_algorithm(id: Seq<char>) -> Option<SignatureAlgorithm> {
    if id == BIGN_B3@ {
        Some(SignatureAlgorithm::BignB3)
    } else {
        None
    }
}

/// The symmetric cipher that `id` names.
pub open spec fn spec_symmetric_algorithm(id: Seq<char>) -> Option<SymmetricAlgorithm> {
    if id == BELT_CTR@ {
        Some(SymmetricAlgorithm::BeltCtr)
    } else if id == AES_GCM@ {
        Some(SymmetricAlgorithm::AesGcm)
    } else {
        None
    }
}

/// The authenticated cipher that `id` names.
pub open spec fn spec_aead_algorithm(id: Seq<char>) -> Option<AeadAlgorithm> {
    if id == BELT_DWP@ {
        Some(AeadAlgorithm::BeltDwp)
    } else {
        None
    }
}

/// The random-number generator that `id` names.
pub open spec fn spec_rng_algorithm(id: Seq<char>) -> Option<RngAlgorithm> {
    if id == BELT_CTR@ {
        Some(RngAlgorithm::BeltCtr)
    } else if id == DEFAULT_RNG@ {
        Some(RngAlgorithm::Default)
    } else {
        None
    }
}

/// The hash function that `id` names.
pub fn hash_algorithm(id: &String) -> (r: Option<HashAlgorithm>)
    ensures
        r == spec_hash_algorithm(id@),
{
    if names(id, BASH512) {
        Some(HashAlgorithm::Bash512)
    } else {
        None
    }
}

/// The key-derivation function that `id` names.
pub fn kdf_algorithm(id: &String) -> (r: Option<KdfAlgorithm>)
    ensures
        r == spec_kdf_algorithm(id@),
{
    if names(id, BAKE_KDF) {
        Some(KdfAlgorithm::Bake)
    } else {
        None
    }
}

/// The Diffie-Hellman scheme that `id` names.
pub fn diffie_hellman_algorithm(id: &String) -> (r: Option<DiffieHellmanAlgorithm>)
    ensures
        r == spec_diffie_hellman_algorithm(id@),
{
    if names(id, BIGN_B3) {
        Some(DiffieHellmanAlgorithm::BignB3)
    } else {
        None
    }
}

/// The signature scheme that `id` names.
pub fn signature_algorithm(id: &String) -> (r: Option<SignatureAlgorithm>)
    ensures
        r == spec_signature_algorithm(id@),
{
    if names(id, BIGN_B3) {
        Some(SignatureAlgorithm::BignB3)
    } else {
        None
    }
}

/// The symmetric cipher that `id` names.
pub fn symmetric_algorithm(id: &String) -> (r: Option<SymmetricAlgorithm>)
    ensures
        r == spec_symmetric_algorithm(id@),
{
    if names(id, BELT_CTR) {
        Some(SymmetricAlgorithm::BeltCtr)
    } else if names(id, AES_GCM) {
        Some(SymmetricAlgorithm::AesGcm)
    } else {
        None
    }
}

/// The authenticated cipher that `id` names.
pub fn aead_algorithm(id: &String) -> (r: Option<AeadAlgorithm>)
    ensures
        r == spec_aead_algorithm(id@),
{
    if names(id, BELT_DWP) {
        Some(AeadAlgorithm::BeltDwp)
    } else {
        None
    }
}

/// The random-number generator that `id` names.
pub fn rng_algorithm(id: &String) -> (r: Option<RngAlgorithm>)
    ensures
        r == spec_rng_algorithm(id@),
{
    if names(id, BELT_CTR) {
        Some(RngAlgorithm::BeltCtr)
    } else if names(id, DEFAULT_RNG) {
        Some(RngAlgorithm::Default)
    } else {
        None
    }
}

/// The bytes of an optional key pair, private key first.
pub open spec fn spec_keypair(value: Option<(PrivateKey, PublicKey)>) -> Option<
    (Seq<u8>, Seq<u8>),
> {
    match value {
        Some((private_key, public_key)) => Some((private_key@, public_key@)),
        None => None,
    }
}

/// The bytes of the outcome of a decryption.
pub open spec fn spec_decrypted(value: Option<Option<Vec<u8>>>) -> Option<Option<Seq<u8>>> {
    match value {
        Some(inner) => Some(spec_bytes(inner)),
        None => None,
    }
}

/// Whether `out` may come of hashing `data`: an answer of the backend where
/// the hash role names a hash function, `None` where it does not.
pub open spec fn spec_hash<B: StbBackend>(
    backend: &B,
    names: AlgorithmNames,
    data: Seq<u8>,
    out: Option<Seq<u8>>,
) -> bool {
    match spec_hash_algorithm(names.hash) {
        Some(HashAlgorithm::Bash512) => may_bash512(backend, data, out),
        None => out is None,
    }
}

/// Hashes `data` with the hash function of the descriptor.
pub fn hash<B: StbBackend>(backend: &B, algorithms: &CryptoAlgorithms, data: &[u8]) -> (r: Option<
    Vec<u8>,
>)
    ensures
        spec_hash(backend, algorithms@, data@, spec_bytes(r)),
{
    match hash_algorithm(&algorithms.hash) {
        Some(HashAlgorithm::Bash512) => ask_bash512(backend, data),
        None => None,
    }
}

/// Whether the descriptor names what it takes to make a key pair: the
/// counter-mode generator and a signature scheme.
pub open spec fn spec_can_generate_keypair(names: AlgorithmNames) -> bool {
    spec_rng_algorithm(names.rng) == Some(RngAlgorithm::BeltCtr) && spec_signature_algorithm(
        names.signature,
    ) is Some
}

/// Whether `out` may come of making a key pair: an answer of the backend to
/// some seed of 32 bytes where the descriptor names what it takes, `None`
/// where it does not.
pub open spec fn spec_generate_keypair<B: StbBackend>(
    backend: &B,
    names: AlgorithmNames,
    out: Option<(Seq<u8>, Seq<u8>)>,
) -> bool {
    if spec_can_generate_keypair(names) {
        exists|seed: Seq<u8>|
            seed.len() == SEED_LEN && #[trigger] may_bign_keypair(backend, seed, out)
    } else {
        out is None
    }
}

/// Makes the keys of a backend's answer.
fn keypair_of(answer: Option<(Vec<u8>, Vec<u8>)>) -> (r: Option<(PrivateKey, PublicKey)>)
    ensures
        spec_keypair(r) == spec_bytes_pair(answer),
{
    match answer {
        Some((private_key, public_key)) => Some(
            (PrivateKey { sk: private_key }, PublicKey { pk: public_key }),
        ),
        None => None,
    }
}

/// Makes a fresh key pair for the signature scheme of the descriptor.
pub fn generate_keypair<B: StbBackend>(backend: &B, algorithms: &CryptoAlgorithms) -> (r: Option<
    (PrivateKey, PublicKey),
>)
    ensures
        spec_generate_keypair(backend, algorithms@, spec_keypair(r)),
{
    match rng_algorithm(&algorithms.rng) {
        Some(RngAlgorithm::BeltCtr) => match signature_algorithm(&algorithms.signature) {
            Some(SignatureAlgorithm::BignB3) => {
                let seed: Vec<u8> = get_iv();
                keypair_of(ask_bign_keypair(backend, seed.as_slice()))
            },
            None => None,
        },
        _ => None,
    }
}

/// Whether `out` may come of signing a digest: an answer of the backend to
/// some seed of 32 bytes where the signature role names a scheme, `None`
/// where it does not.
pub open spec fn spec_sign_digest<B: StbBackend>(
    backend: &B,
    names: AlgorithmNames,
    private_key: Seq<u8>,
    public_key: Seq<u8>,
    digest: Seq<u8>,
    out: Option<Seq<u8>>,
) -> bool {
    match spec_signature_algorithm(names.signature) {
        Some(SignatureAlgorithm::BignB3) => exists|seed: Seq<u8>|
            seed.len() == SEED_LEN && #[trigger] may_bign_sign(
                backend,
                private_key,
                public_key,
                digest,
                seed,
                out,
            ),
        None => out is None,
    }
}

/// Whether `out` may come of signing `data`: the data is hashed first, and
/// the digest is signed. `None` comes out where the hash or the signature
/// role names nothing, or the backend fails.
pub open spec fn spec_sign<B: StbBackend>(
    backend: &B,
    names: AlgorithmNames,
    private_key: Seq<u8>,
    public_key: Seq<u8>,
    data: Seq<u8>,
    out: Option<Seq<u8>>,
) -> bool {
    exists|digest: Option<Seq<u8>>| #[trigger]
        spec_hash(backend, names, data, digest) && match digest {
            Some(d) => spec_sign_digest(backend, names, private_key, public_key, d, out),
            None => out is None,
        }
}

/// Signs `data` with the key pair. The data is hashed here: callers hand in
/// the message, not its digest.
pub fn sign<B: StbBackend>(
    backend: &B,
    algorithms: &CryptoAlgorithms,
    private_key: PrivateKey,
    public_key: PublicKey,
    data: &[u8],
) -> (r: Option<Vec<u8>>)
    ensures
        spec_sign(backend, algorithms@, private_key@, public_key@, data@, spec_bytes(r)),
{
    let digest: Option<Vec<u8>> = hash(backend, algorithms, data);
    match digest {
        Some(d) => match signature_algorithm(&algorithms.signature) {
            Some(SignatureAlgorithm::BignB3) => {
                let seed: Vec<u8> = get_iv();
                let r: Option<Vec<u8>> = ask_bign_sign(
                    backend,
                    private_key.sk.as_slice(),
                    public_key.pk.as_slice(),
                    d.as_slice(),
                    seed.as_slice(),
                );
                r
            },
            None => {
                None
            },
        },
        None => {
            None
        },
    }
}

/// Whether `out` may come of checking `signature` on a digest: an answer of
/// the backend where the signature role names a scheme, `None` where it does
/// not.
pub open spec fn spec_verify_digest<B: StbBackend>(
    backend: &B,
    names: AlgorithmNames,
    public_key: Seq<u8>,
    digest: Seq<u8>,
    signature: Seq<u8>,
    out: Option<bool>,
) -> bool {
    match spec_signature_algorithm(names.signature) {
        Some(SignatureAlgorithm::BignB3) => out matches Some(ok) && may_bign_verify(
            backend,
            public_key,
            digest,
            signature,
            ok,
        ),
        None => out is None,
    }
}

/// Whether `out` may come of checking `signature` on `data`: the data is
/// hashed first, and the signature is checked on the digest. `None` comes out
/// where the hash or the signature role names nothing, or the backend fails
/// to hash.
pub open spec fn spec_verify<B: StbBackend>(
    backend: &B,
    names: AlgorithmNames,
    public_key: Seq<u8>,
    data: Seq<u8>,
    signature: Seq<u8>,
    out: Option<bool>,
) -> bool {
    exists|digest: Option<Seq<u8>>| #[trigger]
        spec_hash(backend, names, data, digest) && match digest {
            Some(d) => spec_verify_digest(backend, names, public_key, d, signature, out),
            None => out is None,
        }
}

/// Checks `signature` on `data` against `public_key`.
pub fn verify<B: StbBackend>(
    backend: &B,
    algorithms: &CryptoAlgorithms,
    public_key: PublicKey,
    data: &[u8],
    signature: &[u8],
) -> (r: Option<bool>)
    ensures
        spec_verify(backend, algorithms@, public_key@, data@, signature@, r),
{
    let digest: Option<Vec<u8>> = hash(backend, algorithms, data);
    match digest {
        Some(d) => match signature_algorithm(&algorithms.signature) {
            Some(SignatureAlgorithm::BignB3) => {
                let ok: bool = ask_bign_verify(
                    backend,
                    public_key.pk.as_slice(),
                    d.as_slice(),
                    signature,
                );
                Some(ok)
            },
            None => {
                None
            },
        },
        None => {
            None
        },
    }
}

/// Whether `out` may come of a Diffie-Hellman agreement: an answer of the
/// backend where the role names a scheme, `None` where it does not.
pub open spec fn spec_diffie_hellman<B: StbBackend>(
    backend: &B,
    names: AlgorithmNames,
    self_private_key: Seq<u8>,
    self_public_key: Seq<u8>,
    other_public_key: Seq<u8>,
    out: Option<Seq<u8>>,
) -> bool {
    match spec_diffie_hellman_algorithm(names.diffie_hellman) {
        Some(DiffieHellmanAlgorithm::BignB3) => may_bign_diffie_hellman(
            backend,
            self_private_key,
            self_public_key,
            other_public_key,
            out,
        ),
        None => out is None,
    }
}

/// The secret that the caller's key pair and the other party's public key
/// agree on.
pub fn diffie_hellman<B: StbBackend>(
    backend: &B,
    algorithms: &CryptoAlgorithms,
    self_private_key: PrivateKey,
    self_public_key: PublicKey,
    other_public_key: PublicKey,
) -> (r: Option<Vec<u8>>)
    ensures
        spec_diffie_hellman(
            backend,
            algorithms@,
            self_private_key@,
            self_public_key@,
            other_public_key@,
            spec_bytes(r),
        ),
{
    match diffie_hellman_algorithm(&algorithms.diffie_hellman) {
        Some(DiffieHellmanAlgorithm::BignB3) => ask_bign_diffie_hellman(
            backend,
            self_private_key.sk.as_slice(),
            self_public_key.pk.as_slice(),
            other_public_key.pk.as_slice(),
        ),
        None => None,
    }
}

/// A derived block stretched to `len` bytes: the block, repeated as often as
/// it takes, cut off after `len` bytes.
pub open spec fn spec_stretch(block: Seq<u8>, len: nat) -> Seq<u8> {
    Seq::new(len, |i: int| block[i % (KDF_BLOCK_LEN as int)])
}

/// What is derived from the backend's answer `block`: the block stretched to
/// `len` bytes where it is a block of 32 bytes, nothing where it is not.
pub open spec fn spec_derived(block: Option<Seq<u8>>, len: nat) -> Option<Seq<u8>> {
    match block {
        Some(bytes) => if bytes.len() == KDF_BLOCK_LEN {
            Some(spec_stretch(bytes, len))
        } else {
            None
        },
        None => None,
    }
}

/// Stretches what the backend derived to `result_len` bytes.
pub fn stretch(block: Option<Vec<u8>>, result_len: usize) -> (r: Option<Vec<u8>>)
    ensures
        spec_bytes(r) == spec_derived(spec_bytes(block), result_len as nat),
{
    match block {
        Some(bytes) => {
            if bytes.len() != 32 {
                return None;
            }
            let mut out: Vec<u8> = Vec::new();
            let mut i: usize = 0;
            while i < result_len
                invariant
                    i <= result_len,
                    bytes@.len() == 32,
                    out@ == spec_stretch(bytes@, i as nat),
                decreases result_len - i,
            {
                out.push(bytes[i % 32]);
                i = i + 1;
            }
            Some(out)
        },
        None => None,
    }
}

/// Whether `out` may come of deriving `len` bytes from `data`: what is
/// derived from an answer of the backend where the role names a function,
/// `None` where it does not.
pub open spec fn spec_kdf<B: StbBackend>(
    backend: &B,
    names: AlgorithmNames,
    data: Seq<u8>,
    len: nat,
    out: Option<Seq<u8>>,
) -> bool {
    match spec_kdf_algorithm(names.kdf) {
        Some(KdfAlgorithm::Bake) => exists|block: Option<Seq<u8>>| #[trigger]
            may_bake_kdf(backend, data, block) && out == spec_derived(block, len),
        None => out is None,
    }
}

/// Derives `result_len` bytes from `data`: one block of the backend,
/// stretched to the length asked for. With a backend that derives as a
/// function, the same data always gives the same bytes, and a longer result
/// starts with the shorter one.
pub fn kdf<B: StbBackend>(
    backend: &B,
    algorithms: &CryptoAlgorithms,
    data: &[u8],
    result_len: usize,
) -> (r: Option<Vec<u8>>)
    ensures
        spec_kdf(backend, algorithms@, data@, result_len as nat, spec_bytes(r)),
        r matches Some(bytes) ==> bytes@.len() == result_len,
{
    match kdf_algorithm(&algorithms.kdf) {
        Some(KdfAlgorithm::Bake) => {
            let block: Option<Vec<u8>> = ask_bake_kdf(backend, data);
            stretch(block, result_len)
        },
        None => None,
    }
}

/// Whether the descriptor names what it takes to derive a key pair: a
/// key-derivation function and a signature scheme.
pub open spec fn spec_can_derive_keypair(names: AlgorithmNames) -> bool {
    spec_kdf_algorithm(names.kdf) is Some && spec_signature_algorithm(names.signature) is Some
}

/// Whether `out` may come of deriving a key pair from `data`: 32 bytes are
/// derived from the data, and the backend answers with a key pair for them as
/// the seed.
pub open spec fn spec_kdf_keypair<B: StbBackend>(
    backend: &B,
    names: AlgorithmNames,
    data: Seq<u8>,
    out: Option<(Seq<u8>, Seq<u8>)>,
) -> bool {
    if spec_can_derive_keypair(names) {
        exists|seed: Option<Seq<u8>>| #[trigger]
            spec_kdf(backend, names, data, KDF_BLOCK_LEN as nat, seed) && match seed {
                Some(s) => may_bign_keypair(backend, s, out),
                None => out is None,
            }
    } else {
        out is None
    }
}

/// Derives a key pair from `data`, such as a password: the same data gives
/// the same key pair wherever the backend answers alike.
pub fn kdf_keypair<B: StbBackend>(backend: &B, algorithms: &CryptoAlgorithms, data: &[u8]) -> (r:
    Option<(PrivateKey, PublicKey)>)
    ensures
        spec_kdf_keypair(backend, algorithms@, data@, spec_keypair(r)),
{
    match signature_algorithm(&algorithms.signature) {
        Some(SignatureAlgorithm::BignB3) => {
            let seed: Option<Vec<u8>> = kdf(backend, algorithms, data, 32);
            match seed {
                Some(s) => keypair_of(ask_bign_keypair(backend, s.as_slice())),
                None => None,
            }
        },
        None => None,
    }
}

/// Whether `out`, a ciphertext and its tag, may come of wrapping `plaintext`:
/// an answer of the backend where the role names a cipher and the key has 32
/// bytes, `None` otherwise.
pub open spec fn spec_aead_wrap<B: StbBackend>(
    backend: &B,
    names: AlgorithmNames,
    plaintext: Seq<u8>,
    key: Seq<u8>,
    public_data: Seq<u8>,
    out: Option<(Seq<u8>, Seq<u8>)>,
) -> bool {
    match spec_aead_algorithm(names.aead) {
        Some(AeadAlgorithm::BeltDwp) => if key.len() == AEAD_KEY_LEN {
            may_belt_dwp_wrap(backend, plaintext, public_data, key, out)
        } else {
            out is None
        },
        None => out is None,
    }
}

/// Encrypts `plaintext` under `key` and binds the ciphertext to
/// `public_data`. Gives the ciphertext and the tag.
pub fn aead_wrap<B: StbBackend>(
    backend: &B,
    algorithms: &CryptoAlgorithms,
    plaintext: &[u8],
    key: PrivateKey,
    public_data: &[u8],
) -> (r: Option<(Vec<u8>, Vec<u8>)>)
    ensures
        spec_aead_wrap(backend, algorithms@, plaintext@, key@, public_data@, spec_bytes_pair(r)),
{
    match aead_algorithm(&algorithms.aead) {
        Some(AeadAlgorithm::BeltDwp) => {
            if key.sk.len() == 32 {
                ask_belt_dwp_wrap(backend, plaintext, public_data, key.sk.as_slice())
            } else {
                None
            }
        },
        None => None,
    }
}

/// Whether `out` may come of unwrapping `ciphertext`: the outer `None` where
/// the role names no cipher or the key has not 32 bytes, otherwise an answer
/// of the backend, which is `None` where the tag does not fit.
pub open spec fn spec_aead_unwrap<B: StbBackend>(
    backend: &B,
    names: AlgorithmNames,
    ciphertext: Seq<u8>,
    public_data: Seq<u8>,
    mac: Seq<u8>,
    key: Seq<u8>,
    out: Option<Option<Seq<u8>>>,
) -> bool {
    match spec_aead_algorithm(names.aead) {
        Some(AeadAlgorithm::BeltDwp) => if key.len() == AEAD_KEY_LEN {
            out matches Some(inner) && may_belt_dwp_unwrap(
                backend,
                ciphertext,
                public_data,
                mac,
                key,
                inner,
            )
        } else {
            out is None
        },
        None => out is None,
    }
}

/// Decrypts `ciphertext` under `key` if `mac` fits it and `public_data`.
pub fn aead_unwrap<B: StbBackend>(
    backend: &B,
    algorithms: &CryptoAlgorithms,
    ciphertext: &[u8],
    public_data: &[u8],
    mac: &[u8],
    key: PrivateKey,
) -> (r: Option<Option<Vec<u8>>>)
    ensures
        spec_aead_unwrap(
            backend,
            algorithms@,
            ciphertext@,
            public_data@,
            mac@,
            key@,
            spec_decrypted(r),
        ),
{
    match aead_algorithm(&algorithms.aead) {
        Some(AeadAlgorithm::BeltDwp) => {
            if key.sk.len() == 32 {
                Some(ask_belt_dwp_unwrap(backend, ciphertext, public_data, mac, key.sk.as_slice()))
            } else {
                None
            }
        },
        None => None,
    }
}

/// A ciphertext body behind the initial value that it was made with.
pub open spec fn spec_framed(iv: Seq<u8>, body: Option<Seq<u8>>) -> Option<Seq<u8>> {
    match body {
        Some(bytes) => Some(iv + bytes),
        None => None,
    }
}

/// Whether `out` may come of encrypting `plaintext` under `key`.
///
/// Belt in counter mode takes a key of 16, 24 or 32 bytes; the ciphertext is
/// some initial value of 16 bytes followed by the backend's answer for that
/// value. AES gives what it makes of the plaintext under some nonce of 12
/// bytes. `None` comes out where the role names no cipher, the key has
/// another length, or the cipher fails.
pub open spec fn spec_symmetric_encrypt<B: StbBackend>(
    backend: &B,
    names: AlgorithmNames,
    plaintext: Seq<u8>,
    key: Seq<u8>,
    out: Option<Seq<u8>>,
) -> bool {
    match spec_symmetric_algorithm(names.symmetric_encryption) {
        Some(SymmetricAlgorithm::BeltCtr) => if spec_is_key_len(key.len()) {
            exists|iv: Seq<u8>, body: Option<Seq<u8>>|
                iv.len() == CTR_IV_LEN && #[trigger] may_belt_ctr_encrypt(
                    backend,
                    plaintext,
                    key,
                    iv,
                    body,
                ) && out == spec_framed(iv, body)
        } else {
            out is None
        },
        Some(SymmetricAlgorithm::AesGcm) => exists|nonce: Seq<u8>|
            nonce.len() == NONCE_LEN && out == #[trigger] spec_aes_encrypt(key, nonce, plaintext),
        None => out is None,
    }
}

/// Whether `out` may come of decrypting `ciphertext` under `key`.
///
/// The outer `None` comes out where the role names no cipher or the key has
/// no valid length. Belt in counter mode reads the first 16 bytes as the
/// initial value and gives the backend's answer for the rest, and fails on a
/// shorter ciphertext.
pub open spec fn spec_symmetric_decrypt<B: StbBackend>(
    backend: &B,
    names: AlgorithmNames,
    ciphertext: Seq<u8>,
    key: Seq<u8>,
    out: Option<Option<Seq<u8>>>,
) -> bool {
    match spec_symmetric_algorithm(names.symmetric_encryption) {
        Some(SymmetricAlgorithm::BeltCtr) => if !spec_is_key_len(key.len()) {
            out is None
        } else if ciphertext.len() < CTR_IV_LEN {
            out == Some(None::<Seq<u8>>)
        } else {
            out matches Some(inner) && may_belt_ctr_decrypt(
                backend,
                ciphertext.skip(CTR_IV_LEN as int),
                key,
                ciphertext.subrange(0, CTR_IV_LEN as int),
                inner,
            )
        },
        Some(SymmetricAlgorithm::AesGcm) => out == spec_aes_decrypt(key, ciphertext),
        None => out is None,
    }
}

/// Puts a ciphertext body behind its initial value.
fn framed(iv: &[u8], body: Option<Vec<u8>>) -> (r: Option<Vec<u8>>)
    ensures
        spec_bytes(r) == spec_framed(iv@, spec_bytes(body)),
{
    match body {
        Some(bytes) => Some(concat_bytes(iv, bytes.as_slice())),
        None => None,
    }
}

/// Encrypts `plaintext` under `key` with the symmetric cipher of the
/// descriptor, with a fresh initial value each time. With AES, what comes out
/// decrypts to the plaintext, and something comes out whenever the cipher
/// takes the plaintext under that key.
pub fn symmetric_encrypt<B: StbBackend>(
    backend: &B,
    algorithms: &CryptoAlgorithms,
    plaintext: &[u8],
    key: &[u8],
) -> (r: Option<Vec<u8>>)
    ensures
        spec_symmetric_encrypt(backend, algorithms@, plaintext@, key@, spec_bytes(r)),
        spec_symmetric_algorithm(algorithms@.symmetric_encryption) == Some(
            SymmetricAlgorithm::AesGcm,
        ) ==> {
            &&& spec_aes_accepts(key@.len(), plaintext@.len()) ==> r is Some
            &&& r matches Some(ciphertext) ==> spec_aes_decrypt(key@, ciphertext@) == Some(
                Some(plaintext@),
            )
        },
{
    match symmetric_algorithm(&algorithms.symmetric_encryption) {
        Some(SymmetricAlgorithm::BeltCtr) => {
            if !is_key_len(key.len()) {
                return None;
            }
            let seed: Vec<u8> = get_iv();
            let iv: Vec<u8> = sub_bytes(seed.as_slice(), 0, 16);
            let body: Option<Vec<u8>> = ask_belt_ctr_encrypt(
                backend,
                plaintext,
                key,
                iv.as_slice(),
            );
            framed(iv.as_slice(), body)
        },
        Some(SymmetricAlgorithm::AesGcm) => {
            let seed: Vec<u8> = get_iv();
            let nonce: Vec<u8> = sub_bytes(seed.as_slice(), 0, 12);
            let r: Option<Vec<u8>> = aes_encrypt_with_nonce(plaintext, key, nonce.as_slice());
            r
        },
        None => None,
    }
}

/// Decrypts `ciphertext` under `key` with the symmetric cipher of the
/// descriptor. The outer `None` says that the cipher or the key's length is
/// not supported, the inner one that the ciphertext could not be decrypted.
pub fn symmetric_decrypt<B: StbBackend>(
    backend: &B,
    algorithms: &CryptoAlgorithms,
    ciphertext: &[u8],
    key: &[u8],
) -> (r: Option<Option<Vec<u8>>>)
    ensures
        spec_symmetric_decrypt(backend, algorithms@, ciphertext@, key@, spec_decrypted(r)),
{
    match symmetric_algorithm(&algorithms.symmetric_encryption) {
        Some(SymmetricAlgorithm::BeltCtr) => {
            if !is_key_len(key.len()) {
                return None;
            }
            if ciphertext.len() < 16 {
                return Some(None);
            }
            let iv: Vec<u8> = sub_bytes(ciphertext, 0, 16);
            let body: Vec<u8> = sub_bytes(ciphertext, 16, ciphertext.len());
            Some(ask_belt_ctr_decrypt(backend, body.as_slice(), key, iv.as_slice()))
        },
        Some(SymmetricAlgorithm::AesGcm) => aes_decrypt(ciphertext, key),
        None => None,
    }
}

/// The backend's bytes where there are exactly `len` of them.
pub open spec fn spec_exactly(raw: Option<Seq<u8>>, len: nat) -> Option<Seq<u8>> {
    match raw {
        Some(bytes) => if bytes.len() == len {
            Some(bytes)
        } else {
            None
        },
        None => None,
    }
}

/// Keeps the backend's bytes where there are exactly `len` of them.
pub fn exactly(raw: Option<Vec<u8>>, len: usize) -> (r: Option<Vec<u8>>)
    ensures
        spec_bytes(r) == spec_exactly(spec_bytes(raw), len as nat),
{
    match raw {
        Some(bytes) => if bytes.len() == len {
            Some(bytes)
        } else {
            None
        },
        None => None,
    }
}

/// Whether the descriptor names what it takes to make a symmetric key: the
/// counter-mode generator and belt in counter mode.
pub open spec fn spec_can_generate_key(names: AlgorithmNames) -> bool {
    spec_rng_algorithm(names.rng) == Some(RngAlgorithm::BeltCtr) && spec_symmetric_algorithm(
        names.symmetric_encryption,
    ) == Some(SymmetricAlgorithm::BeltCtr)
}

/// Whether `out` may come of making a symmetric key of the given strength:
/// the backend's bytes for some seed of 32 bytes, where there are as many as
/// the strength asks for.
pub open spec fn spec_symmetric_genkey<B: StbBackend>(
    backend: &B,
    names: AlgorithmNames,
    strength: KeyStrength,
    out: Option<Seq<u8>>,
) -> bool {
    if spec_can_generate_key(names) {
        exists|seed: Seq<u8>, raw: Option<Seq<u8>>|
            seed.len() == SEED_LEN && #[trigger] may_brng_ctr(
                backend,
                seed,
                strength.spec_key_len() as usize,
                raw,
            ) && out == spec_exactly(raw, strength.spec_key_len())
    } else {
        out is None
    }
}

/// Makes a fresh symmetric key: 16 bytes for `High`, 24 for `VeryHigh`, 32
/// for `ExtremelyHigh`.
pub fn symmetric_genkey<B: StbBackend>(
    backend: &B,
    algorithms: &CryptoAlgorithms,
    strength: KeyStrength,
) -> (r: Option<Vec<u8>>)
    ensures
        spec_symmetric_genkey(backend, algorithms@, strength, spec_bytes(r)),
        r matches Some(key) ==> key@.len() == strength.spec_key_len(),
{
    match rng_algorithm(&algorithms.rng) {
        Some(RngAlgorithm::BeltCtr) => match symmetric_algorithm(&algorithms.symmetric_encryption) {
            Some(SymmetricAlgorithm::BeltCtr) => {
                let seed: Vec<u8> = get_iv();
                let len: usize = strength.key_len();
                let raw: Option<Vec<u8>> = ask_brng_ctr(backend, seed.as_slice(), len);
                let ghost answer = spec_bytes(raw);
                let r: Option<Vec<u8>> = exactly(raw, len);
                proof {
                    assert(may_brng_ctr(backend, seed@, strength.spec_key_len() as usize, answer));
                }
                r
            },
            _ => None,
        },
        _ => None,
    }
}

/// Whether a buffer that held `before` may hold `after` once it was filled,
/// with `done` as the result.
///
/// The counter-mode generator gives the backend's bytes for some seed of 32
/// bytes, where there are as many as the buffer holds. The default generator
/// always succeeds. Where the role names no generator, or the backend does
/// not give the bytes, the buffer is left as it was and the result is `None`.
pub open spec fn spec_rng_fill<B: StbBackend>(
    backend: &B,
    names: AlgorithmNames,
    before: Seq<u8>,
    after: Seq<u8>,
    done: Option<()>,
) -> bool {
    match spec_rng_algorithm(names.rng) {
        Some(RngAlgorithm::BeltCtr) => exists|seed: Seq<u8>, raw: Option<Seq<u8>>|
            seed.len() == SEED_LEN && #[trigger] may_brng_ctr(
                backend,
                seed,
                before.len() as usize,
                raw,
            ) && match spec_exactly(raw, before.len()) {
                Some(bytes) => done is Some && after == bytes,
                None => done is None && after == before,
            },
        Some(RngAlgorithm::Default) => done is Some && after.len() == before.len(),
        None => done is None && after == before,
    }
}

/// Fills `buffer` with random bytes from the generator of the descriptor.
pub fn rng_fill<B: StbBackend>(backend: &B, algorithms: &CryptoAlgorithms, buffer: &mut [u8]) -> (r:
    Option<()>)
    ensures
        spec_rng_fill(backend, algorithms@, old(buffer)@, final(buffer)@, r),
        final(buffer)@.len() == old(buffer)@.len(),
{
    match rng_algorithm(&algorithms.rng) {
        Some(RngAlgorithm::BeltCtr) => {
            let seed: Vec<u8> = get_iv();
            let len: usize = buffer.len();
            let raw: Option<Vec<u8>> = ask_brng_ctr(backend, seed.as_slice(), len);
            let ghost answer = spec_bytes(raw);
            proof {
                assert(may_brng_ctr(backend, seed@, old(buffer)@.len() as usize, answer));
            }
            match exactly(raw, len) {
                Some(bytes) => {
                    copy_into(buffer, bytes.as_slice());
                    Some(())
                },
                None => None,
            }
        },
        Some(RngAlgorithm::Default) => {
            fill_random(buffer);
            Some(())
        },
        None => None,
    }
}

/// The descriptor of the national-standard family names a primitive of the
/// registry in every role.
pub proof fn lemma_national_descriptor_is_served()
    ensures
        spec_hash_algorithm(spec_prequantum_bee2rs().hash) == Some(HashAlgorithm::Bash512),
        spec_kdf_algorithm(spec_prequantum_bee2rs().kdf) == Some(KdfAlgorithm::Bake),
        spec_diffie_hellman_algorithm(spec_prequantum_bee2rs().diffie_hellman) == Some(
            DiffieHellmanAlgorithm::BignB3,
        ),
        spec_signature_algorithm(spec_prequantum_bee2rs().signature) == Some(
            SignatureAlgorithm::BignB3,
        ),
        spec_symmetric_algorithm(spec_prequantum_bee2rs().symmetric_encryption) == Some(
            SymmetricAlgorithm::BeltCtr,
        ),
        spec_aead_algorithm(spec_prequantum_bee2rs().aead) == Some(AeadAlgorithm::BeltDwp),
        spec_rng_algorithm(spec_prequantum_bee2rs().rng) == Some(RngAlgorithm::BeltCtr),
        spec_can_generate_keypair(spec_prequantum_bee2rs()),
        spec_can_derive_keypair(spec_prequantum_bee2rs()),
        spec_can_generate_key(spec_prequantum_bee2rs()),
{
}

/// The descriptor of the conventional family names a primitive of the
/// registry in two roles only: its symmetric cipher and its generator. Every
/// operation that goes by another role refuses it.
pub proof fn lemma_standard_descriptor_is_served_in_part()
    ensures
        spec_hash_algorithm(spec_prequantum_standard().hash) is None,
        spec_kdf_algorithm(spec_prequantum_standard().kdf) is None,
        spec_diffie_hellman_algorithm(spec_prequantum_standard().diffie_hellman) is None,
        spec_signature_algorithm(spec_prequantum_standard().signature) is None,
        spec_symmetric_algorithm(spec_prequantum_standard().symmetric_encryption) == Some(
            SymmetricAlgorithm::AesGcm,
        ),
        spec_aead_algorithm(spec_prequantum_standard().aead) is None,
        spec_rng_algorithm(spec_prequantum_standard().rng) == Some(RngAlgorithm::Default),
        !spec_can_generate_keypair(spec_prequantum_standard()),
        !spec_can_derive_keypair(spec_prequantum_standard()),
        !spec_can_generate_key(spec_prequantum_standard()),
{
    reveal_strlit("bee2-rs::bash512");
    reveal_strlit("bee2-rs::pbkdf2");
    reveal_strlit("bee2-rs::bignb3");
    reveal_strlit("bee2-rs::belt-ctr");
    reveal_strlit("bee2-rs::belt256-dwp");
    reveal_strlit("rustcrypto::aes-gcm");
    reveal_strlit("rustcrypto::pbkdf2");
    reveal_strlit("dalek::x25519");
    reveal_strlit("dalek::ed25519");
    reveal_strlit("default");
    assert(AES_GCM@.len() == 19);
    assert(BASH512@.len() == 16);
    assert(BAKE_KDF@.len() == 15);
    assert(BIGN_B3@.len() == 15);
    assert(BELT_CTR@.len() == 17);
    assert(BELT_DWP@.len() == 20);
    assert(DEFAULT_RNG@.len() == 7);
    assert(spec_prequantum_standard().kdf.len() == 18);
    assert(spec_prequantum_standard().diffie_hellman.len() == 13);
    assert(spec_prequantum_standard().signature.len() == 14);
}

} // verus!
