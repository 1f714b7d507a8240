//! The X3DH key agreement: a receiver publishes a bundle of public keys, an
//! initiator uses it to encrypt a payload for the receiver while the receiver
//! is offline, and the receiver recovers the payload with the private keys
//! behind the bundle.

use vstd::bytes::{spec_u32_from_le_bytes, u32_from_le_bytes};
use vstd::prelude::*;
use vstd::slice::slice_to_vec;

use crate::algorithms::{AlgorithmNames, CryptoAlgorithms};
use crate::backend::StbBackend;
use crate::bytes::{
    concat_bytes, extend_bytes, lemma_concat_injective, spec_bytes, spec_bytes_pair,
};
use crate::keys::{PrivateKey, PublicKey};
use crate::registry::{
    aead_unwrap, aead_wrap, diffie_hellman, generate_keypair, kdf, rng_fill, sign,
    spec_aead_unwrap, spec_aead_wrap, spec_decrypted, spec_diffie_hellman, spec_generate_keypair,
    spec_kdf, spec_keypair, spec_rng_fill, spec_sign, spec_verify, verify,
};

verus! {

/// The number of one-time prekeys in a freshly made bundle.
pub const OPK_BATCH: usize = 10;

/// The number of bytes of a key derived for the payload.
pub const DERIVED_KEY_LEN: usize = 32;

/// What a receiver publishes so that anyone can start a handshake with them.
#[derive(Debug, PartialEq, Eq)]
pub struct X3DhReceiverKeysPublic {
    pub algorithms: CryptoAlgorithms,
    /// The identity key.
    pub ik: PublicKey,
    /// The signed prekey.
    pub spk: PublicKey,
    /// The signature on the signed prekey by the identity key.
    pub spk_signature: Vec<u8>,
    /// The one-time prekeys.
    pub opks: Vec<PublicKey>,
}

/// The private keys behind a published bundle, the one-time prekeys in the
/// order of the public ones.
#[derive(PartialEq, Eq)]
pub struct X3DhReceiverKeysPrivate {
    pub ik: PrivateKey,
    pub spk: PrivateKey,
    pub opks: Vec<PrivateKey>,
}

/// A handshake message.
pub struct X3DhData {
    /// The initiator's ephemeral public key.
    pub ek_pub: PublicKey,
    /// Which of the receiver's one-time prekeys was used, if any.
    pub opk_id: Option<u32>,
    pub ciphertext: Vec<u8>,
    /// The tag that authenticates the ciphertext and the two identities.
    pub mac: Vec<u8>,
    /// The initiator's signature on the ephemeral key, the one-time prekey
    /// used and the ciphertext.
    pub signature: Vec<u8>,
}

/// Why a handshake message could not be made or read.
#[derive(Clone, Copy, Debug, PartialEq, Eq, Structural)]
pub enum X3DhError {
    AlgorithmNotSupported,
    InvalidSignature,
    DecryptionFailure,
    InvalidOpkKeyId,
}

/// What a public bundle holds.
pub struct ReceiverKeysPublicView {
    pub algorithms: AlgorithmNames,
    pub ik: Seq<u8>,
    pub spk: Seq<u8>,
    pub spk_signature: Seq<u8>,
    pub opks: Seq<Seq<u8>>,
}

/// What a private bundle holds.
pub struct ReceiverKeysPrivateView {
    pub ik: Seq<u8>,
    pub spk: Seq<u8>,
    pub opks: Seq<Seq<u8>>,
}

/// What a handshake message holds.
pub struct X3DhDataView {
    pub ek_pub: Seq<u8>,
    pub opk_id: Option<u32>,
    pub ciphertext: Seq<u8>,
    pub mac: Seq<u8>,
    pub signature: Seq<u8>,
}

impl View for X3DhReceiverKeysPublic {
    type V = ReceiverKeysPublicView;

    open spec fn view(&self) -> ReceiverKeysPublicView {
        ReceiverKeysPublicView {
            algorithms: self.algorithms@,
            ik: self.ik@,
            spk: self.spk@,
            spk_signature: self.spk_signature@,
            opks: Seq::new(self.opks@.len(), |i: int| self.opks@[i]@),
        }
    }
}

impl View for X3DhReceiverKeysPrivate {
    type V = ReceiverKeysPrivateView;

    open spec fn view(&self) -> ReceiverKeysPrivateView {
        ReceiverKeysPrivateView {
            ik: self.ik@,
            spk: self.spk@,
            opks: Seq::new(self.opks@.len(), |i: int| self.opks@[i]@),
        }
    }
}

impl View for X3DhData {
    type V = X3DhDataView;

    open spec fn view(&self) -> X3DhDataView {
        X3DhDataView {
            ek_pub: self.ek_pub@,
            opk_id: self.opk_id,
            ciphertext: self.ciphertext@,
            mac: self.mac@,
            signature: self.signature@,
        }
    }
}

/// A copy of a list of public keys.
fn clone_public_keys(keys: &Vec<PublicKey>) -> (r: Vec<PublicKey>)
    ensures
        r@.len() == keys@.len(),
        forall|i: int| 0 <= i < r@.len() ==> (#[trigger] r@[i])@ == keys@[i]@,
{
    let mut out: Vec<PublicKey> = Vec::new();
    let mut i: usize = 0;
    while i < keys.len()
        invariant
            i <= keys@.len(),
            out@.len() == i,
            forall|j: int| 0 <= j < i ==> (#[trigger] out@[j])@ == keys@[j]@,
        decreases keys@.len() - i,
    {
        out.push(keys[i].clone());
        i = i + 1;
    }
    out
}

/// A copy of a list of private keys.
fn clone_private_keys(keys: &Vec<PrivateKey>) -> (r: Vec<PrivateKey>)
    ensures
        r@.len() == keys@.len(),
        forall|i: int| 0 <= i < r@.len() ==> (#[trigger] r@[i])@ == keys@[i]@,
{
    let mut out: Vec<PrivateKey> = Vec::new();
    let mut i: usize = 0;
    while i < keys.len()
        invariant
            i <= keys@.len(),
            out@.len() == i,
            forall|j: int| 0 <= j < i ==> (#[trigger] out@[j])@ == keys@[j]@,
        decreases keys@.len() - i,
    {
        out.push(keys[i].clone());
        i = i + 1;
    }
    out
}

impl Clone for X3DhReceiverKeysPublic {
    fn clone(&self) -> (r: Self)
        ensures
            r@ == self@,
    {
        let r = X3DhReceiverKeysPublic {
            algorithms: self.algorithms.clone(),
            ik: self.ik.clone(),
            spk: self.spk.clone(),
            spk_signature: slice_to_vec(self.spk_signature.as_slice()),
            opks: clone_public_keys(&self.opks),
        };
        assert(r@.opks == self@.opks);
        r
    }
}

impl Clone for X3DhReceiverKeysPrivate {
    fn clone(&self) -> (r: Self)
        ensures
            r@ == self@,
    {
        let r = X3DhReceiverKeysPrivate {
            ik: self.ik.clone(),
            spk: self.spk.clone(),
            opks: clone_private_keys(&self.opks),
        };
        assert(r@.opks == self@.opks);
        r
    }
}

impl Clone for X3DhData {
    fn clone(&self) -> (r: Self)
        ensures
            r@ == self@,
    {
        X3DhData {
            ek_pub: self.ek_pub.clone(),
            opk_id: self.opk_id,
            ciphertext: slice_to_vec(self.ciphertext.as_slice()),
            mac: slice_to_vec(self.mac.as_slice()),
            signature: slice_to_vec(self.signature.as_slice()),
        }
    }
}

impl X3DhError {
    /// The error in words.
    pub fn message(&self) -> (r: &'static str)
        ensures
            r@ == match *self {
                X3DhError::AlgorithmNotSupported => "Algorithm not supported"@,
                X3DhError::InvalidSignature => "Invalid signature"@,
                X3DhError::DecryptionFailure => "Decryption failure"@,
                X3DhError::InvalidOpkKeyId => "Invalid OPK key id"@,
            },
    {
        match *self {
            X3DhError::AlgorithmNotSupported => "Algorithm not supported",
            X3DhError::InvalidSignature => "Invalid signature",
            X3DhError::DecryptionFailure => "Decryption failure",
            X3DhError::InvalidOpkKeyId => "Invalid OPK key id",
        }
    }
}

/// The one-time prekey that a random number picks among `count`: none where
/// there is none to pick, else the number reduced modulo `count`.
pub open spec fn spec_opk_index(random: u32, count: nat) -> Option<u32> {
    if count == 0 {
        None
    } else {
        Some((random as nat % count) as u32)
    }
}

/// Picks a one-time prekey among `count`, of which there is at least one, by
/// a random number.
pub fn pick_opk_index(random: u32, count: usize) -> (r: u32)
    requires
        count > 0,
    ensures
        spec_opk_index(random, count as nat) == Some(r),
        r < count,
{
    let reduced: u64 = (random as u64) % (count as u64);
    reduced as u32
}

/// Picks a one-time prekey among `count` by a random number, or none where
/// there is none to pick.
pub fn choose_opk_index(random: u32, count: usize) -> (r: Option<u32>)
    ensures
        r == spec_opk_index(random, count as nat),
        r matches Some(i) ==> i < count,
{
    if count == 0 {
        None
    } else {
        Some(pick_opk_index(random, count))
    }
}

/// The associated data of a handshake: the initiator's identity key followed
/// by the receiver's.
pub open spec fn spec_associated_data(initiator_ik: Seq<u8>, receiver_ik: Seq<u8>) -> Seq<u8> {
    initiator_ik + receiver_ik
}

/// The bytes that the initiator signs: the ephemeral key, the one-time prekey
/// used, if any, and the ciphertext.
pub open spec fn spec_signed_payload(
    ek_pub: Seq<u8>,
    opk: Option<Seq<u8>>,
    ciphertext: Seq<u8>,
) -> Seq<u8> {
    match opk {
        Some(key) => ek_pub + key + ciphertext,
        None => ek_pub + ciphertext,
    }
}

/// The input of the key derivation: the three agreements in their order,
/// followed by the fourth where a one-time prekey was used.
pub open spec fn spec_agreements(
    dh1: Seq<u8>,
    dh2: Seq<u8>,
    dh3: Seq<u8>,
    dh4: Option<Seq<u8>>,
) -> Seq<u8> {
    match dh4 {
        Some(fourth) => dh1 + dh2 + dh3 + fourth,
        None => dh1 + dh2 + dh3,
    }
}

/// The associated data of a handshake.
pub fn associated_data(initiator_ik: &PublicKey, receiver_ik: &PublicKey) -> (r: Vec<u8>)
    ensures
        r@ == spec_associated_data(initiator_ik@, receiver_ik@),
{
    concat_bytes(initiator_ik.pk.as_slice(), receiver_ik.pk.as_slice())
}

/// The bytes that the initiator signs.
pub fn signed_payload(ek_pub: &PublicKey, opk: Option<&PublicKey>, ciphertext: &[u8]) -> (r: Vec<
    u8,
>)
    ensures
        r@ == spec_signed_payload(
            ek_pub@,
            match opk {
                Some(key) => Some(key@),
                None => None,
            },
            ciphertext@,
        ),
{
    let mut out: Vec<u8> = slice_to_vec(ek_pub.pk.as_slice());
    match opk {
        Some(key) => {
            extend_bytes(&mut out, key.pk.as_slice());
        },
        None => {},
    }
    extend_bytes(&mut out, ciphertext);
    out
}

/// The input of the key derivation.
pub fn agreements(dh1: &[u8], dh2: &[u8], dh3: &[u8], dh4: Option<&Vec<u8>>) -> (r: Vec<u8>)
    ensures
        r@ == spec_agreements(
            dh1@,
            dh2@,
            dh3@,
            match dh4 {
                Some(fourth) => Some(fourth@),
                None => None,
            },
        ),
{
    let mut out: Vec<u8> = slice_to_vec(dh1);
    extend_bytes(&mut out, dh2);
    extend_bytes(&mut out, dh3);
    match dh4 {
        Some(fourth) => {
            extend_bytes(&mut out, fourth.as_slice());
        },
        None => {},
    }
    out
}

/// Whether a message's one-time prekey can be looked up in both halves of a
/// bundle: it names none, or it names one that both lists hold.
pub open spec fn spec_opk_in_range(
    opk_id: Option<u32>,
    public_count: nat,
    private_count: nat,
) -> bool {
    match opk_id {
        Some(i) => i < public_count && i < private_count,
        None => true,
    }
}

/// The associated data binds both identities: with identity keys of the same
/// length, replacing either key by another changes the associated data.
pub proof fn lemma_associated_data_binds(
    initiator_ik: Seq<u8>,
    receiver_ik: Seq<u8>,
    other_initiator_ik: Seq<u8>,
    other_receiver_ik: Seq<u8>,
)
    requires
        initiator_ik.len() == other_initiator_ik.len(),
        initiator_ik != other_initiator_ik || receiver_ik != other_receiver_ik,
    ensures
        spec_associated_data(initiator_ik, receiver_ik) != spec_associated_data(
            other_initiator_ik,
            other_receiver_ik,
        ),
{
    if spec_associated_data(initiator_ik, receiver_ik) == spec_associated_data(
        other_initiator_ik,
        other_receiver_ik,
    ) {
        lemma_concat_injective(initiator_ik, receiver_ik, other_initiator_ik, other_receiver_ik);
    }
}

/// The order of the identities matters: the associated data of a handshake
/// differs from that of the handshake in the other direction, unless both
/// parties have the same identity key.
pub proof fn lemma_associated_data_is_directed(initiator_ik: Seq<u8>, receiver_ik: Seq<u8>)
    requires
        initiator_ik.len() == receiver_ik.len(),
        initiator_ik != receiver_ik,
    ensures
        spec_associated_data(initiator_ik, receiver_ik) != spec_associated_data(
            receiver_ik,
            initiator_ik,
        ),
{
    lemma_associated_data_binds(initiator_ik, receiver_ik, receiver_ik, initiator_ik);
}

/// Whether the two bundles are a pair that making receiver keys may give:
/// the identity pair, the signed-prekey pair and each of the ten one-time
/// pairs is a key pair that the registry may make, and the signature is one
/// that the identity pair may give to the signed prekey.
pub open spec fn spec_receiver_keys<B: StbBackend>(
    backend: &B,
    names: AlgorithmNames,
    private: ReceiverKeysPrivateView,
    public: ReceiverKeysPublicView,
) -> bool {
    &&& public.algorithms == names
    &&& spec_generate_keypair(backend, names, Some((private.ik, public.ik)))
    &&& spec_generate_keypair(backend, names, Some((private.spk, public.spk)))
    &&& spec_sign(backend, names, private.ik, public.ik, public.spk, Some(public.spk_signature))
    &&& public.opks.len() == OPK_BATCH
    &&& private.opks.len() == OPK_BATCH
    &&& forall|i: int|
        0 <= i < OPK_BATCH ==> #[trigger] spec_generate_keypair(
            backend,
            names,
            Some((private.opks[i], public.opks[i])),
        )
}

/// Whether making receiver keys may fail: the registry may fail to make a
/// key pair, or to sign.
pub open spec fn spec_receiver_keys_may_fail<B: StbBackend>(
    backend: &B,
    names: AlgorithmNames,
) -> bool {
    ||| spec_generate_keypair(backend, names, None)
    ||| exists|private_key: Seq<u8>, public_key: Seq<u8>, data: Seq<u8>| #[trigger]
        spec_sign(backend, names, private_key, public_key, data, None)
}

/// Makes the keys of a receiver: an identity pair, a signed prekey with its
/// signature by the identity key, and ten one-time prekeys. Either all of it
/// is made or nothing is returned.
pub fn generate_receiver_keys<B: StbBackend>(backend: &B, algorithms: &CryptoAlgorithms) -> (r:
    Option<(X3DhReceiverKeysPrivate, X3DhReceiverKeysPublic)>)
    ensures
        match r {
            Some((private, public)) => spec_receiver_keys(backend, algorithms@, private@, public@),
            None => spec_receiver_keys_may_fail(backend, algorithms@),
        },
{
    let (ik_priv, ik_pub) = match generate_keypair(backend, algorithms) {
        Some(pair) => pair,
        None => {
            return None;
        },
    };
    let (spk_priv, spk_pub) = match generate_keypair(backend, algorithms) {
        Some(pair) => pair,
        None => {
            return None;
        },
    };
    let spk_signature: Vec<u8> = match sign(
        backend,
        algorithms,
        ik_priv.clone(),
        ik_pub.clone(),
        spk_pub.pk.as_slice(),
    ) {
        Some(signature) => signature,
        None => {
            return None;
        },
    };
    let mut opks_priv: Vec<PrivateKey> = Vec::new();
    let mut opks_pub: Vec<PublicKey> = Vec::new();
    let mut i: usize = 0;
    while i < 10
        invariant
            i <= 10,
            opks_priv@.len() == i,
            opks_pub@.len() == i,
            forall|j: int|
                0 <= j < i ==> #[trigger] spec_generate_keypair(
                    backend,
                    algorithms@,
                    Some((opks_priv@[j]@, opks_pub@[j]@)),
                ),
        decreases 10 - i,
    {
        match generate_keypair(backend, algorithms) {
            Some((opk_priv, opk_pub)) => {
                opks_priv.push(opk_priv);
                opks_pub.push(opk_pub);
            },
            None => {
                return None;
            },
        }
        i = i + 1;
    }
    let private = X3DhReceiverKeysPrivate { ik: ik_priv, spk: spk_priv, opks: opks_priv };
    let public = X3DhReceiverKeysPublic {
        algorithms: algorithms.clone(),
        ik: ik_pub,
        spk: spk_pub,
        spk_signature,
        opks: opks_pub,
    };
    Some((private, public))
}

/// What the initiator hands in: the payload, the initiator's identity pair
/// and the receiver's published bundle.
pub struct EncodeInputs {
    pub plaintext: Seq<u8>,
    pub ik_priv: Seq<u8>,
    pub ik_pub: Seq<u8>,
    pub receiver: ReceiverKeysPublicView,
}

/// What the registry answered in the course of making a handshake message,
/// step by step. A step that was not reached holds `None`.
pub struct EncodeTrace {
    /// Whether the receiver's signed prekey carries the receiver's signature.
    pub verified: Option<bool>,
    /// The ephemeral key pair, private key first.
    pub ephemeral: Option<(Seq<u8>, Seq<u8>)>,
    /// The agreement of the initiator's identity key with the signed prekey.
    pub dh1: Option<Seq<u8>>,
    /// The agreement of the ephemeral key with the receiver's identity key.
    pub dh2: Option<Seq<u8>>,
    /// The agreement of the ephemeral key with the signed prekey.
    pub dh3: Option<Seq<u8>>,
    /// The four random bytes that pick the one-time prekey.
    pub drawn: Option<Seq<u8>>,
    /// The agreement of the ephemeral key with the one-time prekey.
    pub dh4: Option<Seq<u8>>,
    /// The secret derived from the agreements.
    pub first_key: Option<Seq<u8>>,
    /// The key derived from that secret, under which the payload is wrapped.
    pub second_key: Option<Seq<u8>>,
    /// The ciphertext and its tag.
    pub wrapped: Option<(Seq<u8>, Seq<u8>)>,
    /// The initiator's signature.
    pub signature: Option<Seq<u8>>,
}

/// Whether `drawn` may come of drawing four random bytes: the bytes that the
/// registry filled a buffer of four bytes with, `None` where it did not.
pub open spec fn spec_drawn<B: StbBackend>(
    backend: &B,
    names: AlgorithmNames,
    drawn: Option<Seq<u8>>,
) -> bool {
    exists|before: Seq<u8>, after: Seq<u8>, done: Option<()>|
        before.len() == 4 && after.len() == 4 && #[trigger] spec_rng_fill(
            backend,
            names,
            before,
            after,
            done,
        ) && drawn == if done is Some {
            Some(after)
        } else {
            None
        }
}

/// The one-time prekey that the initiator uses: none where the receiver
/// published none, else the one that the random bytes pick.
pub open spec fn spec_encode_opk_id(inputs: EncodeInputs, trace: EncodeTrace) -> Option<u32> {
    if inputs.receiver.opks.len() == 0 {
        None
    } else {
        match trace.drawn {
            Some(bytes) => spec_opk_index(
                spec_u32_from_le_bytes(bytes),
                inputs.receiver.opks.len(),
            ),
            None => None,
        }
    }
}

/// The public one-time prekey that the initiator uses, if any.
pub open spec fn spec_encode_opk(inputs: EncodeInputs, trace: EncodeTrace) -> Option<Seq<u8>> {
    match spec_encode_opk_id(inputs, trace) {
        Some(i) => Some(inputs.receiver.opks[i as int]),
        None => None,
    }
}

/// Whether the initiator has all the agreements that the key derivation
/// takes: the first three, and the fourth where the receiver published
/// one-time prekeys.
pub open spec fn spec_encode_agreed(inputs: EncodeInputs, trace: EncodeTrace) -> bool {
    &&& trace.verified == Some(true)
    &&& trace.ephemeral is Some
    &&& trace.dh1 is Some
    &&& trace.dh2 is Some
    &&& trace.dh3 is Some
    &&& inputs.receiver.opks.len() > 0 ==> trace.drawn is Some && trace.dh4 is Some
}

/// The input of the initiator's key derivation.
pub open spec fn spec_encode_agreements(inputs: EncodeInputs, trace: EncodeTrace) -> Seq<u8> {
    spec_agreements(
        trace.dh1->0,
        trace.dh2->0,
        trace.dh3->0,
        if inputs.receiver.opks.len() > 0 {
            trace.dh4
        } else {
            None
        },
    )
}

/// Whether every step of making the message gave an answer.
pub open spec fn spec_encode_complete(inputs: EncodeInputs, trace: EncodeTrace) -> bool {
    &&& spec_encode_agreed(inputs, trace)
    &&& trace.first_key is Some
    &&& trace.second_key is Some
    &&& trace.wrapped is Some
    &&& trace.signature is Some
}

/// Whether the answers of the trace are ones that the registry may give to
/// the questions that making a handshake message asks, in their order:
///
/// 1. whether the receiver's signed prekey carries the signature of the
///    receiver's identity key;
/// 2. a fresh ephemeral key pair;
/// 3. the agreements of the initiator's identity key with the signed prekey,
///    of the ephemeral key with the receiver's identity key, and of the
///    ephemeral key with the signed prekey;
/// 4. where the receiver published one-time prekeys, four random bytes, and
///    the agreement of the ephemeral key with the prekey that they pick;
/// 5. 32 bytes derived from the agreements, and 32 bytes derived from those;
/// 6. the payload wrapped under the second key, bound to the initiator's
///    identity key followed by the receiver's;
/// 7. the signature of the initiator's identity key on the ephemeral key,
///    the one-time prekey used and the ciphertext.
///
/// A question is asked only if every question before it was answered, and
/// the first one with `true`.
pub open spec fn spec_encode_trace<B: StbBackend>(
    backend: &B,
    inputs: EncodeInputs,
    trace: EncodeTrace,
) -> bool {
    let names = inputs.receiver.algorithms;
    let receiver = inputs.receiver;
    let ek = trace.ephemeral->0;
    &&& spec_verify(
        backend,
        names,
        receiver.ik,
        receiver.spk,
        receiver.spk_signature,
        trace.verified,
    )
    &&& trace.verified == Some(true) ==> spec_generate_keypair(backend, names, trace.ephemeral)
    &&& trace.verified == Some(true) && trace.ephemeral is Some ==> {
        &&& spec_diffie_hellman(
            backend,
            names,
            inputs.ik_priv,
            inputs.ik_pub,
            receiver.spk,
            trace.dh1,
        )
        &&& trace.dh1 is Some ==> spec_diffie_hellman(
            backend,
            names,
            ek.0,
            ek.1,
            receiver.ik,
            trace.dh2,
        )
        &&& trace.dh1 is Some && trace.dh2 is Some ==> spec_diffie_hellman(
            backend,
            names,
            ek.0,
            ek.1,
            receiver.spk,
            trace.dh3,
        )
        &&& trace.dh1 is Some && trace.dh2 is Some && trace.dh3 is Some && receiver.opks.len()
            > 0 ==> {
            &&& spec_drawn(backend, names, trace.drawn)
            &&& trace.drawn is Some ==> spec_diffie_hellman(
                backend,
                names,
                ek.0,
                ek.1,
                spec_encode_opk(inputs, trace)->0,
                trace.dh4,
            )
        }
    }
    &&& spec_encode_agreed(inputs, trace) ==> {
        &&& spec_kdf(
            backend,
            names,
            spec_encode_agreements(inputs, trace),
            DERIVED_KEY_LEN as nat,
            trace.first_key,
        )
        &&& trace.first_key is Some ==> spec_kdf(
            backend,
            names,
            trace.first_key->0,
            DERIVED_KEY_LEN as nat,
            trace.second_key,
        )
        &&& trace.first_key is Some && trace.second_key is Some ==> spec_aead_wrap(
            backend,
            names,
            inputs.plaintext,
            trace.second_key->0,
            spec_associated_data(inputs.ik_pub, receiver.ik),
            trace.wrapped,
        )
        &&& trace.first_key is Some && trace.second_key is Some && trace.wrapped is Some
            ==> spec_sign(
            backend,
            names,
            inputs.ik_priv,
            inputs.ik_pub,
            spec_signed_payload(ek.1, spec_encode_opk(inputs, trace), (trace.wrapped->0).0),
            trace.signature,
        )
    }
}

/// What making a handshake message returns for a trace: `InvalidSignature`
/// where the receiver's signed prekey does not carry the receiver's
/// signature, `AlgorithmNotSupported` where a step gave no answer, and else
/// the message put together from the answers.
pub open spec fn spec_encode_result(inputs: EncodeInputs, trace: EncodeTrace) -> Result<
    X3DhDataView,
    X3DhError,
> {
    if trace.verified == Some(false) {
        Err(X3DhError::InvalidSignature)
    } else if !spec_encode_complete(inputs, trace) {
        Err(X3DhError::AlgorithmNotSupported)
    } else {
        Ok(
            X3DhDataView {
                ek_pub: (trace.ephemeral->0).1,
                opk_id: spec_encode_opk_id(inputs, trace),
                ciphertext: (trace.wrapped->0).0,
                mac: (trace.wrapped->0).1,
                signature: trace.signature->0,
            },
        )
    }
}

/// Whether `out` may come of making a handshake message: it is what is
/// returned for some trace of answers that the registry may give.
pub open spec fn spec_encode<B: StbBackend>(
    backend: &B,
    inputs: EncodeInputs,
    out: Result<X3DhDataView, X3DhError>,
) -> bool {
    exists|trace: EncodeTrace| #[trigger]
        spec_encode_trace(backend, inputs, trace) && spec_encode_result(inputs, trace) == out
}

/// What a made message holds, or why none was made.
pub open spec fn spec_encoded(value: Result<X3DhData, X3DhError>) -> Result<
    X3DhDataView,
    X3DhError,
> {
    match value {
        Ok(data) => Ok(data@),
        Err(e) => Err(e),
    }
}

/// Encrypts `data` for the owner of the bundle `other_keys`, as the owner of
/// the identity pair.
///
/// The message names a one-time prekey exactly if the receiver published
/// any, and the one it names is one of them. It is refused with
/// `InvalidSignature` where the bundle's signed prekey does not carry the
/// signature of the bundle's identity key, and with `AlgorithmNotSupported`
/// where the registry does not answer.
pub fn encode_x3dh<B: StbBackend>(
    backend: &B,
    data: &[u8],
    ik_priv: PrivateKey,
    ik_pub: PublicKey,
    other_keys: X3DhReceiverKeysPublic,
) -> (r: Result<X3DhData, X3DhError>)
    ensures
        spec_encode(
            backend,
            EncodeInputs {
                plaintext: data@,
                ik_priv: ik_priv@,
                ik_pub: ik_pub@,
                receiver: other_keys@,
            },
            spec_encoded(r),
        ),
        r matches Ok(message) ==> {
            &&& message.opk_id is Some <==> other_keys@.opks.len() > 0
            &&& message.opk_id matches Some(i) ==> i < other_keys@.opks.len()
        },
        r matches Err(e) ==> e == X3DhError::AlgorithmNotSupported || e
            == X3DhError::InvalidSignature,
{
    let ghost inputs = EncodeInputs {
        plaintext: data@,
        ik_priv: ik_priv@,
        ik_pub: ik_pub@,
        receiver: other_keys@,
    };
    let ghost mut trace = EncodeTrace {
        verified: None,
        ephemeral: None,
        dh1: None,
        dh2: None,
        dh3: None,
        drawn: None,
        dh4: None,
        first_key: None,
        second_key: None,
        wrapped: None,
        signature: None,
    };
    let algorithms: &CryptoAlgorithms = &other_keys.algorithms;

    let verified: Option<bool> = verify(
        backend,
        algorithms,
        other_keys.ik.clone(),
        other_keys.spk.pk.as_slice(),
        other_keys.spk_signature.as_slice(),
    );
    proof {
        trace.verified = verified;
    }
    match verified {
        Some(true) => {},
        Some(false) => {
            proof {
                assert(spec_encode_trace(backend, inputs, trace));
            }
            return Err(X3DhError::InvalidSignature);
        },
        None => {
            proof {
                assert(spec_encode_trace(backend, inputs, trace));
            }
            return Err(X3DhError::AlgorithmNotSupported);
        },
    }

    let ephemeral: Option<(PrivateKey, PublicKey)> = generate_keypair(backend, algorithms);
    proof {
        trace.ephemeral = spec_keypair(ephemeral);
    }
    let (ek_priv, ek_pub) = match ephemeral {
        Some(pair) => pair,
        None => {
            proof {
                assert(spec_encode_trace(backend, inputs, trace));
            }
            return Err(X3DhError::AlgorithmNotSupported);
        },
    };

    let dh1: Option<Vec<u8>> = diffie_hellman(
        backend,
        algorithms,
        ik_priv.clone(),
        ik_pub.clone(),
        other_keys.spk.clone(),
    );
    proof {
        trace.dh1 = spec_bytes(dh1);
    }
    let dh1: Vec<u8> = match dh1 {
        Some(secret) => secret,
        None => {
            proof {
                assert(spec_encode_trace(backend, inputs, trace));
            }
            return Err(X3DhError::AlgorithmNotSupported);
        },
    };
    let dh2: Option<Vec<u8>> = diffie_hellman(
        backend,
        algorithms,
        ek_priv.clone(),
        ek_pub.clone(),
        other_keys.ik.clone(),
    );
    proof {
        trace.dh2 = spec_bytes(dh2);
    }
    let dh2: Vec<u8> = match dh2 {
        Some(secret) => secret,
        None => {
            proof {
                assert(spec_encode_trace(backend, inputs, trace));
            }
            return Err(X3DhError::AlgorithmNotSupported);
        },
    };
    let dh3: Option<Vec<u8>> = diffie_hellman(
        backend,
        algorithms,
        ek_priv.clone(),
        ek_pub.clone(),
        other_keys.spk.clone(),
    );
    proof {
        trace.dh3 = spec_bytes(dh3);
    }
    let dh3: Vec<u8> = match dh3 {
        Some(secret) => secret,
        None => {
            proof {
                assert(spec_encode_trace(backend, inputs, trace));
            }
            return Err(X3DhError::AlgorithmNotSupported);
        },
    };

    let mut opk_id: Option<u32> = None;
    let mut dh4: Option<Vec<u8>> = None;
    if other_keys.opks.len() > 0 {
        let mut buffer: Vec<u8> = vec![0u8; 4];
        let done: Option<()> = rng_fill(backend, algorithms, buffer.as_mut_slice());
        proof {
            trace.drawn = if done is Some {
                Some(buffer@)
            } else {
                None
            };
        }
        if done.is_none() {
            proof {
                assert(spec_encode_trace(backend, inputs, trace));
            }
            return Err(X3DhError::AlgorithmNotSupported);
        }
        let random: u32 = u32_from_le_bytes(buffer.as_slice());
        let picked: u32 = pick_opk_index(random, other_keys.opks.len());
        let index: usize = picked as usize;
        opk_id = Some(picked);
        let fourth: Option<Vec<u8>> = diffie_hellman(
            backend,
            algorithms,
            ek_priv.clone(),
            ek_pub.clone(),
            other_keys.opks[index].clone(),
        );
        proof {
            trace.dh4 = spec_bytes(fourth);
        }
        if fourth.is_none() {
            proof {
                assert(spec_encode_trace(backend, inputs, trace));
            }
            return Err(X3DhError::AlgorithmNotSupported);
        }
        dh4 = fourth;
    }

    let combined: Vec<u8> = agreements(
        dh1.as_slice(),
        dh2.as_slice(),
        dh3.as_slice(),
        dh4.as_ref(),
    );
    let first_key: Option<Vec<u8>> = kdf(backend, algorithms, combined.as_slice(), 32);
    proof {
        trace.first_key = spec_bytes(first_key);
    }
    let first_key: Vec<u8> = match first_key {
        Some(key) => key,
        None => {
            proof {
                assert(spec_encode_trace(backend, inputs, trace));
            }
            return Err(X3DhError::AlgorithmNotSupported);
        },
    };
    let second_key: Option<Vec<u8>> = kdf(backend, algorithms, first_key.as_slice(), 32);
    proof {
        trace.second_key = spec_bytes(second_key);
    }
    let second_key: Vec<u8> = match second_key {
        Some(key) => key,
        None => {
            proof {
                assert(spec_encode_trace(backend, inputs, trace));
            }
            return Err(X3DhError::AlgorithmNotSupported);
        },
    };

    let ad: Vec<u8> = associated_data(&ik_pub, &other_keys.ik);
    let wrapped: Option<(Vec<u8>, Vec<u8>)> = aead_wrap(
        backend,
        algorithms,
        data,
        PrivateKey { sk: second_key },
        ad.as_slice(),
    );
    proof {
        trace.wrapped = spec_bytes_pair(wrapped);
    }
    let (ciphertext, mac) = match wrapped {
        Some(pair) => pair,
        None => {
            proof {
                assert(spec_encode_trace(backend, inputs, trace));
            }
            return Err(X3DhError::AlgorithmNotSupported);
        },
    };

    let opk: Option<&PublicKey> = match opk_id {
        Some(i) => Some(&other_keys.opks[i as usize]),
        None => None,
    };
    let payload: Vec<u8> = signed_payload(&ek_pub, opk, ciphertext.as_slice());
    let signature: Option<Vec<u8>> = sign(backend, algorithms, ik_priv, ik_pub, payload.as_slice());
    proof {
        trace.signature = spec_bytes(signature);
        assert(spec_encode_trace(backend, inputs, trace));
    }
    match signature {
        Some(signature) => Ok(X3DhData { ek_pub, opk_id, ciphertext, mac, signature }),
        None => Err(X3DhError::AlgorithmNotSupported),
    }
}

/// What the receiver hands in: the message, the identity key of the claimed
/// initiator, and both halves of the receiver's own bundle.
pub struct DecodeInputs {
    pub message: X3DhDataView,
    pub initiator_ik: Seq<u8>,
    pub public: ReceiverKeysPublicView,
    pub private: ReceiverKeysPrivateView,
}

/// What the registry answered in the course of reading a handshake message,
/// step by step. A step that was not reached holds `None`.
pub struct DecodeTrace {
    /// Whether the message carries the initiator's signature.
    pub verified: Option<bool>,
    /// The agreement of the signed prekey with the initiator's identity key.
    pub dh1: Option<Seq<u8>>,
    /// The agreement of the receiver's identity key with the ephemeral key.
    pub dh2: Option<Seq<u8>>,
    /// The agreement of the signed prekey with the ephemeral key.
    pub dh3: Option<Seq<u8>>,
    /// The agreement of the one-time prekey with the ephemeral key.
    pub dh4: Option<Seq<u8>>,
    /// The secret derived from the agreements.
    pub first_key: Option<Seq<u8>>,
    /// The key derived from that secret, under which the payload is wrapped.
    pub second_key: Option<Seq<u8>>,
    /// What unwrapping gave: the inner `None` where the tag does not fit.
    pub unwrapped: Option<Option<Seq<u8>>>,
}

/// Whether the message's one-time prekey can be looked up in the receiver's
/// bundle.
pub open spec fn spec_decode_in_range(inputs: DecodeInputs) -> bool {
    spec_opk_in_range(inputs.message.opk_id, inputs.public.opks.len(), inputs.private.opks.len())
}

/// The public one-time prekey that the message names, if any.
pub open spec fn spec_decode_opk(inputs: DecodeInputs) -> Option<Seq<u8>> {
    match inputs.message.opk_id {
        Some(i) => Some(inputs.public.opks[i as int]),
        None => None,
    }
}

/// Whether the receiver has all the agreements that the key derivation
/// takes: the first three, and the fourth where the message names a one-time
/// prekey.
pub open spec fn spec_decode_agreed(inputs: DecodeInputs, trace: DecodeTrace) -> bool {
    &&& spec_decode_in_range(inputs)
    &&& trace.verified == Some(true)
    &&& trace.dh1 is Some
    &&& trace.dh2 is Some
    &&& trace.dh3 is Some
    &&& inputs.message.opk_id is Some ==> trace.dh4 is Some
}

/// The input of the receiver's key derivation.
pub open spec fn spec_decode_agreements(inputs: DecodeInputs, trace: DecodeTrace) -> Seq<u8> {
    spec_agreements(
        trace.dh1->0,
        trace.dh2->0,
        trace.dh3->0,
        if inputs.message.opk_id is Some {
            trace.dh4
        } else {
            None
        },
    )
}

/// Whether the answers of the trace are ones that the registry may give to
/// the questions that reading a handshake message asks, in their order:
///
/// 1. whether the signature of the message is the initiator's signature on
///    the ephemeral key, the one-time prekey that the message names, and the
///    ciphertext;
/// 2. the agreements of the signed prekey with the initiator's identity key,
///    of the receiver's identity key with the ephemeral key, of the signed
///    prekey with the ephemeral key and, where the message names a one-time
///    prekey, of that prekey with the ephemeral key;
/// 3. 32 bytes derived from the agreements, and 32 bytes derived from those;
/// 4. the ciphertext unwrapped under the second key, bound to the
///    initiator's identity key followed by the receiver's.
///
/// Nothing is asked where the message names a one-time prekey that the
/// bundle does not hold. A question is asked only if every question before
/// it was answered, and the first one with `true`.
pub open spec fn spec_decode_trace<B: StbBackend>(
    backend: &B,
    inputs: DecodeInputs,
    trace: DecodeTrace,
) -> bool {
    let names = inputs.public.algorithms;
    let message = inputs.message;
    &&& spec_decode_in_range(inputs) ==> spec_verify(
        backend,
        names,
        inputs.initiator_ik,
        spec_signed_payload(message.ek_pub, spec_decode_opk(inputs), message.ciphertext),
        message.signature,
        trace.verified,
    )
    &&& spec_decode_in_range(inputs) && trace.verified == Some(true) ==> {
        &&& spec_diffie_hellman(
            backend,
            names,
            inputs.private.spk,
            inputs.public.spk,
            inputs.initiator_ik,
            trace.dh1,
        )
        &&& trace.dh1 is Some ==> spec_diffie_hellman(
            backend,
            names,
            inputs.private.ik,
            inputs.public.ik,
            message.ek_pub,
            trace.dh2,
        )
        &&& trace.dh1 is Some && trace.dh2 is Some ==> spec_diffie_hellman(
            backend,
            names,
            inputs.private.spk,
            inputs.public.spk,
            message.ek_pub,
            trace.dh3,
        )
        &&& trace.dh1 is Some && trace.dh2 is Some && trace.dh3 is Some && message.opk_id is Some
            ==> spec_diffie_hellman(
            backend,
            names,
            inputs.private.opks[(message.opk_id->0) as int],
            inputs.public.opks[(message.opk_id->0) as int],
            message.ek_pub,
            trace.dh4,
        )
    }
    &&& spec_decode_agreed(inputs, trace) ==> {
        &&& spec_kdf(
            backend,
            names,
            spec_decode_agreements(inputs, trace),
            DERIVED_KEY_LEN as nat,
            trace.first_key,
        )
        &&& trace.first_key is Some ==> spec_kdf(
            backend,
            names,
            trace.first_key->0,
            DERIVED_KEY_LEN as nat,
            trace.second_key,
        )
        &&& trace.first_key is Some && trace.second_key is Some ==> spec_aead_unwrap(
            backend,
            names,
            message.ciphertext,
            spec_associated_data(inputs.initiator_ik, inputs.public.ik),
            message.mac,
            trace.second_key->0,
            trace.unwrapped,
        )
    }
}

/// What reading a handshake message returns for a trace: `InvalidOpkKeyId`
/// where the message names a one-time prekey that the bundle does not hold,
/// `InvalidSignature` where the message does not carry the initiator's
/// signature, `AlgorithmNotSupported` where a step gave no answer,
/// `DecryptionFailure` where the tag does not fit, and else the payload.
pub open spec fn spec_decode_result(inputs: DecodeInputs, trace: DecodeTrace) -> Result<
    Seq<u8>,
    X3DhError,
> {
    if !spec_decode_in_range(inputs) {
        Err(X3DhError::InvalidOpkKeyId)
    } else if trace.verified == Some(false) {
        Err(X3DhError::InvalidSignature)
    } else if !spec_decode_agreed(inputs, trace) || trace.first_key is None || trace.second_key
        is None {
        Err(X3DhError::AlgorithmNotSupported)
    } else {
        match trace.unwrapped {
            Some(Some(plaintext)) => Ok(plaintext),
            Some(None) => Err(X3DhError::DecryptionFailure),
            None => Err(X3DhError::AlgorithmNotSupported),
        }
    }
}

/// Whether `out` may come of reading a handshake message: it is what is
/// returned for some trace of answers that the registry may give.
pub open spec fn spec_decode<B: StbBackend>(
    backend: &B,
    inputs: DecodeInputs,
    out: Result<Seq<u8>, X3DhError>,
) -> bool {
    exists|trace: DecodeTrace| #[trigger]
        spec_decode_trace(backend, inputs, trace) && spec_decode_result(inputs, trace) == out
}

/// The payload that was read, or why none was.
pub open spec fn spec_decoded(value: Result<Vec<u8>, X3DhError>) -> Result<Seq<u8>, X3DhError> {
    match value {
        Ok(plaintext) => Ok(plaintext@),
        Err(e) => Err(e),
    }
}

/// Recovers the payload of a handshake message that the owner of
/// `other_ik_pub` made for the owner of the bundle.
///
/// A message that names a one-time prekey which the bundle does not hold is
/// refused with `InvalidOpkKeyId`, whatever else it holds and whatever the
/// registry would answer.
pub fn decode_x3dh<B: StbBackend>(
    backend: &B,
    data: X3DhData,
    other_ik_pub: PublicKey,
    self_keys_public: X3DhReceiverKeysPublic,
    self_keys_private: X3DhReceiverKeysPrivate,
) -> (r: Result<Vec<u8>, X3DhError>)
    ensures
        spec_decode(
            backend,
            DecodeInputs {
                message: data@,
                initiator_ik: other_ik_pub@,
                public: self_keys_public@,
                private: self_keys_private@,
            },
            spec_decoded(r),
        ),
        data.opk_id matches Some(i) && (i >= self_keys_public@.opks.len() || i
            >= self_keys_private@.opks.len()) ==> r == Err::<Vec<u8>, X3DhError>(
            X3DhError::InvalidOpkKeyId,
        ),
{
    let ghost inputs = DecodeInputs {
        message: data@,
        initiator_ik: other_ik_pub@,
        public: self_keys_public@,
        private: self_keys_private@,
    };
    let ghost mut trace = DecodeTrace {
        verified: None,
        dh1: None,
        dh2: None,
        dh3: None,
        dh4: None,
        first_key: None,
        second_key: None,
        unwrapped: None,
    };
    let algorithms: &CryptoAlgorithms = &self_keys_public.algorithms;

    let opk_index: Option<usize> = match data.opk_id {
        Some(i) => {
            if (i as usize) < self_keys_public.opks.len() && (i as usize)
                < self_keys_private.opks.len() {
                Some(i as usize)
            } else {
                proof {
                    assert(spec_decode_trace(backend, inputs, trace));
                }
                return Err(X3DhError::InvalidOpkKeyId);
            }
        },
        None => None,
    };
    let opk: Option<&PublicKey> = match opk_index {
        Some(i) => Some(&self_keys_public.opks[i]),
        None => None,
    };
    let payload: Vec<u8> = signed_payload(&data.ek_pub, opk, data.ciphertext.as_slice());

    let verified: Option<bool> = verify(
        backend,
        algorithms,
        other_ik_pub.clone(),
        payload.as_slice(),
        data.signature.as_slice(),
    );
    proof {
        trace.verified = verified;
    }
    match verified {
        Some(true) => {},
        Some(false) => {
            proof {
                assert(spec_decode_trace(backend, inputs, trace));
            }
            return Err(X3DhError::InvalidSignature);
        },
        None => {
            proof {
                assert(spec_decode_trace(backend, inputs, trace));
            }
            return Err(X3DhError::AlgorithmNotSupported);
        },
    }

    let dh1: Option<Vec<u8>> = diffie_hellman(
        backend,
        algorithms,
        self_keys_private.spk.clone(),
        self_keys_public.spk.clone(),
        other_ik_pub.clone(),
    );
    proof {
        trace.dh1 = spec_bytes(dh1);
    }
    let dh1: Vec<u8> = match dh1 {
        Some(secret) => secret,
        None => {
            proof {
                assert(spec_decode_trace(backend, inputs, trace));
            }
            return Err(X3DhError::AlgorithmNotSupported);
        },
    };
    let dh2: Option<Vec<u8>> = diffie_hellman(
        backend,
        algorithms,
        self_keys_private.ik.clone(),
        self_keys_public.ik.clone(),
        data.ek_pub.clone(),
    );
    proof {
        trace.dh2 = spec_bytes(dh2);
    }
    let dh2: Vec<u8> = match dh2 {
        Some(secret) => secret,
        None => {
            proof {
                assert(spec_decode_trace(backend, inputs, trace));
            }
            return Err(X3DhError::AlgorithmNotSupported);
        },
    };
    let dh3: Option<Vec<u8>> = diffie_hellman(
        backend,
        algorithms,
        self_keys_private.spk.clone(),
        self_keys_public.spk.clone(),
        data.ek_pub.clone(),
    );
    proof {
        trace.dh3 = spec_bytes(dh3);
    }
    let dh3: Vec<u8> = match dh3 {
        Some(secret) => secret,
        None => {
            proof {
                assert(spec_decode_trace(backend, inputs, trace));
            }
            return Err(X3DhError::AlgorithmNotSupported);
        },
    };
    let mut dh4: Option<Vec<u8>> = None;
    match opk_index {
        Some(i) => {
            let fourth: Option<Vec<u8>> = diffie_hellman(
                backend,
                algorithms,
                self_keys_private.opks[i].clone(),
                self_keys_public.opks[i].clone(),
                data.ek_pub.clone(),
            );
            proof {
                trace.dh4 = spec_bytes(fourth);
            }
            if fourth.is_none() {
                proof {
                    assert(spec_decode_trace(backend, inputs, trace));
                }
                return Err(X3DhError::AlgorithmNotSupported);
            }
            dh4 = fourth;
        },
        None => {},
    }

    let combined: Vec<u8> = agreements(
        dh1.as_slice(),
        dh2.as_slice(),
        dh3.as_slice(),
        dh4.as_ref(),
    );
    let first_key: Option<Vec<u8>> = kdf(backend, algorithms, combined.as_slice(), 32);
    proof {
        trace.first_key = spec_bytes(first_key);
    }
    let first_key: Vec<u8> = match first_key {
        Some(key) => key,
        None => {
            proof {
                assert(spec_decode_trace(backend, inputs, trace));
            }
            return Err(X3DhError::AlgorithmNotSupported);
        },
    };
    let second_key: Option<Vec<u8>> = kdf(backend, algorithms, first_key.as_slice(), 32);
    proof {
        trace.second_key = spec_bytes(second_key);
    }
    let second_key: Vec<u8> = match second_key {
        Some(key) => key,
        None => {
            proof {
                assert(spec_decode_trace(backend, inputs, trace));
            }
            return Err(X3DhError::AlgorithmNotSupported);
        },
    };

    let ad: Vec<u8> = associated_data(&other_ik_pub, &self_keys_public.ik);
    let unwrapped: Option<Option<Vec<u8>>> = aead_unwrap(
        backend,
        algorithms,
        data.ciphertext.as_slice(),
        ad.as_slice(),
        data.mac.as_slice(),
        PrivateKey { sk: second_key },
    );
    proof {
        trace.unwrapped = spec_decrypted(unwrapped);
        assert(spec_decode_trace(backend, inputs, trace));
    }
    match unwrapped {
        Some(Some(plaintext)) => Ok(plaintext),
        Some(None) => Err(X3DhError::DecryptionFailure),
        None => Err(X3DhError::AlgorithmNotSupported),
    }
}

} // verus!
