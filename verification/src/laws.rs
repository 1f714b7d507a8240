//! What holds of the registry and of the key agreement when the backend's
//! primitives agree with each other as their standards promise.
//!
//! The registry assumes nothing of a backend. The laws of this module say
//! what follows for a backend that is faithful: one that hashes and derives
//! as a function of its input, whose key pairs agree on one secret from both
//! sides, whose signatures check against their own key, and whose
//! wrapped and encrypted texts open to what was put in.

use vstd::prelude::*;

use crate::algorithms::AlgorithmNames;
use crate::backend::{
    may_bake_kdf, may_bash512, may_belt_ctr_decrypt, may_belt_ctr_encrypt, may_belt_dwp_unwrap,
    may_belt_dwp_wrap, may_bign_diffie_hellman, may_bign_keypair, may_bign_sign, may_bign_verify,
    StbBackend,
};
use crate::keys::{spec_is_key_len, KeyStrength};
use crate::x3dh::{
    spec_associated_data, spec_decode, spec_decode_agreed, spec_decode_agreements,
    spec_decode_in_range, spec_decode_opk, spec_decode_result, spec_decode_trace, spec_encode,
    spec_encode_agreed, spec_encode_agreements, spec_encode_complete, spec_encode_opk,
    spec_encode_opk_id, spec_encode_result, spec_encode_trace, spec_receiver_keys,
    spec_signed_payload, DecodeInputs, DecodeTrace, EncodeInputs, EncodeTrace,
    ReceiverKeysPrivateView, ReceiverKeysPublicView, X3DhDataView, X3DhError,
};
use crate::registry::{
    spec_aead_algorithm, spec_aead_unwrap, spec_aead_wrap, spec_can_generate_key, spec_derived,
    spec_diffie_hellman, spec_diffie_hellman_algorithm, spec_framed,
    spec_generate_keypair, spec_hash, spec_kdf, spec_kdf_algorithm,
    spec_sign, spec_sign_digest, spec_signature_algorithm,
    spec_symmetric_algorithm, spec_symmetric_decrypt, spec_symmetric_encrypt,
    spec_symmetric_genkey, spec_verify, spec_verify_digest, SymmetricAlgorithm, CTR_IV_LEN,
};

verus! {

/// Whether the backend may give the two keys as a key pair.
pub open spec fn spec_is_keypair<B: StbBackend>(
    backend: &B,
    private_key: Seq<u8>,
    public_key: Seq<u8>,
) -> bool {
    exists|seed: Seq<u8>| #[trigger]
        may_bign_keypair(backend, seed, Some((private_key, public_key)))
}

/// Whether the backend hashes as a function: it never gives two answers for
/// the same data.
pub open spec fn spec_hashes_as_function<B: StbBackend>(backend: &B) -> bool {
    forall|data: Seq<u8>, first: Option<Seq<u8>>, second: Option<Seq<u8>>|
        #![trigger may_bash512(backend, data, first), may_bash512(backend, data, second)]
        may_bash512(backend, data, first) && may_bash512(backend, data, second) ==> first
            == second
}

/// Whether the backend derives as a function: it never gives two answers for
/// the same secret.
pub open spec fn spec_derives_as_function<B: StbBackend>(backend: &B) -> bool {
    forall|secret: Seq<u8>, first: Option<Seq<u8>>, second: Option<Seq<u8>>|
        #![trigger may_bake_kdf(backend, secret, first), may_bake_kdf(backend, secret, second)]
        may_bake_kdf(backend, secret, first) && may_bake_kdf(backend, secret, second) ==> first
            == second
}

/// Whether two key pairs of the backend agree from both sides: where one
/// side got a secret, the other side gets that secret, whenever it asks.
pub open spec fn spec_agrees<B: StbBackend>(backend: &B) -> bool {
    forall|
        private_a: Seq<u8>,
        public_a: Seq<u8>,
        private_b: Seq<u8>,
        public_b: Seq<u8>,
        secret: Seq<u8>,
        other: Option<Seq<u8>>,
    |
        #![trigger
            may_bign_diffie_hellman(backend, private_a, public_a, public_b, Some(secret)),
            may_bign_diffie_hellman(backend, private_b, public_b, public_a, other)
        ]
        spec_is_keypair(backend, private_a, public_a) && spec_is_keypair(
            backend,
            private_b,
            public_b,
        ) && may_bign_diffie_hellman(backend, private_a, public_a, public_b, Some(secret))
            && may_bign_diffie_hellman(backend, private_b, public_b, public_a, other) ==> other
            == Some(secret)
}

/// Whether the backend accepts its own signatures: a signature that a key
/// pair gave to a digest checks against the public key of the pair.
pub open spec fn spec_accepts_own_signatures<B: StbBackend>(backend: &B) -> bool {
    forall|
        private_key: Seq<u8>,
        public_key: Seq<u8>,
        digest: Seq<u8>,
        seed: Seq<u8>,
        signature: Seq<u8>,
        ok: bool,
    |
        #![trigger
            may_bign_sign(backend, private_key, public_key, digest, seed, Some(signature)),
            may_bign_verify(backend, public_key, digest, signature, ok)
        ]
        may_bign_sign(backend, private_key, public_key, digest, seed, Some(signature))
            && may_bign_verify(backend, public_key, digest, signature, ok) ==> ok
}

/// Whether the backend unwraps what it wrapped: a ciphertext and tag that it
/// gave for a plaintext open to that plaintext under the same key and
/// associated data.
pub open spec fn spec_unwraps_what_it_wrapped<B: StbBackend>(backend: &B) -> bool {
    forall|
        plaintext: Seq<u8>,
        associated_data: Seq<u8>,
        key: Seq<u8>,
        ciphertext: Seq<u8>,
        tag: Seq<u8>,
        opened: Option<Seq<u8>>,
    |
        #![trigger
            may_belt_dwp_wrap(backend, plaintext, associated_data, key, Some((ciphertext, tag))),
            may_belt_dwp_unwrap(backend, ciphertext, associated_data, tag, key, opened)
        ]
        may_belt_dwp_wrap(backend, plaintext, associated_data, key, Some((ciphertext, tag)))
            && may_belt_dwp_unwrap(backend, ciphertext, associated_data, tag, key, opened)
            ==> opened == Some(plaintext)
}

/// Whether the backend decrypts what it encrypted in counter mode.
pub open spec fn spec_decrypts_what_it_encrypted<B: StbBackend>(backend: &B) -> bool {
    forall|
        data: Seq<u8>,
        key: Seq<u8>,
        iv: Seq<u8>,
        encrypted: Seq<u8>,
        opened: Option<Seq<u8>>,
    |
        #![trigger
            may_belt_ctr_encrypt(backend, data, key, iv, Some(encrypted)),
            may_belt_ctr_decrypt(backend, encrypted, key, iv, opened)
        ]
        may_belt_ctr_encrypt(backend, data, key, iv, Some(encrypted)) && may_belt_ctr_decrypt(
            backend,
            encrypted,
            key,
            iv,
            opened,
        ) ==> opened == Some(data)
}

/// Whether the backend is faithful: its primitives agree with each other as
/// their standards promise.
pub open spec fn spec_faithful<B: StbBackend>(backend: &B) -> bool {
    &&& spec_hashes_as_function(backend)
    &&& spec_derives_as_function(backend)
    &&& spec_agrees(backend)
    &&& spec_accepts_own_signatures(backend)
    &&& spec_unwraps_what_it_wrapped(backend)
    &&& spec_decrypts_what_it_encrypted(backend)
}

/// With a faithful backend, hashing gives one answer for the same data.
pub proof fn lemma_hash_is_a_function<B: StbBackend>(
    backend: &B,
    names: AlgorithmNames,
    data: Seq<u8>,
    first: Option<Seq<u8>>,
    second: Option<Seq<u8>>,
)
    requires
        spec_hashes_as_function(backend),
        spec_hash(backend, names, data, first),
        spec_hash(backend, names, data, second),
    ensures
        first == second,
{
}

/// With a faithful backend, deriving gives one answer for the same data and
/// length.
pub proof fn lemma_kdf_is_a_function<B: StbBackend>(
    backend: &B,
    names: AlgorithmNames,
    data: Seq<u8>,
    len: nat,
    first: Option<Seq<u8>>,
    second: Option<Seq<u8>>,
)
    requires
        spec_derives_as_function(backend),
        spec_kdf(backend, names, data, len, first),
        spec_kdf(backend, names, data, len, second),
    ensures
        first == second,
{
    if spec_kdf_algorithm(names.kdf) is Some {
        let block1 = choose|block: Option<Seq<u8>>| #[trigger]
            may_bake_kdf(backend, data, block) && first == spec_derived(block, len);
        let block2 = choose|block: Option<Seq<u8>>| #[trigger]
            may_bake_kdf(backend, data, block) && second == spec_derived(block, len);
        assert(block1 == block2);
    }
}

/// With a faithful backend, a longer derivation starts with the shorter one:
/// the bytes derived from the same data for a greater length begin with the
/// bytes derived for a smaller one.
pub proof fn lemma_longer_derivation_extends_shorter<B: StbBackend>(
    backend: &B,
    names: AlgorithmNames,
    data: Seq<u8>,
    short: nat,
    long: nat,
    first: Seq<u8>,
    second: Seq<u8>,
)
    requires
        spec_derives_as_function(backend),
        short <= long,
        spec_kdf(backend, names, data, short, Some(first)),
        spec_kdf(backend, names, data, long, Some(second)),
    ensures
        first.len() == short,
        second.len() == long,
        second.subrange(0, short as int) == first,
{
    let block1 = choose|block: Option<Seq<u8>>| #[trigger]
        may_bake_kdf(backend, data, block) && Some(first) == spec_derived(block, short);
    let block2 = choose|block: Option<Seq<u8>>| #[trigger]
        may_bake_kdf(backend, data, block) && Some(second) == spec_derived(block, long);
    assert(block1 == block2);
}

/// With a faithful backend, a signature that the registry gave to a message
/// checks against the signer's public key, whenever it is checked.
pub proof fn lemma_verify_accepts_sign<B: StbBackend>(
    backend: &B,
    names: AlgorithmNames,
    private_key: Seq<u8>,
    public_key: Seq<u8>,
    data: Seq<u8>,
    signature: Seq<u8>,
    verified: Option<bool>,
)
    requires
        spec_hashes_as_function(backend),
        spec_accepts_own_signatures(backend),
        spec_sign(backend, names, private_key, public_key, data, Some(signature)),
        spec_verify(backend, names, public_key, data, signature, verified),
    ensures
        verified == Some(true),
{
    let signed = choose|digest: Option<Seq<u8>>| #[trigger]
        spec_hash(backend, names, data, digest) && match digest {
            Some(d) => spec_sign_digest(
                backend,
                names,
                private_key,
                public_key,
                d,
                Some(signature),
            ),
            None => false,
        };
    let checked = choose|digest: Option<Seq<u8>>| #[trigger]
        spec_hash(backend, names, data, digest) && match digest {
            Some(d) => spec_verify_digest(backend, names, public_key, d, signature, verified),
            None => verified is None,
        };
    lemma_hash_is_a_function(backend, names, data, signed, checked);
    let d = signed->0;
    assert(spec_signature_algorithm(names.signature) is Some);
    let seed = choose|seed: Seq<u8>| #[trigger]
        may_bign_sign(backend, private_key, public_key, d, seed, Some(signature));
    assert(may_bign_sign(backend, private_key, public_key, d, seed, Some(signature)));
    assert(may_bign_verify(backend, public_key, d, signature, verified->0));
}

/// With a faithful backend, two key pairs agree on one secret: what one side
/// got from its pair and the other's public key, the other side gets from
/// its pair and the first one's public key.
pub proof fn lemma_diffie_hellman_agrees<B: StbBackend>(
    backend: &B,
    names: AlgorithmNames,
    private_a: Seq<u8>,
    public_a: Seq<u8>,
    private_b: Seq<u8>,
    public_b: Seq<u8>,
    secret: Seq<u8>,
    other: Option<Seq<u8>>,
)
    requires
        spec_agrees(backend),
        spec_is_keypair(backend, private_a, public_a),
        spec_is_keypair(backend, private_b, public_b),
        spec_diffie_hellman(backend, names, private_a, public_a, public_b, Some(secret)),
        spec_diffie_hellman(backend, names, private_b, public_b, public_a, other),
    ensures
        other == Some(secret),
{
    assert(spec_diffie_hellman_algorithm(names.diffie_hellman) is Some);
    assert(may_bign_diffie_hellman(backend, private_a, public_a, public_b, Some(secret)));
    assert(may_bign_diffie_hellman(backend, private_b, public_b, public_a, other));
}

/// With a faithful backend, what the registry wrapped opens to the plaintext
/// under the same key and public data, whenever it is unwrapped.
pub proof fn lemma_unwrap_inverts_wrap<B: StbBackend>(
    backend: &B,
    names: AlgorithmNames,
    plaintext: Seq<u8>,
    key: Seq<u8>,
    public_data: Seq<u8>,
    ciphertext: Seq<u8>,
    mac: Seq<u8>,
    opened: Option<Option<Seq<u8>>>,
)
    requires
        spec_unwraps_what_it_wrapped(backend),
        spec_aead_wrap(backend, names, plaintext, key, public_data, Some((ciphertext, mac))),
        spec_aead_unwrap(backend, names, ciphertext, public_data, mac, key, opened),
    ensures
        opened == Some(Some(plaintext)),
{
    assert(spec_aead_algorithm(names.aead) is Some);
    assert(may_belt_dwp_wrap(backend, plaintext, public_data, key, Some((ciphertext, mac))));
    assert(may_belt_dwp_unwrap(backend, ciphertext, public_data, mac, key, opened->0));
}

/// With a faithful backend, what belt in counter mode encrypted decrypts to
/// the plaintext under the same key, whenever it is decrypted.
pub proof fn lemma_belt_decrypt_inverts_encrypt<B: StbBackend>(
    backend: &B,
    names: AlgorithmNames,
    plaintext: Seq<u8>,
    key: Seq<u8>,
    ciphertext: Seq<u8>,
    opened: Option<Option<Seq<u8>>>,
)
    requires
        spec_decrypts_what_it_encrypted(backend),
        spec_symmetric_algorithm(names.symmetric_encryption) == Some(SymmetricAlgorithm::BeltCtr),
        spec_symmetric_encrypt(backend, names, plaintext, key, Some(ciphertext)),
        spec_symmetric_decrypt(backend, names, ciphertext, key, opened),
    ensures
        opened == Some(Some(plaintext)),
{
    assert(spec_is_key_len(key.len()));
    let (iv, body) = choose|iv: Seq<u8>, body: Option<Seq<u8>>|
        iv.len() == CTR_IV_LEN && #[trigger] may_belt_ctr_encrypt(
            backend,
            plaintext,
            key,
            iv,
            body,
        ) && Some(ciphertext) == spec_framed(iv, body);
    let encrypted = body->0;
    assert(ciphertext == iv + encrypted);
    assert(ciphertext.subrange(0, CTR_IV_LEN as int) == iv);
    assert(ciphertext.skip(CTR_IV_LEN as int) == encrypted);
    assert(may_belt_ctr_encrypt(backend, plaintext, key, iv, Some(encrypted)));
    assert(may_belt_ctr_decrypt(backend, encrypted, key, iv, opened->0));
}

/// With a faithful backend, a generated key of any strength encrypts and
/// decrypts: whatever is encrypted under it with the cipher that it was made
/// for decrypts to the plaintext.
pub proof fn lemma_generated_key_round_trip<B: StbBackend>(
    backend: &B,
    names: AlgorithmNames,
    strength: KeyStrength,
    key: Seq<u8>,
    plaintext: Seq<u8>,
    ciphertext: Seq<u8>,
    opened: Option<Option<Seq<u8>>>,
)
    requires
        spec_decrypts_what_it_encrypted(backend),
        spec_symmetric_genkey(backend, names, strength, Some(key)),
        spec_symmetric_encrypt(backend, names, plaintext, key, Some(ciphertext)),
        spec_symmetric_decrypt(backend, names, ciphertext, key, opened),
    ensures
        key.len() == strength.spec_key_len(),
        opened == Some(Some(plaintext)),
{
    assert(spec_can_generate_key(names));
    lemma_belt_decrypt_inverts_encrypt(backend, names, plaintext, key, ciphertext, opened);
}

/// Whether the two bundles belong together: the identity keys, the signed
/// prekeys and the one-time prekeys, one by one, are key pairs of the
/// backend.
pub open spec fn spec_is_bundle<B: StbBackend>(
    backend: &B,
    private: ReceiverKeysPrivateView,
    public: ReceiverKeysPublicView,
) -> bool {
    &&& spec_is_keypair(backend, private.ik, public.ik)
    &&& spec_is_keypair(backend, private.spk, public.spk)
    &&& private.opks.len() == public.opks.len()
    &&& forall|i: int|
        0 <= i < public.opks.len() ==> #[trigger] spec_is_keypair(
            backend,
            private.opks[i],
            public.opks[i],
        )
}

/// A key pair that the registry made is a key pair of the backend.
pub proof fn lemma_made_keypair_is_keypair<B: StbBackend>(
    backend: &B,
    names: AlgorithmNames,
    private_key: Seq<u8>,
    public_key: Seq<u8>,
)
    requires
        spec_generate_keypair(backend, names, Some((private_key, public_key))),
    ensures
        spec_is_keypair(backend, private_key, public_key),
{
    let seed = choose|seed: Seq<u8>| #[trigger]
        may_bign_keypair(backend, seed, Some((private_key, public_key)));
    assert(may_bign_keypair(backend, seed, Some((private_key, public_key))));
}

/// The bundles that making receiver keys gives belong together.
pub proof fn lemma_made_bundle_is_bundle<B: StbBackend>(
    backend: &B,
    names: AlgorithmNames,
    private: ReceiverKeysPrivateView,
    public: ReceiverKeysPublicView,
)
    requires
        spec_receiver_keys(backend, names, private, public),
    ensures
        spec_is_bundle(backend, private, public),
{
    lemma_made_keypair_is_keypair(backend, names, private.ik, public.ik);
    lemma_made_keypair_is_keypair(backend, names, private.spk, public.spk);
    assert forall|i: int| 0 <= i < public.opks.len() implies #[trigger] spec_is_keypair(
        backend,
        private.opks[i],
        public.opks[i],
    ) by {
        assert(spec_generate_keypair(backend, names, Some((private.opks[i], public.opks[i]))));
        lemma_made_keypair_is_keypair(backend, names, private.opks[i], public.opks[i]);
    }
}

/// With a faithful backend, the receiver follows the initiator: reading a
/// message that holds the ephemeral key, the one-time prekey, the ciphertext
/// and the signature of a message that the initiator made, whatever its tag
/// is, the receiver accepts the signature, agrees on every secret and
/// derives the initiator's keys.
proof fn lemma_decoder_follows_encoder<B: StbBackend>(
    backend: &B,
    ei: EncodeInputs,
    te: EncodeTrace,
    di: DecodeInputs,
    td: DecodeTrace,
)
    requires
        spec_faithful(backend),
        spec_is_keypair(backend, ei.ik_priv, ei.ik_pub),
        spec_is_bundle(backend, di.private, di.public),
        di.public == ei.receiver,
        di.initiator_ik == ei.ik_pub,
        spec_encode_trace(backend, ei, te),
        spec_encode_result(ei, te) is Ok,
        di.message.ek_pub == (spec_encode_result(ei, te)->Ok_0).ek_pub,
        di.message.opk_id == (spec_encode_result(ei, te)->Ok_0).opk_id,
        di.message.ciphertext == (spec_encode_result(ei, te)->Ok_0).ciphertext,
        di.message.signature == (spec_encode_result(ei, te)->Ok_0).signature,
        spec_decode_trace(backend, di, td),
    ensures
        spec_encode_complete(ei, te),
        spec_decode_agreed(di, td),
        td.first_key == te.first_key,
        td.second_key == te.second_key,
{
    let names = ei.receiver.algorithms;
    let public = di.public;
    let private = di.private;
    let message = di.message;
    assert(spec_encode_complete(ei, te));
    assert(spec_encode_agreed(ei, te));
    let ek = te.ephemeral->0;
    let wrapped = te.wrapped->0;

    // The one-time prekey that the message names is one of the bundle.
    assert(message.opk_id == spec_encode_opk_id(ei, te));
    assert(spec_decode_in_range(di)) by {
        if public.opks.len() > 0 {
            let i = message.opk_id->0;
            assert(i < public.opks.len());
        }
    }
    assert(spec_decode_opk(di) == spec_encode_opk(ei, te));

    // The signature checks.
    let payload = spec_signed_payload(ek.1, spec_encode_opk(ei, te), wrapped.0);
    lemma_verify_accepts_sign(
        backend,
        names,
        ei.ik_priv,
        ei.ik_pub,
        payload,
        te.signature->0,
        td.verified,
    );

    // Both sides agree on every secret.
    lemma_made_keypair_is_keypair(backend, names, ek.0, ek.1);
    lemma_diffie_hellman_agrees(
        backend,
        names,
        ei.ik_priv,
        ei.ik_pub,
        private.spk,
        public.spk,
        te.dh1->0,
        td.dh1,
    );
    lemma_diffie_hellman_agrees(
        backend,
        names,
        ek.0,
        ek.1,
        private.ik,
        public.ik,
        te.dh2->0,
        td.dh2,
    );
    lemma_diffie_hellman_agrees(
        backend,
        names,
        ek.0,
        ek.1,
        private.spk,
        public.spk,
        te.dh3->0,
        td.dh3,
    );
    if message.opk_id is Some {
        let i = (message.opk_id->0) as int;
        assert(spec_is_keypair(backend, private.opks[i], public.opks[i]));
        lemma_diffie_hellman_agrees(
            backend,
            names,
            ek.0,
            ek.1,
            private.opks[i],
            public.opks[i],
            te.dh4->0,
            td.dh4,
        );
    }
    assert(spec_decode_agreed(di, td));
    assert(spec_decode_agreements(di, td) == spec_encode_agreements(ei, te));

    // Both sides derive the same keys.
    lemma_kdf_is_a_function(
        backend,
        names,
        spec_encode_agreements(ei, te),
        32,
        te.first_key,
        td.first_key,
    );
    lemma_kdf_is_a_function(backend, names, te.first_key->0, 32, te.second_key, td.second_key);
}

/// Decoding inverts encoding. With a faithful backend, whatever message the
/// initiator makes of a payload with a bundle, the owner of the bundle reads
/// that payload from it, be the payload empty or not, and whether the bundle
/// holds one-time prekeys or none.
pub proof fn lemma_decode_inverts_encode<B: StbBackend>(
    backend: &B,
    plaintext: Seq<u8>,
    ik_priv: Seq<u8>,
    ik_pub: Seq<u8>,
    public: ReceiverKeysPublicView,
    private: ReceiverKeysPrivateView,
    message: X3DhDataView,
    decoded: Result<Seq<u8>, X3DhError>,
)
    requires
        spec_faithful(backend),
        spec_is_keypair(backend, ik_priv, ik_pub),
        spec_is_bundle(backend, private, public),
        spec_encode(
            backend,
            EncodeInputs { plaintext, ik_priv, ik_pub, receiver: public },
            Ok(message),
        ),
        spec_decode(
            backend,
            DecodeInputs { message, initiator_ik: ik_pub, public, private },
            decoded,
        ),
    ensures
        decoded == Ok::<Seq<u8>, X3DhError>(plaintext),
{
    let ei = EncodeInputs { plaintext, ik_priv, ik_pub, receiver: public };
    let di = DecodeInputs { message, initiator_ik: ik_pub, public, private };
    let te = choose|t: EncodeTrace| #[trigger]
        spec_encode_trace(backend, ei, t) && spec_encode_result(ei, t) == Ok::<
            X3DhDataView,
            X3DhError,
        >(message);
    let td = choose|t: DecodeTrace| #[trigger]
        spec_decode_trace(backend, di, t) && spec_decode_result(di, t) == decoded;
    lemma_decoder_follows_encoder(backend, ei, te, di, td);
    let wrapped = te.wrapped->0;
    lemma_unwrap_inverts_wrap(
        backend,
        public.algorithms,
        plaintext,
        te.second_key->0,
        spec_associated_data(ik_pub, public.ik),
        wrapped.0,
        wrapped.1,
        td.unwrapped,
    );
}

/// Whether the backend opens a wrapped text under its own tag only: where
/// it gave a ciphertext and a tag for a plaintext, it opens that ciphertext
/// under the same key and associated data with no other tag.
pub open spec fn spec_rejects_other_tags<B: StbBackend>(backend: &B) -> bool {
    forall|
        plaintext: Seq<u8>,
        associated_data: Seq<u8>,
        key: Seq<u8>,
        ciphertext: Seq<u8>,
        tag: Seq<u8>,
        other_tag: Seq<u8>,
        opened: Option<Seq<u8>>,
    |
        #![trigger
            may_belt_dwp_wrap(backend, plaintext, associated_data, key, Some((ciphertext, tag))),
            may_belt_dwp_unwrap(backend, ciphertext, associated_data, other_tag, key, opened)
        ]
        may_belt_dwp_wrap(backend, plaintext, associated_data, key, Some((ciphertext, tag)))
            && may_belt_dwp_unwrap(backend, ciphertext, associated_data, other_tag, key, opened)
            && other_tag != tag ==> opened is None
}

/// A changed tag is a decryption failure. With a faithful backend that opens
/// a wrapped text under its own tag only, a message that the initiator made
/// and whose tag was changed afterwards, in one byte or in all, is read as
/// `DecryptionFailure`.
pub proof fn lemma_changed_tag_is_a_decryption_failure<B: StbBackend>(
    backend: &B,
    plaintext: Seq<u8>,
    ik_priv: Seq<u8>,
    ik_pub: Seq<u8>,
    public: ReceiverKeysPublicView,
    private: ReceiverKeysPrivateView,
    message: X3DhDataView,
    changed_mac: Seq<u8>,
    decoded: Result<Seq<u8>, X3DhError>,
)
    requires
        spec_faithful(backend),
        spec_rejects_other_tags(backend),
        spec_is_keypair(backend, ik_priv, ik_pub),
        spec_is_bundle(backend, private, public),
        spec_encode(
            backend,
            EncodeInputs { plaintext, ik_priv, ik_pub, receiver: public },
            Ok(message),
        ),
        changed_mac != message.mac,
        spec_decode(
            backend,
            DecodeInputs {
                message: X3DhDataView { mac: changed_mac, ..message },
                initiator_ik: ik_pub,
                public,
                private,
            },
            decoded,
        ),
    ensures
        decoded == Err::<Seq<u8>, X3DhError>(X3DhError::DecryptionFailure),
{
    let ei = EncodeInputs { plaintext, ik_priv, ik_pub, receiver: public };
    let di = DecodeInputs {
        message: X3DhDataView { mac: changed_mac, ..message },
        initiator_ik: ik_pub,
        public,
        private,
    };
    let te = choose|t: EncodeTrace| #[trigger]
        spec_encode_trace(backend, ei, t) && spec_encode_result(ei, t) == Ok::<
            X3DhDataView,
            X3DhError,
        >(message);
    let td = choose|t: DecodeTrace| #[trigger]
        spec_decode_trace(backend, di, t) && spec_decode_result(di, t) == decoded;
    lemma_decoder_follows_encoder(backend, ei, te, di, td);
    let names = public.algorithms;
    let wrapped = te.wrapped->0;
    let key = te.second_key->0;
    let associated = spec_associated_data(ik_pub, public.ik);
    assert(spec_aead_wrap(backend, names, plaintext, key, associated, Some(wrapped)));
    assert(spec_aead_unwrap(
        backend,
        names,
        wrapped.0,
        associated,
        changed_mac,
        key,
        td.unwrapped,
    ));
    assert(spec_aead_algorithm(names.aead) is Some);
    assert(may_belt_dwp_wrap(backend, plaintext, associated, key, Some((wrapped.0, wrapped.1))));
    assert(may_belt_dwp_unwrap(
        backend,
        wrapped.0,
        associated,
        changed_mac,
        key,
        td.unwrapped->0,
    ));
}

/// A payload is read only from a message that carries the initiator's
/// signature and whose tag fits: reading never succeeds unless the registry
/// accepted the signature on the ephemeral key, the one-time prekey named
/// and the ciphertext, and the backend opened the ciphertext to that payload
/// under the tag of the message and the associated data of the two
/// identities, the initiator's first.
pub proof fn lemma_decode_needs_signature_and_tag<B: StbBackend>(
    backend: &B,
    inputs: DecodeInputs,
    plaintext: Seq<u8>,
)
    requires
        spec_decode(backend, inputs, Ok(plaintext)),
    ensures
        spec_decode_in_range(inputs),
        spec_verify(
            backend,
            inputs.public.algorithms,
            inputs.initiator_ik,
            spec_signed_payload(
                inputs.message.ek_pub,
                spec_decode_opk(inputs),
                inputs.message.ciphertext,
            ),
            inputs.message.signature,
            Some(true),
        ),
        exists|key: Seq<u8>| #[trigger]
            may_belt_dwp_unwrap(
                backend,
                inputs.message.ciphertext,
                spec_associated_data(inputs.initiator_ik, inputs.public.ik),
                inputs.message.mac,
                key,
                Some(plaintext),
            ),
{
    let trace = choose|t: DecodeTrace| #[trigger]
        spec_decode_trace(backend, inputs, t) && spec_decode_result(inputs, t) == Ok::<
            Seq<u8>,
            X3DhError,
        >(plaintext);
    assert(spec_decode_agreed(inputs, trace));
    assert(trace.unwrapped == Some(Some(plaintext)));
    assert(spec_aead_unwrap(
        backend,
        inputs.public.algorithms,
        inputs.message.ciphertext,
        spec_associated_data(inputs.initiator_ik, inputs.public.ik),
        inputs.message.mac,
        trace.second_key->0,
        trace.unwrapped,
    ));
    assert(may_belt_dwp_unwrap(
        backend,
        inputs.message.ciphertext,
        spec_associated_data(inputs.initiator_ik, inputs.public.ik),
        inputs.message.mac,
        trace.second_key->0,
        Some(plaintext),
    ));
}

/// A tag that does not fit is reported as a decryption failure: where the
/// backend opens the ciphertext of a message under no key with the tag of
/// the message and the associated data of the two identities, reading the
/// message gives no payload, and where reading gets as far as unwrapping,
/// it gives `DecryptionFailure`.
pub proof fn lemma_unfit_tag_is_reported<B: StbBackend>(
    backend: &B,
    inputs: DecodeInputs,
    decoded: Result<Seq<u8>, X3DhError>,
)
    requires
        spec_decode(backend, inputs, decoded),
        forall|key: Seq<u8>, opened: Option<Seq<u8>>| #[trigger]
            may_belt_dwp_unwrap(
                backend,
                inputs.message.ciphertext,
                spec_associated_data(inputs.initiator_ik, inputs.public.ik),
                inputs.message.mac,
                key,
                opened,
            ) ==> opened is None,
    ensures
        decoded is Err,
        decoded != Err::<Seq<u8>, X3DhError>(X3DhError::InvalidOpkKeyId) && decoded != Err::<
            Seq<u8>,
            X3DhError,
        >(X3DhError::InvalidSignature) && decoded != Err::<Seq<u8>, X3DhError>(
            X3DhError::AlgorithmNotSupported,
        ) ==> decoded == Err::<Seq<u8>, X3DhError>(X3DhError::DecryptionFailure),
{
    if decoded is Ok {
        lemma_decode_needs_signature_and_tag(backend, inputs, decoded->Ok_0);
    }
}

/// A signature that does not check is reported as such: where the registry
/// rejects the signature of a message under the claimed initiator's identity
/// key, as it does for a message that another identity signed, reading the
/// message gives `InvalidSignature`, provided that the one-time prekey that
/// the message names is one of the bundle.
pub proof fn lemma_rejected_signature_is_reported<B: StbBackend>(
    backend: &B,
    inputs: DecodeInputs,
    decoded: Result<Seq<u8>, X3DhError>,
)
    requires
        spec_decode(backend, inputs, decoded),
        spec_decode_in_range(inputs),
        forall|verified: Option<bool>| #[trigger]
            spec_verify(
                backend,
                inputs.public.algorithms,
                inputs.initiator_ik,
                spec_signed_payload(
                    inputs.message.ek_pub,
                    spec_decode_opk(inputs),
                    inputs.message.ciphertext,
                ),
                inputs.message.signature,
                verified,
            ) ==> verified == Some(false),
    ensures
        decoded == Err::<Seq<u8>, X3DhError>(X3DhError::InvalidSignature),
{
    let trace = choose|t: DecodeTrace| #[trigger]
        spec_decode_trace(backend, inputs, t) && spec_decode_result(inputs, t) == decoded;
    assert(trace.verified == Some(false));
}

/// A one-time prekey out of range is refused before anything is asked of
/// the registry: whatever the backend is and whatever else the message
/// holds, reading a message that names a one-time prekey which the bundle
/// does not hold gives `InvalidOpkKeyId`.
pub proof fn lemma_opk_out_of_range_is_refused<B: StbBackend>(
    backend: &B,
    inputs: DecodeInputs,
    decoded: Result<Seq<u8>, X3DhError>,
)
    requires
        spec_decode(backend, inputs, decoded),
        inputs.message.opk_id matches Some(i) && i >= inputs.public.opks.len(),
    ensures
        decoded == Err::<Seq<u8>, X3DhError>(X3DhError::InvalidOpkKeyId),
{
}

} // verus!
