use peregrine::algorithms::CryptoAlgorithms;
use peregrine::backend::StbBackend;
use peregrine::keys::{KeyStrength, PrivateKey, PublicKey};
use peregrine::limits::Limits;
use peregrine::registry::{
    aead_unwrap, aead_wrap, diffie_hellman, exactly, generate_keypair, hash, kdf, kdf_keypair,
    rng_fill, sign, stretch, symmetric_decrypt, symmetric_encrypt, symmetric_genkey, verify,
};
use peregrine::errors::ServerError;
use peregrine::session::{
    check_session_window, login_account, ownership_outcome, request_session, signature_outcome,
    SessionParams,
};
use peregrine::x3dh::{
    agreements, associated_data, choose_opk_index, decode_x3dh, encode_x3dh,
    generate_receiver_keys, pick_opk_index, signed_payload, X3DhData, X3DhError,
    X3DhReceiverKeysPrivate, X3DhReceiverKeysPublic,
};

/// A stand-in for the national-standard primitives, built from modular
/// arithmetic: the agreement commutes, a signature checks against its own key
/// only, and a wrapped text opens under its own key and associated data only.
struct Toy;

const P: u64 = (1 << 61) - 1;
const G: u64 = 3;

fn mulmod(a: u64, b: u64, m: u64) -> u64 {
    ((a as u128 * b as u128) % m as u128) as u64
}

fn powmod(base: u64, mut exp: u64) -> u64 {
    let mut result = 1u64;
    let mut square = base % P;
    while exp > 0 {
        if exp & 1 == 1 {
            result = mulmod(result, square, P);
        }
        square = mulmod(square, square, P);
        exp >>= 1;
    }
    result
}

fn digest(parts: &[&[u8]]) -> Vec<u8> {
    let mut out = Vec::new();
    for lane in 0u64..8 {
        let mut state = 0xcbf29ce484222325u64 ^ lane.wrapping_mul(0x9e3779b97f4a7c15);
        for part in parts {
            for byte in (part.len() as u64).to_le_bytes().iter().chain(part.iter()) {
                state ^= *byte as u64;
                state = state.wrapping_mul(0x100000001b3);
                state ^= state >> 29;
            }
        }
        out.extend(state.to_le_bytes());
    }
    out
}

fn number(bytes: &[u8]) -> u64 {
    let mut first = [0u8; 8];
    for (i, byte) in bytes.iter().take(8).enumerate() {
        first[i] = *byte;
    }
    u64::from_le_bytes(first)
}

fn stream(key: &[u8], label: &[u8], len: usize) -> Vec<u8> {
    let mut out = Vec::new();
    let mut counter = 0u64;
    while out.len() < len {
        out.extend(digest(&[key, label, &counter.to_le_bytes()]));
        counter += 1;
    }
    out.truncate(len);
    out
}

fn masked(data: &[u8], mask: &[u8]) -> Vec<u8> {
    data.iter().zip(mask).map(|(a, b)| a ^ b).collect()
}

fn secret_of(private_key: &[u8], public_key: &[u8]) -> Option<u64> {
    if private_key.len() != 32 || public_key.len() != 32 {
        return None;
    }
    let x = number(private_key);
    if x == 0 || x >= P - 1 || (powmod(G, x), &digest(&[b"pub", &private_key[..8]])[..24])
        != (number(public_key), &public_key[8..])
    {
        return None;
    }
    Some(x)
}

impl StbBackend for Toy {
    fn bash512(&self, data: &[u8]) -> Option<Vec<u8>> {
        Some(digest(&[b"hash", data]))
    }

    fn bign_keypair(&self, seed: &[u8]) -> Option<(Vec<u8>, Vec<u8>)> {
        let x = number(&digest(&[b"key", seed])) % (P - 2) + 1;
        let mut private_key = x.to_le_bytes().to_vec();
        private_key.extend(&digest(&[b"pad", seed])[..24]);
        let mut public_key = powmod(G, x).to_le_bytes().to_vec();
        public_key.extend(&digest(&[b"pub", &private_key[..8]])[..24]);
        Some((private_key, public_key))
    }

    fn bign_sign(
        &self,
        private_key: &[u8],
        public_key: &[u8],
        hashed: &[u8],
        seed: &[u8],
    ) -> Option<Vec<u8>> {
        let x = secret_of(private_key, public_key)?;
        let k = number(&digest(&[b"nonce", seed, hashed])) % (P - 1);
        let r = powmod(G, k);
        let e = number(&digest(&[b"challenge", &r.to_le_bytes(), hashed, public_key])) % (P - 1);
        let s = ((k as u128 + e as u128 * x as u128) % (P as u128 - 1)) as u64;
        let mut signature = r.to_le_bytes().to_vec();
        signature.extend(s.to_le_bytes());
        Some(signature)
    }

    fn bign_verify(&self, public_key: &[u8], hashed: &[u8], signature: &[u8]) -> bool {
        if public_key.len() != 32 || signature.len() != 16 {
            return false;
        }
        let y = number(public_key);
        let r = number(&signature[..8]);
        let s = number(&signature[8..]);
        let e = number(&digest(&[b"challenge", &r.to_le_bytes(), hashed, public_key])) % (P - 1);
        r != 0 && r < P && powmod(G, s) == mulmod(r, powmod(y, e), P)
    }

    fn bign_diffie_hellman(
        &self,
        private_key: &[u8],
        public_key: &[u8],
        other_public_key: &[u8],
    ) -> Option<Vec<u8>> {
        let x = secret_of(private_key, public_key)?;
        if other_public_key.len() != 32 {
            return None;
        }
        let shared = powmod(number(other_public_key), x);
        Some(digest(&[b"agree", &shared.to_le_bytes()])[..32].to_vec())
    }

    fn bake_kdf(&self, secret: &[u8]) -> Option<Vec<u8>> {
        Some(digest(&[b"kdf", secret])[..32].to_vec())
    }

    fn belt_dwp_wrap(
        &self,
        plaintext: &[u8],
        associated_data: &[u8],
        key: &[u8],
    ) -> Option<(Vec<u8>, Vec<u8>)> {
        if key.len() != 32 {
            return None;
        }
        let ciphertext = masked(plaintext, &stream(key, b"dwp", plaintext.len()));
        let tag = digest(&[b"tag", key, associated_data, &ciphertext])[..8].to_vec();
        Some((ciphertext, tag))
    }

    fn belt_dwp_unwrap(
        &self,
        ciphertext: &[u8],
        associated_data: &[u8],
        tag: &[u8],
        key: &[u8],
    ) -> Option<Vec<u8>> {
        if key.len() != 32 || tag != &digest(&[b"tag", key, associated_data, ciphertext])[..8] {
            return None;
        }
        Some(masked(ciphertext, &stream(key, b"dwp", ciphertext.len())))
    }

    fn belt_ctr_encrypt(&self, data: &[u8], key: &[u8], iv: &[u8]) -> Option<Vec<u8>> {
        if iv.len() != 16 {
            return None;
        }
        Some(masked(data, &stream(key, iv, data.len())))
    }

    fn belt_ctr_decrypt(&self, data: &[u8], key: &[u8], iv: &[u8]) -> Option<Vec<u8>> {
        self.belt_ctr_encrypt(data, key, iv)
    }

    fn brng_ctr(&self, seed: &[u8], len: usize) -> Option<Vec<u8>> {
        if seed.len() != 32 {
            return None;
        }
        Some(stream(seed, b"brng", len))
    }
}

/// A backend that answers nothing.
struct Silent;

impl StbBackend for Silent {
    fn bash512(&self, _: &[u8]) -> Option<Vec<u8>> {
        None
    }

    fn bign_keypair(&self, _: &[u8]) -> Option<(Vec<u8>, Vec<u8>)> {
        None
    }

    fn bign_sign(&self, _: &[u8], _: &[u8], _: &[u8], _: &[u8]) -> Option<Vec<u8>> {
        None
    }

    fn bign_verify(&self, _: &[u8], _: &[u8], _: &[u8]) -> bool {
        false
    }

    fn bign_diffie_hellman(&self, _: &[u8], _: &[u8], _: &[u8]) -> Option<Vec<u8>> {
        None
    }

    fn bake_kdf(&self, _: &[u8]) -> Option<Vec<u8>> {
        Some(vec![1, 2, 3])
    }

    fn belt_dwp_wrap(&self, _: &[u8], _: &[u8], _: &[u8]) -> Option<(Vec<u8>, Vec<u8>)> {
        None
    }

    fn belt_dwp_unwrap(&self, _: &[u8], _: &[u8], _: &[u8], _: &[u8]) -> Option<Vec<u8>> {
        None
    }

    fn belt_ctr_encrypt(&self, _: &[u8], _: &[u8], _: &[u8]) -> Option<Vec<u8>> {
        None
    }

    fn belt_ctr_decrypt(&self, _: &[u8], _: &[u8], _: &[u8]) -> Option<Vec<u8>> {
        None
    }

    fn brng_ctr(&self, _: &[u8], len: usize) -> Option<Vec<u8>> {
        Some(vec![0; len + 1])
    }
}

fn national() -> CryptoAlgorithms {
    CryptoAlgorithms::prequantum_bee2rs()
}

fn standard() -> CryptoAlgorithms {
    CryptoAlgorithms::prequantum_standard()
}

fn bundle() -> (X3DhReceiverKeysPrivate, X3DhReceiverKeysPublic) {
    generate_receiver_keys(&Toy, &national()).unwrap()
}

fn without_opks(
    keys: (X3DhReceiverKeysPrivate, X3DhReceiverKeysPublic),
) -> (X3DhReceiverKeysPrivate, X3DhReceiverKeysPublic) {
    let (mut private, mut public) = keys;
    private.opks.clear();
    public.opks.clear();
    (private, public)
}

fn flipped(bytes: &[u8], at: usize) -> Vec<u8> {
    let mut out = bytes.to_vec();
    out[at] ^= 1;
    out
}

fn failure<T>(result: Result<T, X3DhError>) -> X3DhError {
    match result {
        Ok(_) => panic!("the call succeeded"),
        Err(e) => e,
    }
}

#[test]
fn test_x3dh() {
    let random_keys_a = generate_receiver_keys(&Toy, &CryptoAlgorithms::prequantum_bee2rs()).unwrap();
    let random_keys_b = generate_receiver_keys(&Toy, &CryptoAlgorithms::prequantum_bee2rs()).unwrap();
    let message = "Hello, World!".as_bytes();
    let encode_data = encode_x3dh(
        &Toy,
        message,
        random_keys_a.0.ik,
        random_keys_a.1.ik.clone(),
        random_keys_b.1.clone(),
    )
    .unwrap();
    let decoded_data = decode_x3dh(
        &Toy,
        encode_data,
        random_keys_a.1.ik,
        random_keys_b.1,
        random_keys_b.0,
    )
    .unwrap();
    assert_eq!(*message, *decoded_data);
}

#[test]
fn receiver_keys_hold_ten_one_time_prekeys_and_a_signed_prekey() {
    let (private, public) = bundle();
    assert_eq!(public.algorithms, national());
    assert_eq!(public.opks.len(), 10);
    assert_eq!(private.opks.len(), 10);
    assert_eq!(
        verify(&Toy, &national(), public.ik.clone(), &public.spk.pk, &public.spk_signature),
        Some(true)
    );
    assert_ne!(public.ik, public.spk);
    for i in 0..10 {
        for j in 0..i {
            assert_ne!(public.opks[i], public.opks[j]);
        }
        assert!(
            diffie_hellman(
                &Toy,
                &national(),
                private.opks[i].clone(),
                public.opks[i].clone(),
                public.ik.clone()
            )
            .is_some()
        );
    }
}

#[test]
fn receiver_keys_are_made_whole_or_not_at_all() {
    assert!(generate_receiver_keys(&Toy, &standard()).is_none());
    assert!(generate_receiver_keys(&Silent, &national()).is_none());
    let mut mixed = national();
    mixed.hash = "rustcrypto::aes-gcm".to_owned();
    assert!(generate_receiver_keys(&Toy, &mixed).is_none());
}

#[test]
fn round_trip_of_any_plaintext_with_one_time_prekeys() {
    let a = bundle();
    let b = bundle();
    for len in [0usize, 1, 13, 32, 1000] {
        let text: Vec<u8> = (0..len).map(|i| (i * 31 + 5) as u8).collect();
        let message =
            encode_x3dh(&Toy, &text, a.0.ik.clone(), a.1.ik.clone(), b.1.clone()).unwrap();
        assert!(message.opk_id.unwrap() < 10);
        assert_eq!(message.ciphertext.len(), len);
        let back = decode_x3dh(&Toy, message, a.1.ik.clone(), b.1.clone(), b.0.clone());
        assert_eq!(back, Ok(text));
    }
}

#[test]
fn round_trip_of_any_plaintext_without_one_time_prekeys() {
    let a = bundle();
    let b = without_opks(bundle());
    for len in [0usize, 1, 13, 32, 1000] {
        let text: Vec<u8> = (0..len).map(|i| (i * 17 + 3) as u8).collect();
        let message =
            encode_x3dh(&Toy, &text, a.0.ik.clone(), a.1.ik.clone(), b.1.clone()).unwrap();
        assert_eq!(message.opk_id, None);
        let back = decode_x3dh(&Toy, message, a.1.ik.clone(), b.1.clone(), b.0.clone());
        assert_eq!(back, Ok(text));
    }
}

#[test]
fn every_one_time_prekey_is_usable() {
    let a = bundle();
    let b = bundle();
    let mut seen = [false; 10];
    for _ in 0..400 {
        let message =
            encode_x3dh(&Toy, b"key", a.0.ik.clone(), a.1.ik.clone(), b.1.clone()).unwrap();
        seen[message.opk_id.unwrap() as usize] = true;
        let back = decode_x3dh(&Toy, message, a.1.ik.clone(), b.1.clone(), b.0.clone());
        assert_eq!(back, Ok(b"key".to_vec()));
    }
    assert!(seen.iter().filter(|used| **used).count() >= 2);
}

#[test]
fn a_message_is_not_its_plaintext() {
    let a = bundle();
    let b = bundle();
    let text = b"a conversation key of 32 bytes!!";
    let message = encode_x3dh(&Toy, text, a.0.ik.clone(), a.1.ik.clone(), b.1.clone()).unwrap();
    assert_ne!(message.ciphertext, text.to_vec());
    let again = encode_x3dh(&Toy, text, a.0.ik.clone(), a.1.ik.clone(), b.1.clone()).unwrap();
    assert_ne!(message.ek_pub, again.ek_pub);
    assert_ne!(message.ciphertext, again.ciphertext);
}

#[test]
fn a_changed_tag_is_a_decryption_failure() {
    let a = bundle();
    let b = bundle();
    let message = encode_x3dh(&Toy, b"payload", a.0.ik.clone(), a.1.ik.clone(), b.1.clone()).unwrap();
    for i in 0..message.mac.len() {
        let mut changed = message.clone();
        changed.mac = flipped(&message.mac, i);
        let back = decode_x3dh(&Toy, changed, a.1.ik.clone(), b.1.clone(), b.0.clone());
        assert_eq!(back, Err(X3DhError::DecryptionFailure));
    }
    let mut short = message.clone();
    short.mac.pop();
    let back = decode_x3dh(&Toy, short, a.1.ik.clone(), b.1.clone(), b.0.clone());
    assert_eq!(back, Err(X3DhError::DecryptionFailure));
}

#[test]
fn a_changed_ciphertext_never_decodes() {
    let a = bundle();
    let b = bundle();
    let message = encode_x3dh(&Toy, b"payload", a.0.ik.clone(), a.1.ik.clone(), b.1.clone()).unwrap();
    for i in 0..message.ciphertext.len() {
        let mut changed = message.clone();
        changed.ciphertext = flipped(&message.ciphertext, i);
        let back = decode_x3dh(&Toy, changed, a.1.ik.clone(), b.1.clone(), b.0.clone());
        assert_eq!(back, Err(X3DhError::InvalidSignature));
    }
}

#[test]
fn a_message_signed_anew_by_another_identity_is_a_decryption_failure() {
    let a = bundle();
    let b = bundle();
    let c = bundle();
    let message = encode_x3dh(&Toy, b"payload", a.0.ik.clone(), a.1.ik.clone(), b.1.clone()).unwrap();
    let opk = message.opk_id.map(|i| &b.1.opks[i as usize]);
    let payload = signed_payload(&message.ek_pub, opk, &message.ciphertext);
    let mut stolen = message.clone();
    stolen.signature = sign(&Toy, &national(), c.0.ik.clone(), c.1.ik.clone(), &payload).unwrap();
    let back = decode_x3dh(&Toy, stolen, c.1.ik.clone(), b.1.clone(), b.0.clone());
    assert_eq!(back, Err(X3DhError::DecryptionFailure));
}

#[test]
fn a_message_of_one_identity_fails_against_another() {
    let a = bundle();
    let b = bundle();
    let c = bundle();
    let message = encode_x3dh(&Toy, b"payload", a.0.ik.clone(), a.1.ik.clone(), b.1.clone()).unwrap();
    let back = decode_x3dh(&Toy, message.clone(), c.1.ik.clone(), b.1.clone(), b.0.clone());
    assert_eq!(back, Err(X3DhError::InvalidSignature));
    let back = decode_x3dh(&Toy, message.clone(), b.1.ik.clone(), b.1.clone(), b.0.clone());
    assert_eq!(back, Err(X3DhError::InvalidSignature));
    let mut changed = message.clone();
    changed.signature = flipped(&message.signature, 9);
    let back = decode_x3dh(&Toy, changed, a.1.ik.clone(), b.1.clone(), b.0.clone());
    assert_eq!(back, Err(X3DhError::InvalidSignature));
}

#[test]
fn a_one_time_prekey_out_of_range_is_refused_first() {
    let a = bundle();
    let b = bundle();
    let message = encode_x3dh(&Toy, b"payload", a.0.ik.clone(), a.1.ik.clone(), b.1.clone()).unwrap();
    for id in [10u32, 11, 1000, u32::MAX] {
        let mut changed = message.clone();
        changed.opk_id = Some(id);
        let back = decode_x3dh(&Toy, changed.clone(), a.1.ik.clone(), b.1.clone(), b.0.clone());
        assert_eq!(back, Err(X3DhError::InvalidOpkKeyId));
        changed.signature = vec![];
        let back = decode_x3dh(&Silent, changed, c_key(), b.1.clone(), b.0.clone());
        assert_eq!(back, Err(X3DhError::InvalidOpkKeyId));
    }
    let bare = without_opks(bundle());
    let mut changed = message.clone();
    changed.opk_id = Some(0);
    let back = decode_x3dh(&Toy, changed, a.1.ik.clone(), bare.1.clone(), bare.0.clone());
    assert_eq!(back, Err(X3DhError::InvalidOpkKeyId));
    let mut lopsided = b.0.clone();
    lopsided.opks.truncate(3);
    let mut changed = message.clone();
    changed.opk_id = Some(3);
    let back = decode_x3dh(&Toy, changed, a.1.ik.clone(), b.1.clone(), lopsided);
    assert_eq!(back, Err(X3DhError::InvalidOpkKeyId));
}

fn c_key() -> PublicKey {
    PublicKey { pk: vec![1, 2, 3] }
}

#[test]
fn the_named_one_time_prekey_is_part_of_what_is_signed() {
    let a = bundle();
    let b = bundle();
    let message = encode_x3dh(&Toy, b"payload", a.0.ik.clone(), a.1.ik.clone(), b.1.clone()).unwrap();
    let mut changed = message.clone();
    changed.opk_id = Some((message.opk_id.unwrap() + 1) % 10);
    let back = decode_x3dh(&Toy, changed, a.1.ik.clone(), b.1.clone(), b.0.clone());
    assert_eq!(back, Err(X3DhError::InvalidSignature));
    let mut changed = message.clone();
    changed.opk_id = None;
    let back = decode_x3dh(&Toy, changed, a.1.ik.clone(), b.1.clone(), b.0.clone());
    assert_eq!(back, Err(X3DhError::InvalidSignature));
}

#[test]
fn encode_refuses_a_bundle_with_a_wrong_signature() {
    let a = bundle();
    let b = bundle();
    let mut forged = b.1.clone();
    forged.spk_signature = flipped(&forged.spk_signature, 0);
    let result = encode_x3dh(&Toy, b"payload", a.0.ik.clone(), a.1.ik.clone(), forged);
    assert_eq!(failure(result), X3DhError::InvalidSignature);
    let mut swapped = b.1.clone();
    swapped.spk = b.1.opks[0].clone();
    let result = encode_x3dh(&Toy, b"payload", a.0.ik.clone(), a.1.ik.clone(), swapped);
    assert_eq!(failure(result), X3DhError::InvalidSignature);
}

#[test]
fn encode_and_decode_refuse_an_unsupported_descriptor() {
    let a = bundle();
    let b = bundle();
    let message = encode_x3dh(&Toy, b"payload", a.0.ik.clone(), a.1.ik.clone(), b.1.clone()).unwrap();
    for algorithms in [standard(), CryptoAlgorithms::from_string("unknown".to_owned())] {
        let mut other = b.1.clone();
        other.algorithms = algorithms;
        let result = encode_x3dh(&Toy, b"payload", a.0.ik.clone(), a.1.ik.clone(), other.clone());
        assert_eq!(failure(result), X3DhError::AlgorithmNotSupported);
        let back = decode_x3dh(&Toy, message.clone(), a.1.ik.clone(), other, b.0.clone());
        assert_eq!(back, Err(X3DhError::AlgorithmNotSupported));
    }
    let result = encode_x3dh(&Silent, b"payload", a.0.ik.clone(), a.1.ik.clone(), b.1.clone());
    assert_eq!(failure(result), X3DhError::AlgorithmNotSupported);
}

#[test]
fn error_messages() {
    assert_eq!(X3DhError::AlgorithmNotSupported.message(), "Algorithm not supported");
    assert_eq!(X3DhError::InvalidSignature.message(), "Invalid signature");
    assert_eq!(X3DhError::DecryptionFailure.message(), "Decryption failure");
    assert_eq!(X3DhError::InvalidOpkKeyId.message(), "Invalid OPK key id");
}

#[test]
fn opk_index_is_the_random_number_modulo_the_count() {
    assert_eq!(choose_opk_index(0, 0), None);
    assert_eq!(choose_opk_index(12345, 0), None);
    assert_eq!(choose_opk_index(0, 10), Some(0));
    assert_eq!(choose_opk_index(9, 10), Some(9));
    assert_eq!(choose_opk_index(10, 10), Some(0));
    assert_eq!(choose_opk_index(u32::MAX, 10), Some(5));
    assert_eq!(choose_opk_index(u32::MAX, 1), Some(0));
    assert_eq!(choose_opk_index(7, usize::MAX), Some(7));
    assert_eq!(pick_opk_index(0, 1), 0);
    assert_eq!(pick_opk_index(0x01020304, 10), 0);
    assert_eq!(pick_opk_index(0x01020305, 10), 1);
    assert_eq!(pick_opk_index(u32::MAX, 7), 3);
}

#[test]
fn handshake_byte_strings_are_put_together_in_order() {
    let a = PublicKey { pk: vec![1, 2] };
    let b = PublicKey { pk: vec![3] };
    assert_eq!(associated_data(&a, &b), vec![1, 2, 3]);
    assert_eq!(associated_data(&b, &a), vec![3, 1, 2]);
    assert_eq!(signed_payload(&a, Some(&b), &[9, 8]), vec![1, 2, 3, 9, 8]);
    assert_eq!(signed_payload(&a, None, &[9, 8]), vec![1, 2, 9, 8]);
    assert_eq!(signed_payload(&a, None, &[]), vec![1, 2]);
    assert_eq!(agreements(&[1], &[2, 3], &[4], Some(&vec![5, 6])), vec![1, 2, 3, 4, 5, 6]);
    assert_eq!(agreements(&[1], &[2, 3], &[4], None), vec![1, 2, 3, 4]);
}

#[test]
fn hash_goes_by_the_hash_role() {
    let expected = Toy.bash512(b"abc");
    assert_eq!(hash(&Toy, &national(), b"abc"), expected);
    assert_ne!(hash(&Toy, &national(), b"abc"), Some(b"abc".to_vec()));
    assert_eq!(hash(&Toy, &standard(), b"abc"), None);
    assert_eq!(hash(&Toy, &CryptoAlgorithms::from_string("bee2-rs::bash51".to_owned()), b""), None);
    assert_eq!(hash(&Silent, &national(), b"abc"), None);
}

#[test]
fn keypairs_are_fresh_and_need_the_generator_and_the_scheme() {
    let (private_a, public_a) = generate_keypair(&Toy, &national()).unwrap();
    let (private_b, public_b) = generate_keypair(&Toy, &national()).unwrap();
    assert!(private_a != private_b);
    assert_ne!(public_a, public_b);
    assert!(generate_keypair(&Toy, &standard()).is_none());
    let mut d = national();
    d.rng = "default".to_owned();
    assert!(generate_keypair(&Toy, &d).is_none());
    let mut d = national();
    d.signature = "dalek::ed25519".to_owned();
    assert!(generate_keypair(&Toy, &d).is_none());
    assert!(generate_keypair(&Silent, &national()).is_none());
}

#[test]
fn signatures_check_against_their_key_and_message_only() {
    let (private, public) = generate_keypair(&Toy, &national()).unwrap();
    let (_, other) = generate_keypair(&Toy, &national()).unwrap();
    let signature = sign(&Toy, &national(), private.clone(), public.clone(), b"message").unwrap();
    assert_eq!(verify(&Toy, &national(), public.clone(), b"message", &signature), Some(true));
    assert_eq!(verify(&Toy, &national(), public.clone(), b"massage", &signature), Some(false));
    assert_eq!(verify(&Toy, &national(), other, b"message", &signature), Some(false));
    assert_eq!(verify(&Toy, &national(), public.clone(), b"message", b""), Some(false));
    let digest = Toy.bash512(b"message").unwrap();
    assert!(Toy.bign_verify(&public.pk, &digest, &signature));
    assert!(!Toy.bign_verify(&public.pk, b"message", &signature));
}

#[test]
fn sign_and_verify_need_the_hash_and_the_scheme() {
    let (private, public) = generate_keypair(&Toy, &national()).unwrap();
    let signature = sign(&Toy, &national(), private.clone(), public.clone(), b"m").unwrap();
    let mut no_hash = national();
    no_hash.hash = "sha".to_owned();
    let mut no_scheme = national();
    no_scheme.signature = "rsa".to_owned();
    for d in [no_hash, no_scheme, standard()] {
        assert_eq!(sign(&Toy, &d, private.clone(), public.clone(), b"m"), None);
        assert_eq!(verify(&Toy, &d, public.clone(), b"m", &signature), None);
    }
    assert_eq!(sign(&Silent, &national(), private.clone(), public.clone(), b"m"), None);
    assert_eq!(verify(&Silent, &national(), public.clone(), b"m", &signature), None);
    let stranger = PrivateKey { sk: vec![0; 32] };
    assert_eq!(sign(&Toy, &national(), stranger, public.clone(), b"m"), None);
}

#[test]
fn diffie_hellman_agrees_from_both_sides() {
    let (private_a, public_a) = generate_keypair(&Toy, &national()).unwrap();
    let (private_b, public_b) = generate_keypair(&Toy, &national()).unwrap();
    let ab = diffie_hellman(&Toy, &national(), private_a, public_a.clone(), public_b.clone());
    let ba = diffie_hellman(&Toy, &national(), private_b.clone(), public_b.clone(), public_a);
    assert!(ab.is_some());
    assert_eq!(ab, ba);
    assert_eq!(ab.unwrap().len(), 32);
    let bb = diffie_hellman(&Toy, &national(), private_b.clone(), public_b.clone(), public_b.clone());
    assert_ne!(bb, ba);
    assert_eq!(diffie_hellman(&Toy, &standard(), private_b, public_b.clone(), public_b), None);
}

#[test]
fn kdf_stretches_one_block() {
    let block = Toy.bake_kdf(b"secret").unwrap();
    assert_eq!(kdf(&Toy, &national(), b"secret", 32), Some(block.clone()));
    assert_eq!(kdf(&Toy, &national(), b"secret", 0), Some(vec![]));
    assert_eq!(kdf(&Toy, &national(), b"secret", 5), Some(block[..5].to_vec()));
    let long = kdf(&Toy, &national(), b"secret", 70).unwrap();
    assert_eq!(long.len(), 70);
    assert_eq!(&long[..32], &block[..]);
    assert_eq!(&long[32..64], &block[..]);
    assert_eq!(&long[64..], &block[..6]);
    assert_eq!(kdf(&Toy, &national(), b"secret", 32), kdf(&Toy, &national(), b"secret", 32));
    assert_ne!(kdf(&Toy, &national(), b"secret", 32), kdf(&Toy, &national(), b"secrets", 32));
    assert_ne!(kdf(&Toy, &national(), b"secret", 6), Some(b"secret".to_vec()));
    assert_eq!(kdf(&Toy, &standard(), b"secret", 32), None);
    assert_eq!(kdf(&Silent, &national(), b"secret", 2), None);
}

#[test]
fn stretch_and_exactly() {
    let block: Vec<u8> = (0..32).collect();
    assert_eq!(stretch(None, 4), None);
    assert_eq!(stretch(Some(vec![1; 31]), 4), None);
    assert_eq!(stretch(Some(vec![1; 33]), 4), None);
    assert_eq!(stretch(Some(block.clone()), 0), Some(vec![]));
    assert_eq!(stretch(Some(block.clone()), 3), Some(vec![0, 1, 2]));
    assert_eq!(stretch(Some(block.clone()), 34).unwrap()[30..], [30u8, 31, 0, 1]);
    assert_eq!(exactly(None, 0), None);
    assert_eq!(exactly(Some(vec![1, 2]), 2), Some(vec![1, 2]));
    assert_eq!(exactly(Some(vec![1, 2]), 3), None);
    assert_eq!(exactly(Some(vec![1, 2]), 1), None);
    assert_eq!(exactly(Some(vec![]), 0), Some(vec![]));
}

#[test]
fn kdf_keypair_is_the_same_for_the_same_password() {
    let (private_a, public_a) = kdf_keypair(&Toy, &national(), b"password").unwrap();
    let (private_b, public_b) = kdf_keypair(&Toy, &national(), b"password").unwrap();
    let (private_c, public_c) = kdf_keypair(&Toy, &national(), b"passwort").unwrap();
    assert!(private_a == private_b);
    assert_eq!(public_a, public_b);
    assert!(private_a != private_c);
    assert_ne!(public_a, public_c);
    let seed = kdf(&Toy, &national(), b"password", 32).unwrap();
    let (_, expected) = Toy.bign_keypair(&seed).unwrap();
    assert_eq!(public_a.pk, expected);
    let signature = sign(&Toy, &national(), private_a, public_a.clone(), b"m").unwrap();
    assert_eq!(verify(&Toy, &national(), public_b, b"m", &signature), Some(true));
    assert!(kdf_keypair(&Toy, &standard(), b"password").is_none());
    let mut d = national();
    d.signature = "dalek::ed25519".to_owned();
    assert!(kdf_keypair(&Toy, &d, b"password").is_none());
    assert!(kdf_keypair(&Silent, &national(), b"password").is_none());
}

#[test]
fn aead_round_trip_and_binding() {
    let key = PrivateKey { sk: vec![7; 32] };
    let (ciphertext, tag) = aead_wrap(&Toy, &national(), b"text", key.clone(), b"public").unwrap();
    assert_ne!(ciphertext, b"text".to_vec());
    assert_eq!(
        aead_unwrap(&Toy, &national(), &ciphertext, b"public", &tag, key.clone()),
        Some(Some(b"text".to_vec()))
    );
    assert_eq!(
        aead_unwrap(&Toy, &national(), &ciphertext, b"publik", &tag, key.clone()),
        Some(None)
    );
    assert_eq!(
        aead_unwrap(&Toy, &national(), &flipped(&ciphertext, 0), b"public", &tag, key.clone()),
        Some(None)
    );
    assert_eq!(
        aead_unwrap(&Toy, &national(), &ciphertext, b"public", &flipped(&tag, 7), key.clone()),
        Some(None)
    );
    let other = PrivateKey { sk: vec![8; 32] };
    assert_eq!(aead_unwrap(&Toy, &national(), &ciphertext, b"public", &tag, other), Some(None));
}

#[test]
fn aead_needs_the_cipher_and_a_key_of_32_bytes() {
    let key = PrivateKey { sk: vec![7; 32] };
    assert_eq!(aead_wrap(&Toy, &standard(), b"text", key.clone(), b""), None);
    assert_eq!(aead_unwrap(&Toy, &standard(), b"text", b"", b"12345678", key.clone()), None);
    for len in [0usize, 16, 31, 33] {
        let short = PrivateKey { sk: vec![7; len] };
        assert_eq!(aead_wrap(&Toy, &national(), b"text", short.clone(), b""), None);
        assert_eq!(aead_unwrap(&Toy, &national(), b"text", b"", b"12345678", short), None);
    }
    assert_eq!(aead_wrap(&Silent, &national(), b"text", key.clone(), b""), None);
    assert_eq!(aead_unwrap(&Silent, &national(), b"text", b"", b"12345678", key), Some(None));
}

#[test]
fn generated_keys_have_the_length_of_their_strength() {
    for (strength, len) in [
        (KeyStrength::High, 16usize),
        (KeyStrength::VeryHigh, 24),
        (KeyStrength::ExtremelyHigh, 32),
    ] {
        let key = symmetric_genkey(&Toy, &national(), strength).unwrap();
        assert_eq!(key.len(), len);
        assert_ne!(symmetric_genkey(&Toy, &national(), strength).unwrap(), key);
        for text_len in [0usize, 1, 16, 100] {
            let text: Vec<u8> = (0..text_len).map(|i| (i * 3) as u8).collect();
            let ciphertext = symmetric_encrypt(&Toy, &national(), &text, &key).unwrap();
            assert_eq!(ciphertext.len(), 16 + text_len);
            assert_eq!(symmetric_decrypt(&Toy, &national(), &ciphertext, &key), Some(Some(text)));
        }
        assert_eq!(symmetric_genkey(&Toy, &standard(), strength), None);
        assert_eq!(symmetric_genkey(&Silent, &national(), strength), None);
        let mut d = national();
        d.symmetric_encryption = "rustcrypto::aes-gcm".to_owned();
        assert_eq!(symmetric_genkey(&Toy, &d, strength), None);
    }
}

#[test]
fn belt_ciphertext_starts_with_its_initial_value() {
    let key = [4u8; 32];
    let a = symmetric_encrypt(&Toy, &national(), b"some text", &key).unwrap();
    let b = symmetric_encrypt(&Toy, &national(), b"some text", &key).unwrap();
    assert_ne!(a[..16], b[..16]);
    assert_eq!(Toy.belt_ctr_encrypt(b"some text", &key, &a[..16]).unwrap(), a[16..].to_vec());
    assert_ne!(a[16..], *b"some text");
}

#[test]
fn symmetric_cipher_refuses_other_key_lengths() {
    for d in [national(), standard()] {
        for len in [0usize, 8, 15, 17, 25, 31, 33, 64] {
            let key = vec![1u8; len];
            assert_eq!(symmetric_encrypt(&Toy, &d, b"text", &key), None);
            assert_eq!(symmetric_decrypt(&Toy, &d, &[0u8; 48], &key), None);
        }
    }
    let unknown = CryptoAlgorithms::from_string("unknown".to_owned());
    assert_eq!(symmetric_encrypt(&Toy, &unknown, b"text", &[1u8; 16]), None);
    assert_eq!(symmetric_decrypt(&Toy, &unknown, &[0u8; 48], &[1u8; 16]), None);
}

#[test]
fn symmetric_decrypt_fails_on_a_short_ciphertext() {
    assert_eq!(symmetric_decrypt(&Toy, &national(), &[0u8; 15], &[1u8; 16]), Some(None));
    assert_eq!(symmetric_decrypt(&Toy, &national(), &[], &[1u8; 32]), Some(None));
    assert_eq!(symmetric_decrypt(&Toy, &national(), &[0u8; 16], &[1u8; 16]), Some(Some(vec![])));
    assert_eq!(symmetric_decrypt(&Toy, &standard(), &[0u8; 11], &[1u8; 16]), Some(None));
    assert_eq!(symmetric_decrypt(&Silent, &national(), &[0u8; 16], &[1u8; 16]), Some(None));
}

#[test]
fn aes_family_round_trip_through_the_registry() {
    for key_len in [16usize, 32] {
        let key = vec![6u8; key_len];
        for text in [&b""[..], b"x", b"a text of some length, say 37 bytes.."] {
            let ciphertext = symmetric_encrypt(&Silent, &standard(), text, &key).unwrap();
            assert_eq!(ciphertext.len(), 12 + text.len() + 16);
            assert_eq!(
                symmetric_decrypt(&Silent, &standard(), &ciphertext, &key),
                Some(Some(text.to_vec()))
            );
            let changed = flipped(&ciphertext, ciphertext.len() - 1);
            assert_eq!(symmetric_decrypt(&Silent, &standard(), &changed, &key), Some(None));
        }
    }
    let key = [6u8; 24];
    let text = [1u8; 48];
    let ciphertext = symmetric_encrypt(&Silent, &standard(), &text, &key).unwrap();
    assert_eq!(ciphertext.len(), 12 + 48);
    assert_eq!(
        symmetric_decrypt(&Silent, &standard(), &ciphertext, &key),
        Some(Some(text.to_vec()))
    );
    assert_eq!(symmetric_encrypt(&Silent, &standard(), &text[..47], &key), None);
}

#[test]
fn rng_fill_goes_by_the_generator_role() {
    let mut a = [0u8; 64];
    let mut b = [0u8; 64];
    assert_eq!(rng_fill(&Toy, &national(), &mut a), Some(()));
    assert_eq!(rng_fill(&Toy, &national(), &mut b), Some(()));
    assert_ne!(a, [0u8; 64]);
    assert_ne!(a, b);
    let mut c = [0u8; 64];
    let mut d = [0u8; 64];
    assert_eq!(rng_fill(&Silent, &standard(), &mut c), Some(()));
    assert_eq!(rng_fill(&Silent, &standard(), &mut d), Some(()));
    assert_ne!(c, [0u8; 64]);
    assert_ne!(c, d);
    let mut e = [5u8; 8];
    assert_eq!(rng_fill(&Toy, &CryptoAlgorithms::from_string("dice".to_owned()), &mut e), None);
    assert_eq!(e, [5u8; 8]);
    assert_eq!(rng_fill(&Silent, &national(), &mut e), None);
    assert_eq!(e, [5u8; 8]);
    let mut empty: [u8; 0] = [];
    assert_eq!(rng_fill(&Toy, &national(), &mut empty), Some(()));
}

fn params(timestamp: u64, before: u32, after: u32, validity: u32) -> SessionParams {
    SessionParams {
        current_timestamp: timestamp,
        authorize_before_seconds: before,
        authorize_after_seconds: after,
        session_validity_seconds: validity,
    }
}

const T: u64 = 1_700_000_000;

#[test]
fn session_params_are_serialized_little_endian() {
    let p = params(0x0102030405060708, 0x0a0b0c0d, 0x11121314, 0x21222324);
    assert_eq!(
        p.to_boxed_slice(),
        vec![
            0x08, 0x07, 0x06, 0x05, 0x04, 0x03, 0x02, 0x01, 0x0d, 0x0c, 0x0b, 0x0a, 0x14, 0x13,
            0x12, 0x11, 0x24, 0x23, 0x22, 0x21
        ]
    );
    assert_eq!(params(0, 0, 0, 0).to_boxed_slice(), vec![0u8; 20]);
    assert_eq!(params(u64::MAX, u32::MAX, u32::MAX, u32::MAX).to_boxed_slice(), vec![0xff; 20]);
    let mut expected = vec![1, 0, 0, 0, 0, 0, 0, 0];
    expected.extend([10, 0, 0, 0, 10, 0, 0, 0, 0x10, 0x0e, 0, 0]);
    assert_eq!(params(1, 10, 10, 3600).to_boxed_slice(), expected);
}

#[test]
fn session_window_ordering() {
    let limits = Limits::standard();
    let early = params(T + 1000, 10, 10, 3600);
    assert_eq!(check_session_window(&early, &limits, T), Err(ServerError::SignatureEarly));
    let late = params(T - 1000, 10, 10, 3600);
    assert_eq!(check_session_window(&late, &limits, T), Err(ServerError::SignatureExpired));
    let timely = params(T, 10, 10, 3600);
    assert_eq!(check_session_window(&timely, &limits, T), Ok(T + 3600));
}

#[test]
fn session_window_includes_both_ends() {
    let limits = Limits::standard();
    let p = params(T, 10, 20, 60);
    assert_eq!(check_session_window(&p, &limits, T - 11), Err(ServerError::SignatureEarly));
    assert_eq!(check_session_window(&p, &limits, T - 10), Ok(T - 10 + 60));
    assert_eq!(check_session_window(&p, &limits, T + 20), Ok(T + 20 + 60));
    assert_eq!(check_session_window(&p, &limits, T + 21), Err(ServerError::SignatureExpired));
    let young = params(5, 10, 0, 0);
    assert_eq!(check_session_window(&young, &limits, 0), Ok(0));
    assert_eq!(check_session_window(&young, &limits, 5), Ok(5));
    assert_eq!(check_session_window(&young, &limits, 6), Err(ServerError::SignatureExpired));
    let old = params(u64::MAX, 0, 10, 0);
    assert_eq!(check_session_window(&old, &limits, u64::MAX), Ok(u64::MAX));
    assert_eq!(check_session_window(&old, &limits, u64::MAX - 1), Err(ServerError::SignatureEarly));
}

#[test]
fn session_limits_come_before_the_window() {
    let limits = Limits::standard();
    let at_most = params(T, 259200, 604800, 31536000);
    assert_eq!(check_session_window(&at_most, &limits, T), Ok(T + 31536000));
    assert_eq!(SessionParams::at(T, &limits), at_most);
    for p in [
        params(T, 259201, 10, 10),
        params(T, 10, 604801, 10),
        params(T, 10, 10, 31536001),
        params(T + 1000, 10, 10, 31536001),
        params(T - 1000, u32::MAX, u32::MAX, u32::MAX),
    ] {
        assert_eq!(check_session_window(&p, &limits, T), Err(ServerError::LimitExceeded));
    }
    let p = params(u64::MAX, 10, 10, 1);
    assert_eq!(check_session_window(&p, &limits, u64::MAX), Err(ServerError::LimitExceeded));
    let p = params(u64::MAX - 3600, 10, 10, 3600);
    assert_eq!(check_session_window(&p, &limits, u64::MAX - 3600), Ok(u64::MAX));
    let p = params(u64::MAX - 3600, 10, 10, 3601);
    assert_eq!(check_session_window(&p, &limits, u64::MAX - 3600), Err(ServerError::LimitExceeded));
}

#[test]
fn signature_and_ownership_outcomes() {
    assert_eq!(signature_outcome(Some(true), 7), Ok(7));
    assert_eq!(signature_outcome(Some(false), 7), Err(ServerError::InvalidSignature));
    assert_eq!(signature_outcome(None, 7), Err(ServerError::UnsupportedCryptographicAlgorithm));
    assert_eq!(ownership_outcome(Some(true)), Ok(()));
    assert_eq!(ownership_outcome(Some(false)), Err(ServerError::AccountNotFound));
    assert_eq!(ownership_outcome(None), Err(ServerError::InternalDatabaseError));
}

#[test]
fn login_with_a_correct_signature() {
    let limits = Limits::standard();
    let name = national().to_canonical_string();
    let (private, public) = kdf_keypair(&Toy, &national(), b"password").unwrap();
    let p = params(T, 10, 10, 3600);
    let signature = sign(&Toy, &national(), private, public.clone(), &p.to_boxed_slice()).unwrap();
    let granted = login_account(&Toy, &name, &public.pk, &p, &signature, &limits, T);
    assert_eq!(granted, Ok(T + 3600));
    assert_eq!(granted.and_then(|_| ownership_outcome(Some(true))), Ok(()));
    let granted = login_account(&Toy, &name, &public.pk, &p, &signature, &limits, T + 10);
    assert_eq!(granted, Ok(T + 3610));
}

#[test]
fn login_through_a_made_request() {
    let limits = Limits::standard();
    let name = national().to_canonical_string();
    let (private, public) = kdf_keypair(&Toy, &national(), b"password").unwrap();
    let (sent, signature) =
        request_session(&Toy, &national(), private.clone(), public.clone(), &limits, T).unwrap();
    assert_eq!(sent, params(T, 259200, 604800, 31536000));
    let granted = login_account(&Toy, &name, &public.pk, &sent, &signature, &limits, T + 5);
    assert_eq!(granted, Ok(T + 5 + 31536000));
    assert_eq!(request_session(&Toy, &standard(), private, public, &limits, T), None);
}

#[test]
fn login_checks_the_window_before_the_signature() {
    let limits = Limits::standard();
    let name = national().to_canonical_string();
    let (private, public) = kdf_keypair(&Toy, &national(), b"password").unwrap();
    for (p, expected) in [
        (params(T + 1000, 10, 10, 3600), ServerError::SignatureEarly),
        (params(T - 1000, 10, 10, 3600), ServerError::SignatureExpired),
        (params(T, 10, 10, 31536001), ServerError::LimitExceeded),
    ] {
        let good =
            sign(&Toy, &national(), private.clone(), public.clone(), &p.to_boxed_slice()).unwrap();
        for signature in [good, vec![], vec![0; 16]] {
            for algorithm in [name.as_str(), "unknown"] {
                for backend_answers in [true, false] {
                    let r = if backend_answers {
                        login_account(&Toy, algorithm, &public.pk, &p, &signature, &limits, T)
                    } else {
                        login_account(&Silent, algorithm, &public.pk, &p, &signature, &limits, T)
                    };
                    assert_eq!(r, Err(expected));
                }
            }
        }
    }
}

#[test]
fn login_refuses_a_wrong_signature_and_an_unknown_algorithm() {
    let limits = Limits::standard();
    let name = national().to_canonical_string();
    let (private, public) = kdf_keypair(&Toy, &national(), b"password").unwrap();
    let (_, other) = kdf_keypair(&Toy, &national(), b"another").unwrap();
    let p = params(T, 10, 10, 3600);
    let signature = sign(&Toy, &national(), private, public.clone(), &p.to_boxed_slice()).unwrap();
    let wrong = Err(ServerError::InvalidSignature);
    let unknown = Err(ServerError::UnsupportedCryptographicAlgorithm);
    assert_eq!(login_account(&Toy, &name, &other.pk, &p, &signature, &limits, T), wrong);
    assert_eq!(login_account(&Toy, &name, &public.pk, &p, &flipped(&signature, 3), &limits, T), wrong);
    let q = params(T, 10, 10, 3601);
    assert_eq!(login_account(&Toy, &name, &public.pk, &q, &signature, &limits, T), wrong);
    let standard_name = standard().to_canonical_string();
    assert_eq!(login_account(&Toy, &standard_name, &public.pk, &p, &signature, &limits, T), unknown);
    assert_eq!(login_account(&Toy, "bee2-rs::bignb3", &public.pk, &p, &signature, &limits, T), unknown);
    assert_eq!(login_account(&Toy, "", &public.pk, &p, &signature, &limits, T), unknown);
    assert_eq!(login_account(&Silent, &name, &public.pk, &p, &signature, &limits, T), unknown);
}

#[test]
fn copies_of_keys_and_bundles_are_equal() {
    let (private, public) = bundle();
    assert!(private.clone() == private);
    assert_eq!(public.clone(), public);
    let message: X3DhData =
        encode_x3dh(&Toy, b"payload", private.ik.clone(), public.ik.clone(), public.clone()).unwrap();
    let copy = message.clone();
    assert_eq!(copy.ek_pub, message.ek_pub);
    assert_eq!(copy.opk_id, message.opk_id);
    assert_eq!(copy.ciphertext, message.ciphertext);
    assert_eq!(copy.mac, message.mac);
    assert_eq!(copy.signature, message.signature);
}
