//! The AES family's symmetric cipher. Keys of 16 and of 32 bytes seal with
//! AES-GCM; keys of 24 bytes encipher block by block. In both forms the
//! ciphertext starts with the 12 bytes of the nonce that was drawn for it.

use aes_gcm::aead::generic_array::GenericArray;
use aes_gcm::aead::Aead;
use aes_gcm::aes::cipher::{BlockDecrypt, BlockEncrypt};
use aes_gcm::aes::{Aes192Dec, Aes192Enc};
use aes_gcm::{Aes128Gcm, Aes256Gcm, KeyInit, Nonce};
use vstd::prelude::*;

use crate::bytes::{extend_bytes, sub_bytes};

verus! {

/// The number of bytes of an AES-GCM nonce.
pub const NONCE_LEN: usize = 12;

/// The number of bytes of an AES block, and of an AES-GCM tag.
pub const BLOCK_LEN: usize = 16;

/// The longest plaintext, in bytes, that AES-GCM seals.
pub const MAX_SEALED_PLAINTEXT: u64 = 0x10_0000_0000;

/// What AES-128-GCM makes of a plaintext under a key and a nonce, with no
/// associated data: the ciphertext followed by its tag.
pub uninterp spec fn aes128_gcm_sealed(key: Seq<u8>, nonce: Seq<u8>, plaintext: Seq<u8>) -> Option<
    Seq<u8>,
>;

/// What AES-128-GCM recovers from a sealed text under a key and a nonce.
pub uninterp spec fn aes128_gcm_opened(key: Seq<u8>, nonce: Seq<u8>, sealed: Seq<u8>) -> Option<
    Seq<u8>,
>;

/// What AES-256-GCM makes of a plaintext under a key and a nonce, with no
/// associated data: the ciphertext followed by its tag.
pub uninterp spec fn aes256_gcm_sealed(key: Seq<u8>, nonce: Seq<u8>, plaintext: Seq<u8>) -> Option<
    Seq<u8>,
>;

/// What AES-256-GCM recovers from a sealed text under a key and a nonce.
pub uninterp spec fn aes256_gcm_opened(key: Seq<u8>, nonce: Seq<u8>, sealed: Seq<u8>) -> Option<
    Seq<u8>,
>;

/// The AES-192 encryption of one block.
pub uninterp spec fn aes192_block_encrypted(key: Seq<u8>, block: Seq<u8>) -> Seq<u8>;

/// The AES-192 decryption of one block.
pub uninterp spec fn aes192_block_decrypted(key: Seq<u8>, block: Seq<u8>) -> Seq<u8>;

/// `Aead::encrypt` of `Aes128Gcm`. The result is the named sealed text. It is
/// there unless the plaintext is longer than AES-GCM takes, it is 16 bytes
/// longer than the plaintext, and opening it under the same key and nonce
/// gives the plaintext back.
#[verifier::external_body]
fn aes128_gcm_seal(key: &[u8], nonce: &[u8], plaintext: &[u8]) -> (r: Option<Vec<u8>>)
    requires
        key@.len() == 16,
        nonce@.len() == NONCE_LEN,
    ensures
        match r {
            Some(sealed) => aes128_gcm_sealed(key@, nonce@, plaintext@) == Some(sealed@),
            None => aes128_gcm_sealed(key@, nonce@, plaintext@) is None,
        },
        plaintext@.len() <= MAX_SEALED_PLAINTEXT ==> r is Some,
        r matches Some(sealed) ==> sealed@.len() == plaintext@.len() + BLOCK_LEN
            && aes128_gcm_opened(key@, nonce@, sealed@) == Some(plaintext@),
{
    let cipher = match Aes128Gcm::new_from_slice(key) {
        Ok(cipher) => cipher,
        Err(_) => return None,
    };
    cipher.encrypt(Nonce::from_slice(nonce), plaintext).ok()
}

/// `Aead::decrypt` of `Aes128Gcm`. The result is the named opened text; it is
/// missing where the tag does not fit.
#[verifier::external_body]
fn aes128_gcm_open(key: &[u8], nonce: &[u8], sealed: &[u8]) -> (r: Option<Vec<u8>>)
    requires
        key@.len() == 16,
        nonce@.len() == NONCE_LEN,
    ensures
        match r {
            Some(plaintext) => aes128_gcm_opened(key@, nonce@, sealed@) == Some(plaintext@),
            None => aes128_gcm_opened(key@, nonce@, sealed@) is None,
        },
{
    let cipher = match Aes128Gcm::new_from_slice(key) {
        Ok(cipher) => cipher,
        Err(_) => return None,
    };
    cipher.decrypt(Nonce::from_slice(nonce), sealed).ok()
}

/// `Aead::encrypt` of `Aes256Gcm`. The result is the named sealed text. It is
/// there unless the plaintext is longer than AES-GCM takes, it is 16 bytes
/// longer than the plaintext, and opening it under the same key and nonce
/// gives the plaintext back.
#[verifier::external_body]
fn aes256_gcm_seal(key: &[u8], nonce: &[u8], plaintext: &[u8]) -> (r: Option<Vec<u8>>)
    requires
        key@.len() == 32,
        nonce@.len() == NONCE_LEN,
    ensures
        match r {
            Some(sealed) => aes256_gcm_sealed(key@, nonce@, plaintext@) == Some(sealed@),
            None => aes256_gcm_sealed(key@, nonce@, plaintext@) is None,
        },
        plaintext@.len() <= MAX_SEALED_PLAINTEXT ==> r is Some,
        r matches Some(sealed) ==> sealed@.len() == plaintext@.len() + BLOCK_LEN
            && aes256_gcm_opened(key@, nonce@, sealed@) == Some(plaintext@),
{
    let cipher = match Aes256Gcm::new_from_slice(key) {
        Ok(cipher) => cipher,
        Err(_) => return None,
    };
    cipher.encrypt(Nonce::from_slice(nonce), plaintext).ok()
}

/// `Aead::decrypt` of `Aes256Gcm`. The result is the named opened text; it is
/// missing where the tag does not fit.
#[verifier::external_body]
fn aes256_gcm_open(key: &[u8], nonce: &[u8], sealed: &[u8]) -> (r: Option<Vec<u8>>)
    requires
        key@.len() == 32,
        nonce@.len() == NONCE_LEN,
    ensures
        match r {
            Some(plaintext) => aes256_gcm_opened(key@, nonce@, sealed@) == Some(plaintext@),
            None => aes256_gcm_opened(key@, nonce@, sealed@) is None,
        },
{
    let cipher = match Aes256Gcm::new_from_slice(key) {
        Ok(cipher) => cipher,
        Err(_) => return None,
    };
    cipher.decrypt(Nonce::from_slice(nonce), sealed).ok()
}

/// `BlockEncrypt::encrypt_block` of `Aes192Enc`. The result is the named
/// encrypted block, 16 bytes long, and decrypting it under the same key gives
/// the block back.
#[verifier::external_body]
fn aes192_encrypt_block(key: &[u8], block: &[u8]) -> (r: Vec<u8>)
    requires
        key@.len() == 24,
        block@.len() == BLOCK_LEN,
    ensures
        r@ == aes192_block_encrypted(key@, block@),
        r@.len() == BLOCK_LEN,
        aes192_block_decrypted(key@, r@) == block@,
{
    let cipher = Aes192Enc::new(GenericArray::from_slice(key));
    let mut out = GenericArray::clone_from_slice(block);
    cipher.encrypt_block(&mut out);
    out.to_vec()
}

/// `BlockDecrypt::decrypt_block` of `Aes192Dec`. The result is the named
/// decrypted block, 16 bytes long.
#[verifier::external_body]
fn aes192_decrypt_block(key: &[u8], block: &[u8]) -> (r: Vec<u8>)
    requires
        key@.len() == 24,
        block@.len() == BLOCK_LEN,
    ensures
        r@ == aes192_block_decrypted(key@, block@),
        r@.len() == BLOCK_LEN,
{
    let cipher = Aes192Dec::new(GenericArray::from_slice(key));
    let mut out = GenericArray::clone_from_slice(block);
    cipher.decrypt_block(&mut out);
    out.to_vec()
}

/// The blocks of `data`, each encrypted with AES-192 on its own. Bytes after
/// the last whole block are left out.
pub open spec fn spec_aes192_blocks_encrypted(key: Seq<u8>, data: Seq<u8>) -> Seq<u8>
    decreases data.len(),
{
    if data.len() < BLOCK_LEN {
        Seq::<u8>::empty()
    } else {
        aes192_block_encrypted(key, data.subrange(0, BLOCK_LEN as int))
            + spec_aes192_blocks_encrypted(key, data.skip(BLOCK_LEN as int))
    }
}

/// The blocks of `data`, each decrypted with AES-192 on its own. Bytes after
/// the last whole block are left out.
pub open spec fn spec_aes192_blocks_decrypted(key: Seq<u8>, data: Seq<u8>) -> Seq<u8>
    decreases data.len(),
{
    if data.len() < BLOCK_LEN {
        Seq::<u8>::empty()
    } else {
        aes192_block_decrypted(key, data.subrange(0, BLOCK_LEN as int))
            + spec_aes192_blocks_decrypted(key, data.skip(BLOCK_LEN as int))
    }
}

/// What the cipher recovers from a ciphertext under a key: the outer `None`
/// where the key has no valid length, the inner `None` where the ciphertext
/// is not one that the cipher made.
pub open spec fn spec_aes_decrypt(key: Seq<u8>, ciphertext: Seq<u8>) -> Option<Option<Seq<u8>>> {
    let nonce = ciphertext.subrange(0, NONCE_LEN as int);
    let body = ciphertext.skip(NONCE_LEN as int);
    if key.len() != 16 && key.len() != 24 && key.len() != 32 {
        None
    } else if ciphertext.len() < NONCE_LEN {
        Some(None)
    } else if key.len() == 16 {
        Some(aes128_gcm_opened(key, nonce, body))
    } else if key.len() == 32 {
        Some(aes256_gcm_opened(key, nonce, body))
    } else if body.len() % (BLOCK_LEN as nat) != 0 {
        Some(None)
    } else {
        Some(Some(spec_aes192_blocks_decrypted(key, body)))
    }
}

/// What the cipher makes of a plaintext under a key and a nonce.
pub open spec fn spec_aes_encrypt(key: Seq<u8>, nonce: Seq<u8>, plaintext: Seq<u8>) -> Option<
    Seq<u8>,
> {
    if key.len() == 16 {
        match aes128_gcm_sealed(key, nonce, plaintext) {
            Some(sealed) => Some(nonce + sealed),
            None => None,
        }
    } else if key.len() == 32 {
        match aes256_gcm_sealed(key, nonce, plaintext) {
            Some(sealed) => Some(nonce + sealed),
            None => None,
        }
    } else if key.len() == 24 && plaintext.len() % (BLOCK_LEN as nat) == 0 {
        Some(nonce + spec_aes192_blocks_encrypted(key, plaintext))
    } else {
        None
    }
}

/// Whether the cipher takes the plaintext under a key of this length:
/// AES-GCM takes up to 2^36 bytes, the block form whole blocks only.
pub open spec fn spec_aes_accepts(key_len: nat, plaintext_len: nat) -> bool {
    ||| (key_len == 16 || key_len == 32) && plaintext_len <= MAX_SEALED_PLAINTEXT
    ||| key_len == 24 && plaintext_len % (BLOCK_LEN as nat) == 0
}

/// Encrypts whole blocks one by one.
fn aes192_encrypt_blocks(key: &[u8], data: &[u8]) -> (r: Vec<u8>)
    requires
        key@.len() == 24,
        data@.len() % (BLOCK_LEN as nat) == 0,
    ensures
        r@ == spec_aes192_blocks_encrypted(key@, data@),
        r@.len() == data@.len(),
        spec_aes192_blocks_decrypted(key@, r@) == data@,
{
    let n: usize = data.len();
    let mut out: Vec<u8> = Vec::new();
    let mut i: usize = 0;
    proof {
        assert(data@.skip(0) == data@);
    }
    while i < n
        invariant
            key@.len() == 24,
            n == data@.len(),
            n % 16 == 0,
            i % 16 == 0,
            i <= n,
            out@.len() == i,
            out@ + spec_aes192_blocks_encrypted(key@, data@.skip(i as int))
                == spec_aes192_blocks_encrypted(key@, data@),
            spec_aes192_blocks_decrypted(key@, out@) == data@.subrange(0, i as int),
        decreases n - i,
    {
        let block: Vec<u8> = sub_bytes(data, i, i + 16);
        let enc: Vec<u8> = aes192_encrypt_block(key, block.as_slice());
        proof {
            let rest = data@.skip(i as int);
            assert(rest.subrange(0, 16) == block@);
            assert(rest.skip(16) == data@.skip(i + 16));
            lemma_aes192_decrypt_append(key@, out@, enc@);
        }
        extend_bytes(&mut out, enc.as_slice());
        i = i + 16;
    }
    out
}

/// Decrypting block by block goes through a text that ends in one more block.
proof fn lemma_aes192_decrypt_append(key: Seq<u8>, head: Seq<u8>, block: Seq<u8>)
    requires
        head.len() % (BLOCK_LEN as nat) == 0,
        block.len() == BLOCK_LEN,
    ensures
        spec_aes192_blocks_decrypted(key, head + block) == spec_aes192_blocks_decrypted(key, head)
            + aes192_block_decrypted(key, block),
    decreases head.len(),
{
    let whole = head + block;
    if head.len() == 0 {
        assert(block.subrange(0, 16) == block);
        assert(spec_aes192_blocks_decrypted(key, block.skip(16)) == Seq::<u8>::empty());
    } else {
        assert(whole.subrange(0, 16) == head.subrange(0, 16));
        assert(whole.skip(16) == head.skip(16) + block);
        lemma_aes192_decrypt_append(key, head.skip(16), block);
    }
}

/// Decrypts whole blocks one by one.
fn aes192_decrypt_blocks(key: &[u8], data: &[u8]) -> (r: Vec<u8>)
    requires
        key@.len() == 24,
        data@.len() % (BLOCK_LEN as nat) == 0,
    ensures
        r@ == spec_aes192_blocks_decrypted(key@, data@),
{
    let n: usize = data.len();
    let mut out: Vec<u8> = Vec::new();
    let mut i: usize = 0;
    proof {
        assert(data@.skip(0) == data@);
    }
    while i < n
        invariant
            key@.len() == 24,
            n == data@.len(),
            n % 16 == 0,
            i % 16 == 0,
            i <= n,
            out@ + spec_aes192_blocks_decrypted(key@, data@.skip(i as int))
                == spec_aes192_blocks_decrypted(key@, data@),
        decreases n - i,
    {
        let block: Vec<u8> = sub_bytes(data, i, i + 16);
        let dec: Vec<u8> = aes192_decrypt_block(key, block.as_slice());
        proof {
            let rest = data@.skip(i as int);
            assert(rest.subrange(0, 16) == block@);
            assert(rest.skip(16) == data@.skip(i + 16));
        }
        extend_bytes(&mut out, dec.as_slice());
        i = i + 16;
    }
    out
}

/// Encrypts `plaintext` under `key` with the nonce given. The result is
/// missing where the key has no valid length or the cipher does not take the
/// plaintext. Decrypting what comes out gives the plaintext back.
pub fn aes_encrypt_with_nonce(plaintext: &[u8], key: &[u8], nonce: &[u8]) -> (r: Option<Vec<u8>>)
    requires
        nonce@.len() == NONCE_LEN,
    ensures
        match r {
            Some(ciphertext) => spec_aes_encrypt(key@, nonce@, plaintext@) == Some(ciphertext@),
            None => spec_aes_encrypt(key@, nonce@, plaintext@) is None,
        },
        r is Some <== spec_aes_accepts(key@.len(), plaintext@.len()),
        r matches Some(ciphertext) ==> spec_aes_decrypt(key@, ciphertext@) == Some(
            Some(plaintext@),
        ),
{
    let mut out: Vec<u8> = Vec::new();
    extend_bytes(&mut out, nonce);
    if key.len() == 16 {
        match aes128_gcm_seal(key, nonce, plaintext) {
            Some(sealed) => {
                extend_bytes(&mut out, sealed.as_slice());
                proof {
                    assert(out@.subrange(0, NONCE_LEN as int) == nonce@);
                    assert(out@.skip(NONCE_LEN as int) == sealed@);
                }
                Some(out)
            },
            None => None,
        }
    } else if key.len() == 32 {
        match aes256_gcm_seal(key, nonce, plaintext) {
            Some(sealed) => {
                extend_bytes(&mut out, sealed.as_slice());
                proof {
                    assert(out@.subrange(0, NONCE_LEN as int) == nonce@);
                    assert(out@.skip(NONCE_LEN as int) == sealed@);
                }
                Some(out)
            },
            None => None,
        }
    } else if key.len() == 24 && plaintext.len() % 16 == 0 {
        let body: Vec<u8> = aes192_encrypt_blocks(key, plaintext);
        extend_bytes(&mut out, body.as_slice());
        proof {
            assert(out@.skip(NONCE_LEN as int) == body@);
        }
        Some(out)
    } else {
        None
    }
}

/// Decrypts a ciphertext under `key`: the outer `None` where the key has no
/// valid length, the inner `None` where the ciphertext is not one that the
/// cipher made under that key.
pub fn aes_decrypt(ciphertext: &[u8], key: &[u8]) -> (r: Option<Option<Vec<u8>>>)
    ensures
        match r {
            Some(Some(plaintext)) => spec_aes_decrypt(key@, ciphertext@) == Some(Some(plaintext@)),
            Some(None) => spec_aes_decrypt(key@, ciphertext@) == Some(None::<Seq<u8>>),
            None => spec_aes_decrypt(key@, ciphertext@) is None,
        },
{
    if key.len() != 16 && key.len() != 24 && key.len() != 32 {
        return None;
    }
    if ciphertext.len() < 12 {
        return Some(None);
    }
    let nonce: Vec<u8> = sub_bytes(ciphertext, 0, 12);
    let body: Vec<u8> = sub_bytes(ciphertext, 12, ciphertext.len());
    if key.len() == 16 {
        Some(aes128_gcm_open(key, nonce.as_slice(), body.as_slice()))
    } else if key.len() == 32 {
        Some(aes256_gcm_open(key, nonce.as_slice(), body.as_slice()))
    } else if body.len() % 16 != 0 {
        Some(None)
    } else {
        Some(Some(aes192_decrypt_blocks(key, body.as_slice())))
    }
}

} // verus!
