use peregrine::aes::{aes_decrypt, aes_encrypt_with_nonce};
use peregrine::bytes::{bytes_equal, concat_bytes, extend_bytes, sub_bytes};
use peregrine::random::get_iv;

fn unhex(text: &str) -> Vec<u8> {
    let digits: Vec<u8> = text.bytes().map(|c| (c as char).to_digit(16).unwrap() as u8).collect();
    digits.chunks(2).map(|pair| pair[0] * 16 + pair[1]).collect()
}

#[test]
fn aes128_gcm_of_one_zero_block() {
    let key = [0u8; 16];
    let nonce = [0u8; 12];
    let out = aes_encrypt_with_nonce(&[0u8; 16], &key, &nonce).unwrap();
    let mut expected = nonce.to_vec();
    expected.extend(unhex("0388dace60b6a392f328c2b971b2fe78"));
    expected.extend(unhex("ab6e47d42cec13bdf53a67b21257bddf"));
    assert_eq!(out, expected);
    assert_eq!(aes_decrypt(&out, &key), Some(Some(vec![0u8; 16])));
}

#[test]
fn aes128_gcm_of_nothing() {
    let key = [0u8; 16];
    let nonce = [0u8; 12];
    let out = aes_encrypt_with_nonce(&[], &key, &nonce).unwrap();
    let mut expected = nonce.to_vec();
    expected.extend(unhex("58e2fccefa7e3061367f1d57a4e7455a"));
    assert_eq!(out, expected);
    assert_eq!(aes_decrypt(&out, &key), Some(Some(vec![])));
}

#[test]
fn aes256_gcm_of_one_zero_block() {
    let key = [0u8; 32];
    let nonce = [0u8; 12];
    let out = aes_encrypt_with_nonce(&[0u8; 16], &key, &nonce).unwrap();
    let mut expected = nonce.to_vec();
    expected.extend(unhex("cea7403d4d606b6e074ec5d3baf39d18"));
    expected.extend(unhex("d0d1c8a799996bf0265b98b5d48ab919"));
    assert_eq!(out, expected);
    assert_eq!(aes_decrypt(&out, &key), Some(Some(vec![0u8; 16])));
}

#[test]
fn aes192_enciphers_block_by_block() {
    let key = unhex("000102030405060708090a0b0c0d0e0f1011121314151617");
    let block = unhex("00112233445566778899aabbccddeeff");
    let nonce = [7u8; 12];
    let mut two = block.clone();
    two.extend(&block);
    let out = aes_encrypt_with_nonce(&two, &key, &nonce).unwrap();
    let mut expected = nonce.to_vec();
    expected.extend(unhex("dda97ca4864cdfe06eaf70a0ec0d7191"));
    expected.extend(unhex("dda97ca4864cdfe06eaf70a0ec0d7191"));
    assert_eq!(out, expected);
    assert_eq!(aes_decrypt(&out, &key), Some(Some(two)));
}

#[test]
fn aes192_takes_whole_blocks_only() {
    let key = [1u8; 24];
    let nonce = [0u8; 12];
    assert_eq!(aes_encrypt_with_nonce(&[0u8; 15], &key, &nonce), None);
    assert_eq!(aes_encrypt_with_nonce(&[0u8; 17], &key, &nonce), None);
    assert_eq!(aes_encrypt_with_nonce(&[], &key, &nonce), Some(nonce.to_vec()));
    assert_eq!(aes_decrypt(&[0u8; 12 + 15], &key), Some(None));
    assert_eq!(aes_decrypt(&[0u8; 12], &key), Some(Some(vec![])));
}

#[test]
fn aes_refuses_other_key_lengths() {
    let nonce = [0u8; 12];
    for len in [0usize, 1, 15, 17, 23, 25, 31, 33, 64] {
        let key = vec![3u8; len];
        assert_eq!(aes_encrypt_with_nonce(b"text", &key, &nonce), None);
        assert_eq!(aes_decrypt(&[0u8; 40], &key), None);
    }
}

#[test]
fn aes_round_trip_under_each_key_length() {
    for key_len in [16usize, 24, 32] {
        let key: Vec<u8> = (0..key_len as u8).collect();
        for text_len in [0usize, 16, 32, 160] {
            let text: Vec<u8> = (0..text_len).map(|i| (i * 7 + 1) as u8).collect();
            let nonce = [9u8; 12];
            let sealed = aes_encrypt_with_nonce(&text, &key, &nonce).unwrap();
            assert_eq!(&sealed[..12], &nonce);
            if text_len > 0 {
                assert_ne!(&sealed[12..12 + text_len], &text[..]);
            }
            assert_eq!(aes_decrypt(&sealed, &key), Some(Some(text)));
        }
    }
    for key_len in [16usize, 32] {
        let key = vec![5u8; key_len];
        let sealed = aes_encrypt_with_nonce(b"thirteen byte", &key, &[1u8; 12]).unwrap();
        assert_eq!(sealed.len(), 12 + 13 + 16);
        assert_eq!(aes_decrypt(&sealed, &key), Some(Some(b"thirteen byte".to_vec())));
    }
}

#[test]
fn aes_gcm_detects_a_changed_byte() {
    for key_len in [16usize, 32] {
        let key = vec![5u8; key_len];
        let sealed = aes_encrypt_with_nonce(b"attack at dawn", &key, &[2u8; 12]).unwrap();
        for i in 0..sealed.len() {
            let mut changed = sealed.clone();
            changed[i] ^= 1;
            assert_eq!(aes_decrypt(&changed, &key), Some(None));
        }
        let mut other_key = key.clone();
        other_key[0] ^= 1;
        assert_eq!(aes_decrypt(&sealed, &other_key), Some(None));
    }
}

#[test]
fn aes_decrypt_fails_on_a_short_ciphertext() {
    for key_len in [16usize, 24, 32] {
        let key = vec![5u8; key_len];
        assert_eq!(aes_decrypt(&[], &key), Some(None));
        assert_eq!(aes_decrypt(&[0u8; 11], &key), Some(None));
    }
    assert_eq!(aes_decrypt(&[0u8; 12], &[5u8; 16]), Some(None));
    assert_eq!(aes_decrypt(&[0u8; 27], &[5u8; 32]), Some(None));
}

#[test]
fn seeds_have_32_bytes_and_differ() {
    let a = get_iv();
    let b = get_iv();
    assert_eq!(a.len(), 32);
    assert_eq!(b.len(), 32);
    assert_ne!(a, b);
    assert_ne!(a, vec![0u8; 32]);
}

#[test]
fn byte_helpers() {
    let mut v = vec![1u8, 2];
    extend_bytes(&mut v, &[3, 4, 5]);
    assert_eq!(v, vec![1, 2, 3, 4, 5]);
    extend_bytes(&mut v, &[]);
    assert_eq!(v, vec![1, 2, 3, 4, 5]);
    assert_eq!(concat_bytes(&[1, 2], &[3]), vec![1, 2, 3]);
    assert_eq!(concat_bytes(&[], &[]), Vec::<u8>::new());
    assert_eq!(sub_bytes(&v, 1, 4), vec![2, 3, 4]);
    assert_eq!(sub_bytes(&v, 5, 5), Vec::<u8>::new());
    assert_eq!(sub_bytes(&v, 0, 5), v);
    assert!(bytes_equal(&[1, 2, 3], &[1, 2, 3]));
    assert!(bytes_equal(&[], &[]));
    assert!(!bytes_equal(&[1, 2, 3], &[1, 2]));
    assert!(!bytes_equal(&[1, 2, 3], &[1, 2, 4]));
}
