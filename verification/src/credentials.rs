//! The credentials of a session: the account's number and the token that the
//! server issued, with the byte form and the text form in which they are
//! kept and passed on.

use base64::engine::general_purpose::URL_SAFE_NO_PAD;
use base64::Engine;
use vstd::bytes::{
    lemma_auto_spec_u64_to_from_le_bytes, spec_u64_from_le_bytes, spec_u64_to_le_bytes,
    u64_from_le_bytes, u64_to_le_bytes,
};
use vstd::prelude::*;

use crate::bytes::{extend_bytes, sub_bytes};

verus! {

/// The number of bytes of a session token.
pub const TOKEN_LEN: usize = 32;

/// The number of bytes of credentials.
pub const CREDENTIALS_LEN: usize = 40;

/// The longest byte string that is turned into text.
pub const MAX_ENCODED_LEN: usize = 0x1000_0000;

/// The credentials of a session.
#[derive(Clone, Copy, Debug, PartialEq, Eq)]
pub struct AccountCredentials {
    pub id: u64,
    pub session_token: [u8; 32],
}

/// What credentials hold.
pub struct AccountCredentialsView {
    pub id: u64,
    pub session_token: Seq<u8>,
}

impl View for AccountCredentials {
    type V = AccountCredentialsView;

    open spec fn view(&self) -> AccountCredentialsView {
        AccountCredentialsView { id: self.id, session_token: self.session_token@ }
    }
}

impl Default for AccountCredentials {
    fn default() -> (r: Self)
        ensures
            r.id == 0,
            r.session_token@ == Seq::new(TOKEN_LEN as nat, |i: int| 0u8),
    {
        let r = AccountCredentials { id: 0, session_token: [0u8; 32] };
        r
    }
}

/// The text of a byte string in the URL-safe base64 alphabet, without
/// padding.
pub uninterp spec fn base64_url_text(bytes: Seq<u8>) -> Seq<char>;

/// The bytes that a text in the URL-safe base64 alphabet, without padding,
/// stands for, or `None` where the text is none.
pub uninterp spec fn base64_url_bytes(text: Seq<char>) -> Option<Seq<u8>>;

/// `Engine::encode` of `URL_SAFE_NO_PAD`. The result is the named text, and
/// the text stands for the bytes that it was made of.
#[verifier::external_body]
fn base64_encode(bytes: &[u8]) -> (r: String)
    requires
        bytes@.len() <= MAX_ENCODED_LEN,
    ensures
        r@ == base64_url_text(bytes@),
        base64_url_bytes(r@) == Some(bytes@),
{
    URL_SAFE_NO_PAD.encode(bytes)
}

/// `Engine::decode` of `URL_SAFE_NO_PAD`. The result is the named bytes.
#[verifier::external_body]
fn base64_decode(text: &str) -> (r: Option<Vec<u8>>)
    ensures
        match r {
            Some(bytes) => base64_url_bytes(text@) == Some(bytes@),
            None => base64_url_bytes(text@) is None,
        },
{
    URL_SAFE_NO_PAD.decode(text).ok()
}

/// The byte form of credentials: the account's number in 8 bytes, least
/// significant byte first, then the token.
pub open spec fn spec_credential_bytes(credentials: AccountCredentialsView) -> Seq<u8> {
    spec_u64_to_le_bytes(credentials.id) + credentials.session_token
}

/// The credentials that bytes hold, or the number of the bytes where there
/// are not 40 of them.
pub open spec fn spec_credentials_of(bytes: Seq<u8>) -> Result<AccountCredentialsView, usize> {
    if bytes.len() == CREDENTIALS_LEN {
        Ok(
            AccountCredentialsView {
                id: spec_u64_from_le_bytes(bytes.subrange(0, 8)),
                session_token: bytes.subrange(8, CREDENTIALS_LEN as int),
            },
        )
    } else {
        Err(bytes.len() as usize)
    }
}

/// The credentials that a text holds: those of the bytes that it stands
/// for, where a text that is no base64 stands for no bytes at all.
pub open spec fn spec_parse_credentials(text: Seq<char>) -> Result<AccountCredentialsView, usize> {
    spec_credentials_of(
        match base64_url_bytes(text) {
            Some(bytes) => bytes,
            None => Seq::<u8>::empty(),
        },
    )
}

/// What was read, or how many bytes were there instead of 40.
pub open spec fn spec_read(value: Result<AccountCredentials, usize>) -> Result<
    AccountCredentialsView,
    usize,
> {
    match value {
        Ok(credentials) => Ok(credentials@),
        Err(len) => Err(len),
    }
}

/// The token that 32 bytes hold.
fn token_of(bytes: &[u8]) -> (r: [u8; 32])
    requires
        bytes@.len() == TOKEN_LEN,
    ensures
        r@ == bytes@,
{
    let mut token: [u8; 32] = [0u8; 32];
    let mut i: usize = 0;
    while i < 32
        invariant
            i <= 32,
            bytes@.len() == 32,
            token@.subrange(0, i as int) == bytes@.subrange(0, i as int),
        decreases 32 - i,
    {
        token[i] = bytes[i];
        i = i + 1;
    }
    assert(bytes@.subrange(0, 32) == bytes@);
    token
}

impl AccountCredentials {
    /// The byte form of the credentials. Reading it gives the credentials
    /// back.
    pub fn to_bytes(&self) -> (r: Vec<u8>)
        ensures
            r@ == spec_credential_bytes(self@),
            r@.len() == CREDENTIALS_LEN,
            spec_credentials_of(r@) == Ok::<AccountCredentialsView, usize>(self@),
    {
        let mut out: Vec<u8> = u64_to_le_bytes(self.id);
        extend_bytes(&mut out, self.session_token.as_slice());
        proof {
            lemma_auto_spec_u64_to_from_le_bytes();
            assert(out@.subrange(0, 8) == spec_u64_to_le_bytes(self.id));
            assert(out@.subrange(8, CREDENTIALS_LEN as int) == self.session_token@);
        }
        out
    }

    /// Reads the byte form. Where there are not 40 bytes, their number is
    /// given instead.
    pub fn from_bytes(bytes: &[u8]) -> (r: Result<Self, usize>)
        ensures
            spec_read(r) == spec_credentials_of(bytes@),
    {
        if bytes.len() != 40 {
            return Err(bytes.len());
        }
        let head: Vec<u8> = sub_bytes(bytes, 0, 8);
        let tail: Vec<u8> = sub_bytes(bytes, 8, 40);
        let id: u64 = u64_from_le_bytes(head.as_slice());
        let session_token: [u8; 32] = token_of(tail.as_slice());
        Ok(AccountCredentials { id, session_token })
    }

    /// The text form of the credentials: their bytes in the URL-safe base64
    /// alphabet, without padding. Reading it gives the credentials back.
    pub fn to_text(&self) -> (r: String)
        ensures
            r@ == base64_url_text(spec_credential_bytes(self@)),
            spec_parse_credentials(r@) == Ok::<AccountCredentialsView, usize>(self@),
    {
        let bytes: Vec<u8> = self.to_bytes();
        base64_encode(bytes.as_slice())
    }

    /// Reads the text form. Where the text does not stand for 40 bytes, the
    /// number of bytes that it stands for is given instead, and 0 where it is
    /// no base64 at all.
    pub fn parse(text: &str) -> (r: Result<Self, usize>)
        ensures
            spec_read(r) == spec_parse_credentials(text@),
    {
        match base64_decode(text) {
            Some(bytes) => AccountCredentials::from_bytes(bytes.as_slice()),
            None => {
                let empty: Vec<u8> = Vec::new();
                AccountCredentials::from_bytes(empty.as_slice())
            },
        }
    }
}

} // verus!
