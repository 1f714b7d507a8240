//! Algorithm descriptors: one identifier for each cryptographic role, their
//! canonical string form, and the descriptors that the registry offers.

use vstd::prelude::*;
use vstd::string::*;

verus! {

/// The identifier of the bash hash function with digests of 512 bits.
pub const BASH512: &'static str = "bee2-rs::bash512";

/// The identifier of the key derivation of the national-standard family.
pub const BAKE_KDF: &'static str = "bee2-rs::pbkdf2";

/// The identifier of bign on the curve of level 3, for signatures and for
/// Diffie-Hellman.
pub const BIGN_B3: &'static str = "bee2-rs::bignb3";

/// The identifier of belt in counter mode, as a cipher and as a generator.
pub const BELT_CTR: &'static str = "bee2-rs::belt-ctr";

/// The identifier of belt with a 256-bit key in its authenticated mode.
pub const BELT_DWP: &'static str = "bee2-rs::belt256-dwp";

/// The identifier of AES in Galois/counter mode.
pub const AES_GCM: &'static str = "rustcrypto::aes-gcm";

/// The identifier of PBKDF2.
pub const RUSTCRYPTO_PBKDF2: &'static str = "rustcrypto::pbkdf2";

/// The identifier of Diffie-Hellman on Curve25519.
pub const X25519: &'static str = "dalek::x25519";

/// The identifier of signatures on Curve25519.
pub const ED25519: &'static str = "dalek::ed25519";

/// The identifier of the generator that the operating system seeds.
pub const DEFAULT_RNG: &'static str = "default";

/// A set of algorithm identifiers, one for each role.
#[derive(Debug, PartialEq, Eq)]
pub struct CryptoAlgorithms {
    pub hash: String,
    pub kdf: String,
    pub diffie_hellman: String,
    pub signature: String,
    pub symmetric_encryption: String,
    pub aead: String,
    pub rng: String,
}

/// What a descriptor says: the seven identifiers as character sequences.
pub struct AlgorithmNames {
    pub hash: Seq<char>,
    pub kdf: Seq<char>,
    pub diffie_hellman: Seq<char>,
    pub signature: Seq<char>,
    pub symmetric_encryption: Seq<char>,
    pub aead: Seq<char>,
    pub rng: Seq<char>,
}

impl View for CryptoAlgorithms {
    type V = AlgorithmNames;

    open spec fn view(&self) -> AlgorithmNames {
        AlgorithmNames {
            hash: self.hash@,
            kdf: self.kdf@,
            diffie_hellman: self.diffie_hellman@,
            signature: self.signature@,
            symmetric_encryption: self.symmetric_encryption@,
            aead: self.aead@,
            rng: self.rng@,
        }
    }
}

impl Clone for CryptoAlgorithms {
    fn clone(&self) -> (r: Self)
        ensures
            r@ == self@,
    {
        CryptoAlgorithms {
            hash: self.hash.clone(),
            kdf: self.kdf.clone(),
            diffie_hellman: self.diffie_hellman.clone(),
            signature: self.signature.clone(),
            symmetric_encryption: self.symmetric_encryption.clone(),
            aead: self.aead.clone(),
            rng: self.rng.clone(),
        }
    }
}

/// The descriptor in which every role is named `name`.
pub open spec fn spec_uniform(name: Seq<char>) -> AlgorithmNames {
    AlgorithmNames {
        hash: name,
        kdf: name,
        diffie_hellman: name,
        signature: name,
        symmetric_encryption: name,
        aead: name,
        rng: name,
    }
}

/// The descriptor of the national-standard family.
pub open spec fn spec_prequantum_bee2rs() -> AlgorithmNames {
    AlgorithmNames {
        hash: BASH512@,
        kdf: BAKE_KDF@,
        diffie_hellman: BIGN_B3@,
        signature: BIGN_B3@,
        symmetric_encryption: BELT_CTR@,
        aead: BELT_DWP@,
        rng: BELT_CTR@,
    }
}

/// The descriptor of the conventional elliptic-curve and AES family.
pub open spec fn spec_prequantum_standard() -> AlgorithmNames {
    AlgorithmNames {
        hash: AES_GCM@,
        kdf: RUSTCRYPTO_PBKDF2@,
        diffie_hellman: X25519@,
        signature: ED25519@,
        symmetric_encryption: AES_GCM@,
        aead: AES_GCM@,
        rng: DEFAULT_RNG@,
    }
}

/// The descriptors that the registry offers, the preferred one first.
pub open spec fn spec_supported_algorithms() -> Seq<AlgorithmNames> {
    seq![spec_prequantum_bee2rs(), spec_prequantum_standard()]
}

/// Whether the registry offers the descriptor.
pub open spec fn spec_is_supported(names: AlgorithmNames) -> bool {
    names == spec_prequantum_bee2rs() || names == spec_prequantum_standard()
}

/// The descriptor to use where the caller has no preference.
pub open spec fn spec_preferred_algorithm() -> AlgorithmNames {
    spec_supported_algorithms()[0]
}

/// Whether the namespace separator `::` stands at position `i` of `s`.
pub open spec fn spec_separator_at(s: Seq<char>, i: int) -> bool {
    0 <= i && i + 1 < s.len() && s[i] == ':' && s[i + 1] == ':'
}

/// `s` with every namespace separator `::` replaced by `__`, reading from the
/// left and never reusing a colon.
pub open spec fn spec_escape(s: Seq<char>) -> Seq<char>
    decreases s.len(),
{
    if spec_separator_at(s, 0) {
        seq!['_', '_'] + spec_escape(s.skip(2))
    } else if s.len() >= 1 {
        seq![s[0]] + spec_escape(s.skip(1))
    } else {
        Seq::<char>::empty()
    }
}

/// The canonical string of a descriptor: the seven identifiers, escaped, in
/// the order hash, key derivation, Diffie-Hellman, signature, symmetric
/// encryption, AEAD, random numbers, with a dot between neighbours.
pub open spec fn spec_canonical(names: AlgorithmNames) -> Seq<char> {
    spec_escape(names.hash) + seq!['.'] + spec_escape(names.kdf) + seq!['.'] + spec_escape(
        names.diffie_hellman,
    ) + seq!['.'] + spec_escape(names.signature) + seq!['.'] + spec_escape(
        names.symmetric_encryption,
    ) + seq!['.'] + spec_escape(names.aead) + seq!['.'] + spec_escape(names.rng)
}

/// The descriptor that a canonical string stands for: the offered descriptor
/// with that canonical string, if there is one.
pub open spec fn spec_parse(s: Seq<char>) -> Option<AlgorithmNames> {
    if s == spec_canonical(spec_prequantum_bee2rs()) {
        Some(spec_prequantum_bee2rs())
    } else if s == spec_canonical(spec_prequantum_standard()) {
        Some(spec_prequantum_standard())
    } else {
        None
    }
}

/// Whether the string `s` reads `name`.
pub fn names(s: &String, name: &str) -> (r: bool)
    ensures
        r == (s@ == name@),
{
    *s == name.to_owned()
}

/// `s` with every `::` replaced by `__`.
pub fn escape(s: &str) -> (r: String)
    ensures
        r@ == spec_escape(s@),
{
    let n: usize = s.unicode_len();
    let mut out: String = String::new();
    let mut i: usize = 0;
    proof {
        reveal_strlit("__");
        assert(s@.skip(0) == s@);
    }
    while i < n
        invariant
            n == s@.len(),
            i <= n,
            spec_escape(s@) == out@ + spec_escape(s@.skip(i as int)),
            "__"@ == seq!['_', '_'],
        decreases n - i,
    {
        let ghost rest = s@.skip(i as int);
        if i + 1 < n && s.get_char(i) == ':' && s.get_char(i + 1) == ':' {
            out.append("__");
            assert(rest.skip(2) == s@.skip(i + 2));
            i = i + 2;
        } else {
            let piece: &str = s.substring_char(i, i + 1);
            out.append(piece);
            assert(rest.skip(1) == s@.skip(i + 1));
            i = i + 1;
        }
    }
    out
}

impl CryptoAlgorithms {
    /// The descriptor in which every role is named `alg_name`.
    pub fn from_string(alg_name: String) -> (r: Self)
        ensures
            r@ == spec_uniform(alg_name@),
    {
        CryptoAlgorithms {
            hash: alg_name.clone(),
            kdf: alg_name.clone(),
            diffie_hellman: alg_name.clone(),
            signature: alg_name.clone(),
            symmetric_encryption: alg_name.clone(),
            aead: alg_name.clone(),
            rng: alg_name,
        }
    }

    /// The descriptor of the national-standard family.
    pub fn prequantum_bee2rs() -> (r: Self)
        ensures
            r@ == spec_prequantum_bee2rs(),
    {
        CryptoAlgorithms {
            hash: BASH512.to_owned(),
            kdf: BAKE_KDF.to_owned(),
            diffie_hellman: BIGN_B3.to_owned(),
            signature: BIGN_B3.to_owned(),
            symmetric_encryption: BELT_CTR.to_owned(),
            aead: BELT_DWP.to_owned(),
            rng: BELT_CTR.to_owned(),
        }
    }

    /// The descriptor of the conventional elliptic-curve and AES family.
    pub fn prequantum_standard() -> (r: Self)
        ensures
            r@ == spec_prequantum_standard(),
    {
        CryptoAlgorithms {
            hash: AES_GCM.to_owned(),
            kdf: RUSTCRYPTO_PBKDF2.to_owned(),
            diffie_hellman: X25519.to_owned(),
            signature: ED25519.to_owned(),
            symmetric_encryption: AES_GCM.to_owned(),
            aead: AES_GCM.to_owned(),
            rng: DEFAULT_RNG.to_owned(),
        }
    }

    /// The name of the symmetric cipher without its namespace: what follows
    /// the first `::` of the identifier, or all of it where there is none.
    pub fn encryption_method(&self) -> (r: String)
        ensures
            (forall|i: int| !spec_separator_at(self@.symmetric_encryption, i)) ==> r@
                == self@.symmetric_encryption,
            forall|i: int|
                spec_separator_at(self@.symmetric_encryption, i) && (forall|j: int|
                    0 <= j < i ==> !spec_separator_at(self@.symmetric_encryption, j)) ==> r@
                    == self@.symmetric_encryption.skip(i + 2),
    {
        let s: &str = self.symmetric_encryption.as_str();
        let n: usize = s.unicode_len();
        let mut i: usize = 0;
        while i < n
            invariant
                n == s@.len(),
                i <= n,
                s@ == self@.symmetric_encryption,
                forall|j: int| 0 <= j < i ==> !spec_separator_at(s@, j),
            decreases n - i,
        {
            if i + 1 < n && s.get_char(i) == ':' && s.get_char(i + 1) == ':' {
                let tail: &str = s.substring_char(i + 2, n);
                proof {
                    assert forall|k: int|
                        spec_separator_at(s@, k) && (forall|j: int|
                            0 <= j < k ==> !spec_separator_at(s@, j)) implies k == i by {
                        if k > i {
                            assert(!spec_separator_at(s@, i as int));
                        }
                    }
                }
                return tail.to_owned();
            }
            i = i + 1;
        }
        s.to_owned()
    }

    /// The canonical string of the descriptor.
    pub fn to_canonical_string(&self) -> (r: String)
        ensures
            r@ == spec_canonical(self@),
    {
        proof {
            reveal_strlit(".");
        }
        let mut out: String = escape(self.hash.as_str());
        out.append(".");
        out.append(escape(self.kdf.as_str()).as_str());
        out.append(".");
        out.append(escape(self.diffie_hellman.as_str()).as_str());
        out.append(".");
        out.append(escape(self.signature.as_str()).as_str());
        out.append(".");
        out.append(escape(self.symmetric_encryption.as_str()).as_str());
        out.append(".");
        out.append(escape(self.aead.as_str()).as_str());
        out.append(".");
        out.append(escape(self.rng.as_str()).as_str());
        out
    }

    /// Reads a canonical string. Only the canonical string of an offered
    /// descriptor is recognised; any other string is refused.
    pub fn parse(s: &str) -> (r: Option<Self>)
        ensures
            match r {
                Some(d) => spec_parse(s@) == Some(d@),
                None => spec_parse(s@) is None,
            },
    {
        let text: String = s.to_owned();
        let national: CryptoAlgorithms = CryptoAlgorithms::prequantum_bee2rs();
        if national.to_canonical_string() == text {
            return Some(national);
        }
        let standard: CryptoAlgorithms = CryptoAlgorithms::prequantum_standard();
        if standard.to_canonical_string() == text {
            return Some(standard);
        }
        None
    }

    /// Whether the two descriptors name the same algorithm in every role.
    pub fn same_as(&self, other: &CryptoAlgorithms) -> (r: bool)
        ensures
            r == (self@ == other@),
    {
        self.hash == other.hash && self.kdf == other.kdf && self.diffie_hellman
            == other.diffie_hellman && self.signature == other.signature
            && self.symmetric_encryption == other.symmetric_encryption && self.aead == other.aead
            && self.rng == other.rng
    }
}

/// The descriptors that the registry offers, the preferred one first.
pub fn supported_algorithms() -> (r: Vec<CryptoAlgorithms>)
    ensures
        r@.len() == spec_supported_algorithms().len(),
        forall|i: int| 0 <= i < r@.len() ==> (#[trigger] r@[i])@ == spec_supported_algorithms()[i],
{
    let mut out: Vec<CryptoAlgorithms> = Vec::new();
    out.push(CryptoAlgorithms::prequantum_bee2rs());
    out.push(CryptoAlgorithms::prequantum_standard());
    out
}

/// The descriptor to use where the caller has no preference. It is the same
/// at every call: the first of the offered descriptors.
pub fn preferred_alogirthm() -> (r: CryptoAlgorithms)
    ensures
        r@ == spec_preferred_algorithm(),
{
    CryptoAlgorithms::prequantum_bee2rs()
}

/// An escaped identifier starts as the identifier does, unless that starts
/// with a colon.
proof fn lemma_escape_keeps_first(s: Seq<char>)
    requires
        s.len() > 0,
        s[0] != ':',
    ensures
        spec_escape(s).len() > 0,
        spec_escape(s)[0] == s[0],
{
}

/// A canonical string starts as its hash identifier does, unless that starts
/// with a colon.
proof fn lemma_canonical_keeps_first(names: AlgorithmNames)
    requires
        names.hash.len() > 0,
        names.hash[0] != ':',
    ensures
        spec_canonical(names).len() > 0,
        spec_canonical(names)[0] == names.hash[0],
{
    lemma_escape_keeps_first(names.hash);
}

/// The two offered descriptors have different canonical strings.
proof fn lemma_offered_canonicals_differ()
    ensures
        spec_canonical(spec_prequantum_bee2rs()) != spec_canonical(spec_prequantum_standard()),
{
    reveal_strlit("bee2-rs::bash512");
    reveal_strlit("rustcrypto::aes-gcm");
    lemma_canonical_keeps_first(spec_prequantum_bee2rs());
    lemma_canonical_keeps_first(spec_prequantum_standard());
}

/// Reading the canonical string of an offered descriptor gives that
/// descriptor back.
pub proof fn lemma_parse_inverts_canonical(names: AlgorithmNames)
    requires
        spec_is_supported(names),
    ensures
        spec_parse(spec_canonical(names)) == Some(names),
{
    lemma_offered_canonicals_differ();
}

/// A string that reads as a descriptor is the canonical string of an offered
/// descriptor: nothing else is ever accepted.
pub proof fn lemma_parse_accepts_only_canonical(s: Seq<char>)
    ensures
        spec_parse(s) matches Some(names) ==> spec_is_supported(names) && spec_canonical(names)
            == s,
{
}

/// The preferred descriptor is fixed: whatever two calls return, it is the
/// first of the offered descriptors, the one of the national-standard family.
pub proof fn lemma_preference_is_fixed(first: AlgorithmNames, second: AlgorithmNames)
    requires
        first == spec_preferred_algorithm(),
        second == spec_preferred_algorithm(),
    ensures
        first == second,
        first == spec_supported_algorithms()[0],
        first == spec_prequantum_bee2rs(),
        spec_is_supported(first),
{
}

} // verus!
