//! HMAC signatures in the `<algorithm>=<hexdigest>` wire form.
//!
//! The digest itself comes from openssl; everything around it — hex
//! encoding, the wire format, and verification — is verified here.

use vstd::prelude::*;
use vstd::string::*;
use crate::strutil::{push_char, str_eq};

verus! {

#[derive(PartialEq, Eq, Structural, Debug, Clone, Copy)]
pub enum HashType {
    MD5,
    SHA1,
    SHA224,
    SHA256,
    SHA384,
    SHA512,
    RIPEMD160,
}

/// The lowercase token each algorithm uses on the wire.
pub open spec fn alg_token(h: HashType) -> Seq<char> {
    match h {
        HashType::MD5 => "md5"@,
        HashType::SHA1 => "sha1"@,
        HashType::SHA224 => "sha224"@,
        HashType::SHA256 => "sha256"@,
        HashType::SHA384 => "sha384"@,
        HashType::SHA512 => "sha512"@,
        HashType::RIPEMD160 => "ripemd160"@,
    }
}

/// The algorithm a token names, if any.
pub open spec fn spec_hash_from_str(s: Seq<char>) -> Option<HashType> {
    if s == "md5"@ {
        Some(HashType::MD5)
    } else if s == "sha1"@ {
        Some(HashType::SHA1)
    } else if s == "sha224"@ {
        Some(HashType::SHA224)
    } else if s == "sha256"@ {
        Some(HashType::SHA256)
    } else if s == "sha384"@ {
        Some(HashType::SHA384)
    } else if s == "sha512"@ {
        Some(HashType::SHA512)
    } else if s == "ripemd160"@ {
        Some(HashType::RIPEMD160)
    } else {
        None
    }
}

/// Number of bytes in each algorithm's digest.
pub open spec fn digest_len(h: HashType) -> nat {
    match h {
        HashType::MD5 => 16,
        HashType::SHA1 => 20,
        HashType::SHA224 => 28,
        HashType::SHA256 => 32,
        HashType::SHA384 => 48,
        HashType::SHA512 => 64,
        HashType::RIPEMD160 => 20,
    }
}

impl HashType {
    pub fn from_str(hasher: &str) -> (r: Option<HashType>)
        ensures
            r == spec_hash_from_str(hasher@),
    {
        if str_eq(hasher, "md5") {
            Some(HashType::MD5)
        } else if str_eq(hasher, "sha1") {
            Some(HashType::SHA1)
        } else if str_eq(hasher, "sha224") {
            Some(HashType::SHA224)
        } else if str_eq(hasher, "sha256") {
            Some(HashType::SHA256)
        } else if str_eq(hasher, "sha384") {
            Some(HashType::SHA384)
        } else if str_eq(hasher, "sha512") {
            Some(HashType::SHA512)
        } else if str_eq(hasher, "ripemd160") {
            Some(HashType::RIPEMD160)
        } else {
            None
        }
    }

    pub fn to_string(&self) -> (r: String)
        ensures
            r@ == alg_token(*self),
    {
        match *self {
            HashType::MD5 => "md5".to_owned(),
            HashType::SHA1 => "sha1".to_owned(),
            HashType::SHA224 => "sha224".to_owned(),
            HashType::SHA256 => "sha256".to_owned(),
            HashType::SHA384 => "sha384".to_owned(),
            HashType::SHA512 => "sha512".to_owned(),
            HashType::RIPEMD160 => "ripemd160".to_owned(),
        }
    }
}

/// The character for one hex digit value.
pub open spec fn hex_char(n: u8) -> char {
    if n == 0 { '0' }
    else if n == 1 { '1' }
    else if n == 2 { '2' }
    else if n == 3 { '3' }
    else if n == 4 { '4' }
    else if n == 5 { '5' }
    else if n == 6 { '6' }
    else if n == 7 { '7' }
    else if n == 8 { '8' }
    else if n == 9 { '9' }
    else if n == 10 { 'a' }
    else if n == 11 { 'b' }
    else if n == 12 { 'c' }
    else if n == 13 { 'd' }
    else if n == 14 { 'e' }
    else { 'f' }
}

/// Lowercase hex encoding of a byte sequence: two digits per byte,
/// high nibble first.
pub open spec fn hex_of(bytes: Seq<u8>) -> Seq<char> {
    Seq::new(bytes.len() * 2, |i: int|
        if i % 2 == 0 {
            hex_char(bytes[i / 2] / 16)
        } else {
            hex_char(bytes[i / 2] % 16)
        })
}

fn hex_char_of(n: u8) -> (c: char)
    requires
        n < 16,
    ensures
        c == hex_char(n),
{
    if n == 0 { '0' }
    else if n == 1 { '1' }
    else if n == 2 { '2' }
    else if n == 3 { '3' }
    else if n == 4 { '4' }
    else if n == 5 { '5' }
    else if n == 6 { '6' }
    else if n == 7 { '7' }
    else if n == 8 { '8' }
    else if n == 9 { '9' }
    else if n == 10 { 'a' }
    else if n == 11 { 'b' }
    else if n == 12 { 'c' }
    else if n == 13 { 'd' }
    else if n == 14 { 'e' }
    else { 'f' }
}

pub fn bytes_to_hex(bytes: &Vec<u8>) -> (r: String)
    ensures
        r@ == hex_of(bytes@),
{
    let mut out = String::new();
    let mut i: usize = 0;
    while i < bytes.len()
        invariant
            0 <= i <= bytes@.len(),
            out@ =~= hex_of(bytes@.take(i as int)),
        decreases bytes@.len() - i,
    {
        let b = bytes[i];
        push_char(&mut out, hex_char_of(b / 16));
        push_char(&mut out, hex_char_of(b % 16));
        i += 1;
        proof {
            assert(out@ =~= hex_of(bytes@.take(i as int)));
        }
    }
    proof {
        assert(bytes@.take(bytes@.len() as int) =~= bytes@);
    }
    out
}

/// The HMAC digest bytes, a function of the algorithm token, key and
/// data alone.
pub uninterp spec fn hmac_of(alg: Seq<char>, key: Seq<char>, data: Seq<char>) -> Seq<u8>;

/// Relies on openssl's PKey::hmac and Signer::sign_oneshot_to_vec: the
/// result is the HMAC of `data` under `key` with the chosen digest, and
/// its length is the digest's documented size. Keying and signing are
/// assumed not to fail for these digests.
#[verifier::external_body]
fn hmac_bytes(alg: &HashType, key: &str, data: &str) -> (r: Vec<u8>)
    ensures
        r@ == hmac_of(alg_token(*alg), key@, data@),
        r@.len() == digest_len(*alg),
{
    let md = match alg {
        HashType::MD5 => openssl::hash::MessageDigest::md5(),
        HashType::SHA1 => openssl::hash::MessageDigest::sha1(),
        HashType::SHA224 => openssl::hash::MessageDigest::sha224(),
        HashType::SHA256 => openssl::hash::MessageDigest::sha256(),
        HashType::SHA384 => openssl::hash::MessageDigest::sha384(),
        HashType::SHA512 => openssl::hash::MessageDigest::sha512(),
        HashType::RIPEMD160 => openssl::hash::MessageDigest::ripemd160(),
    };
    let pkey = openssl::pkey::PKey::hmac(key.as_bytes()).unwrap();
    let mut signer = openssl::sign::Signer::new(md, &pkey).unwrap();
    signer.sign_oneshot_to_vec(data.as_bytes()).unwrap()
}

/// Characters the wire format admits in the algorithm part.
pub open spec fn is_word_char(c: char) -> bool {
    ('a' <= c && c <= 'z') || ('A' <= c && c <= 'Z') || ('0' <= c && c <= '9') || c == '_'
}

/// Characters the wire format admits in the digest part.
pub open spec fn is_hex_digit_char(c: char) -> bool {
    ('0' <= c && c <= '9') || ('a' <= c && c <= 'f') || ('A' <= c && c <= 'F')
}

/// Uppercase hex digits fold to lowercase; everything else is kept.
pub open spec fn lower_hex_char(c: char) -> char {
    if c == 'A' { 'a' }
    else if c == 'B' { 'b' }
    else if c == 'C' { 'c' }
    else if c == 'D' { 'd' }
    else if c == 'E' { 'e' }
    else if c == 'F' { 'f' }
    else { c }
}

pub open spec fn lower_hex(s: Seq<char>) -> Seq<char> {
    s.map_values(|c: char| lower_hex_char(c))
}

/// Position `i` splits `s` into a non-empty word part, an `=`, and a
/// non-empty hex part.
pub open spec fn valid_sig_split(s: Seq<char>, i: int) -> bool {
    &&& 1 <= i
    &&& i + 1 < s.len()
    &&& s[i] == '='
    &&& forall|j: int| 0 <= j < i ==> is_word_char(#[trigger] s[j])
    &&& forall|j: int| i < j < s.len() ==> is_hex_digit_char(#[trigger] s[j])
}

/// What parsing the wire form yields: the algorithm and the digest,
/// hex-normalized to lowercase.
pub open spec fn spec_sig_parse(s: Seq<char>) -> Option<(HashType, Seq<char>)> {
    if exists|i: int| valid_sig_split(s, i) {
        let i = choose|i: int| valid_sig_split(s, i);
        match spec_hash_from_str(s.take(i)) {
            Some(alg) => Some((alg, lower_hex(s.skip(i + 1)))),
            None => None,
        }
    } else {
        None
    }
}

/// At most one position can split a wire string: the split character
/// is neither a word character nor a hex digit.
pub proof fn lemma_sig_split_unique(s: Seq<char>, i: int, j: int)
    requires
        valid_sig_split(s, i),
        valid_sig_split(s, j),
    ensures
        i == j,
{
    if i < j {
        assert(is_hex_digit_char(s[j])) by {
            assert(valid_sig_split(s, i));
        }
        assert(s[j] == '=');
        assert(false);
    }
    if j < i {
        assert(is_hex_digit_char(s[i])) by {
            assert(valid_sig_split(s, j));
        }
        assert(false);
    }
}

fn word_char_exec(c: char) -> (r: bool)
    ensures
        r == is_word_char(c),
{
    ('a' <= c && c <= 'z') || ('A' <= c && c <= 'Z') || ('0' <= c && c <= '9') || c == '_'
}

fn hex_digit_char_exec(c: char) -> (r: bool)
    ensures
        r == is_hex_digit_char(c),
{
    ('0' <= c && c <= '9') || ('a' <= c && c <= 'f') || ('A' <= c && c <= 'F')
}

fn lower_hex_char_exec(c: char) -> (r: char)
    ensures
        r == lower_hex_char(c),
{
    if c == 'A' { 'a' }
    else if c == 'B' { 'b' }
    else if c == 'C' { 'c' }
    else if c == 'D' { 'd' }
    else if c == 'E' { 'e' }
    else if c == 'F' { 'f' }
    else { c }
}

/// Scan the word part of a wire string. Yields the position of the
/// first `=` after a (possibly empty) run of word characters, or
/// rules every split out.
fn scan_word_prefix(s: &str) -> (r: Option<usize>)
    ensures
        match r {
            Some(i) => {
                &&& i < s@.len()
                &&& s@[i as int] == '='
                &&& forall|j: int| 0 <= j < i ==> is_word_char(#[trigger] s@[j])
            },
            None => forall|k: int| !valid_sig_split(s@, k),
        },
{
    let n = s.unicode_len();
    let mut i: usize = 0;
    while i < n
        invariant
            0 <= i <= n,
            n == s@.len(),
            forall|j: int| 0 <= j < i ==> is_word_char(#[trigger] s@[j]) && s@[j] != '=',
        decreases n - i,
    {
        let c = s.get_char(i);
        if c == '=' {
            return Some(i);
        }
        if !word_char_exec(c) {
            proof {
                assert forall|k: int| !valid_sig_split(s@, k) by {
                    if valid_sig_split(s@, k) {
                        if k <= i {
                            assert(s@[k] == '=');
                            assert(s@[k] != '=');
                        } else {
                            assert(is_word_char(s@[i as int]));
                        }
                    }
                }
            }
            return None;
        }
        i += 1;
    }
    proof {
        assert forall|k: int| !valid_sig_split(s@, k) by {
            if valid_sig_split(s@, k) {
                assert(s@[k] != '=');
            }
        }
    }
    None
}

/// Law: for every supported algorithm, a created signature survives the
/// round trip through its wire form: parsing `<token>=<hexdigest>`
/// yields the same algorithm and the same (already lowercase) digest.
/// The digest is any byte string of the algorithm's size, which every
/// digest the library creates has.
pub proof fn lemma_signature_round_trip(alg: HashType, digest: Seq<u8>)
    requires
        digest.len() == digest_len(alg),
    ensures
        spec_sig_parse(alg_token(alg) + seq!['='] + hex_of(digest)) == Some(
            (alg, hex_of(digest)),
        ),
{
    reveal_strlit("md5");
    reveal_strlit("sha1");
    reveal_strlit("sha224");
    reveal_strlit("sha256");
    reveal_strlit("sha384");
    reveal_strlit("sha512");
    reveal_strlit("ripemd160");
    let t = alg_token(alg);
    let hex = hex_of(digest);
    let s = t + seq!['='] + hex;
    assert forall|v: u8| v < 16 implies is_hex_digit_char(#[trigger] hex_char(v)) && lower_hex_char(
        hex_char(v),
    ) == hex_char(v) by {}
    assert(forall|j: int| 0 <= j < t.len() ==> is_word_char(#[trigger] t[j]));
    assert forall|j: int| 0 <= j < t.len() implies is_word_char(#[trigger] s[j]) by {
        assert(s[j] == t[j]);
    }
    assert(s[t.len() as int] == '=');
    assert forall|j: int| t.len() < j < s.len() implies is_hex_digit_char(#[trigger] s[j]) by {
        assert(s[j] == hex[j - t.len() - 1]);
    }
    assert(hex.len() == 2 * digest.len());
    assert(valid_sig_split(s, t.len() as int));
    let k = choose|i: int| valid_sig_split(s, i);
    lemma_sig_split_unique(s, k, t.len() as int);
    assert(s.take(t.len() as int) =~= t);
    lemma_token_parses(alg);
    assert(s.skip(t.len() as int + 1) =~= hex);
    assert(lower_hex(hex) =~= hex);
}

/// Each algorithm token resolves to its own algorithm: the tokens are
/// pairwise distinct.
pub proof fn lemma_token_parses(alg: HashType)
    ensures
        spec_hash_from_str(alg_token(alg)) == Some(alg),
{
    reveal_strlit("md5");
    reveal_strlit("sha1");
    reveal_strlit("sha224");
    reveal_strlit("sha256");
    reveal_strlit("sha384");
    reveal_strlit("sha512");
    reveal_strlit("ripemd160");
    assert("md5"@.len() == 3 && "sha1"@.len() == 4 && "sha224"@.len() == 6 && "sha256"@.len() == 6
        && "sha384"@.len() == 6 && "sha512"@.len() == 6 && "ripemd160"@.len() == 9);
    assert("sha224"@[3] == '2' && "sha256"@[3] == '2' && "sha384"@[3] == '3' && "sha512"@[3]
        == '5');
    assert("sha224"@[4] == '2' && "sha256"@[4] == '5');
    match alg {
        HashType::MD5 => {
            assert(spec_hash_from_str("md5"@) == Some(HashType::MD5));
        },
        HashType::SHA1 => {
            assert(spec_hash_from_str("sha1"@) == Some(HashType::SHA1));
        },
        HashType::SHA224 => {
            assert(spec_hash_from_str("sha224"@) == Some(HashType::SHA224));
        },
        HashType::SHA256 => {
            assert(spec_hash_from_str("sha256"@) == Some(HashType::SHA256));
        },
        HashType::SHA384 => {
            assert(spec_hash_from_str("sha384"@) == Some(HashType::SHA384));
        },
        HashType::SHA512 => {
            assert(spec_hash_from_str("sha512"@) == Some(HashType::SHA512));
        },
        HashType::RIPEMD160 => {
            assert(spec_hash_from_str("ripemd160"@) == Some(HashType::RIPEMD160));
        },
    }
}

#[derive(Debug, Clone)]
pub struct Signature {
    pub alg: HashType,
    pub hex: String,
}

impl PartialEq for Signature {
    fn eq(&self, other: &Signature) -> (r: bool) {
        self.alg == other.alg && self.hex == other.hex
    }
}

impl vstd::std_specs::cmp::PartialEqSpecImpl for Signature {
    open spec fn obeys_eq_spec() -> bool {
        true
    }

    open spec fn eq_spec(&self, other: &Signature) -> bool {
        self.alg == other.alg && self.hex@ == other.hex@
    }
}

impl Signature {
    pub fn create(alg: HashType, data: &str, key: &str) -> (r: Signature)
        ensures
            r.alg == alg,
            r.hex@ == hex_of(hmac_of(alg_token(alg), key@, data@)),
            r.hex@.len() == 2 * digest_len(alg),
    {
        let mac = hmac_bytes(&alg, key, data);
        let hex = bytes_to_hex(&mac);
        Signature { alg, hex }
    }

    pub fn verify(&self, data: &str, key: &str) -> (r: bool)
        ensures
            r == (self.hex@ == hex_of(hmac_of(alg_token(self.alg), key@, data@))),
    {
        let expected = Signature::create(self.alg, data, key);
        *self == expected
    }

    /// Parse the wire form `<algorithm>=<hexdigest>`.
    pub fn from(sig: String) -> (r: Option<Signature>)
        ensures
            match r {
                Some(parsed) => spec_sig_parse(sig@) == Some((parsed.alg, parsed.hex@)),
                None => spec_sig_parse(sig@) is None,
            },
    {
        let s = sig.as_str();
        let n = s.unicode_len();
        let eq: usize = match scan_word_prefix(s) {
            None => {
                return None;
            },
            Some(i) => i,
        };
        if eq == 0 {
            proof {
                assert(!is_word_char('='));
                assert(forall|k: int| !valid_sig_split(s@, k));
            }
            return None;
        }
        if eq + 1 >= n {
            proof {
                assert(!is_word_char('='));
                assert forall|k: int| !valid_sig_split(s@, k) by {
                    if valid_sig_split(s@, k) {
                        if k < eq {
                            assert(is_word_char(s@[k]));
                        } else if k > eq {
                            assert(is_word_char(s@[eq as int]));
                        }
                    }
                }
            }
            return None;
        }
        let mut hex = String::new();
        let mut j: usize = eq + 1;
        while j < n
            invariant
                1 <= eq,
                eq + 1 <= j <= n,
                n == s@.len(),
                s@ == sig@,
                s@[eq as int] == '=',
                forall|t: int| 0 <= t < eq ==> is_word_char(#[trigger] s@[t]),
                forall|t: int| eq < t < j ==> is_hex_digit_char(#[trigger] s@[t]),
                hex@ =~= lower_hex(s@.subrange(eq + 1, j as int)),
            decreases n - j,
        {
            let c = s.get_char(j);
            if !hex_digit_char_exec(c) {
                proof {
                    assert(!is_word_char('='));
                    assert forall|k: int| !valid_sig_split(s@, k) by {
                        if valid_sig_split(s@, k) {
                            if k < eq {
                                assert(is_word_char(s@[k]));
                            } else if k > eq {
                                assert(is_word_char(s@[eq as int]));
                            } else {
                                assert(is_hex_digit_char(s@[j as int]));
                            }
                        }
                    }
                    assert(s@ == sig@);
                    assert(spec_sig_parse(sig@) is None);
                }
                return None;
            }
            push_char(&mut hex, lower_hex_char_exec(c));
            j += 1;
            proof {
                assert(hex@ =~= lower_hex(s@.subrange(eq + 1, j as int)));
            }
        }
        proof {
            assert(valid_sig_split(s@, eq as int));
        }
        let alg_str = s.substring_char(0, eq);
        proof {
            let k = choose|i: int| valid_sig_split(s@, i);
            lemma_sig_split_unique(s@, k, eq as int);
            assert(s@.take(k) =~= alg_str@);
            assert(s@.skip(k + 1) =~= s@.subrange(eq + 1, n as int));
        }
        let alg = match HashType::from_str(alg_str) {
            None => {
                proof {
                    let k = choose|i: int| valid_sig_split(s@, i);
                    assert(spec_hash_from_str(s@.take(k)) is None);
                    assert(spec_sig_parse(s@) is None);
                }
                return None;
            },
            Some(a) => a,
        };
        proof {
            let k = choose|i: int| valid_sig_split(s@, i);
            assert(spec_hash_from_str(s@.take(k)) == Some(alg));
            assert(lower_hex(s@.skip(k + 1)) == hex@);
        }
        Some(Signature { alg, hex })
    }

    pub fn to_string(&self) -> (r: String)
        ensures
            r@ == alg_token(self.alg) + seq!['='] + self.hex@,
    {
        let mut out = self.alg.to_string();
        out.append("=");
        out.append(self.hex.as_str());
        proof {
            reveal_strlit("=");
            assert("="@ =~= seq!['=']);
        }
        out
    }
}

} // verus!
