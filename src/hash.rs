//! The registry of digest algorithms: names are looked up ignoring ASCII
//! case, and a digest is written as lower-case hexadecimal.
use crate::text::{concat, eq_ignoring_case, equals_ignoring_case, lemma_eq_ignoring_case_transfers, owned};
use crypto::digest::Digest;
use vstd::prelude::*;

verus! {

/// What MD5 gives for `bytes`, as lower-case hexadecimal.
pub uninterp spec fn md5_hex(bytes: Seq<u8>) -> Seq<char>;

/// What SHA-256 gives for `bytes`, as lower-case hexadecimal.
pub uninterp spec fn sha256_hex(bytes: Seq<u8>) -> Seq<char>;

/// What SHA-512 gives for `bytes`, as lower-case hexadecimal.
pub uninterp spec fn sha512_hex(bytes: Seq<u8>) -> Seq<char>;

/// A lower-case hexadecimal digit.
pub open spec fn is_lower_hex(c: char) -> bool {
    ('0' <= c <= '9') || ('a' <= c <= 'f')
}

/// Every character of `s` is a lower-case hexadecimal digit.
pub open spec fn all_lower_hex(s: Seq<char>) -> bool {
    forall|i: int| 0 <= i < s.len() ==> is_lower_hex(#[trigger] s[i])
}

/// Relies on rust-crypto's `Md5` and `Digest::result_str`: the 16-byte
/// digest written as 32 lower-case hexadecimal digits.
#[verifier::external_body]
fn md5(bytes: &[u8]) -> (r: String)
    ensures
        r@ == md5_hex(bytes@),
        r@.len() == 32,
        all_lower_hex(r@),
{
    let mut hasher = crypto::md5::Md5::new();
    hasher.input(bytes);
    hasher.result_str()
}

/// Relies on rust-crypto's `Sha256` and `Digest::result_str`: the 32-byte
/// digest written as 64 lower-case hexadecimal digits.
#[verifier::external_body]
fn sha256(bytes: &[u8]) -> (r: String)
    ensures
        r@ == sha256_hex(bytes@),
        r@.len() == 64,
        all_lower_hex(r@),
{
    let mut hasher = crypto::sha2::Sha256::new();
    hasher.input(bytes);
    hasher.result_str()
}

/// Relies on rust-crypto's `Sha512` and `Digest::result_str`: the 64-byte
/// digest written as 128 lower-case hexadecimal digits.
#[verifier::external_body]
fn sha512(bytes: &[u8]) -> (r: String)
    ensures
        r@ == sha512_hex(bytes@),
        r@.len() == 128,
        all_lower_hex(r@),
{
    let mut hasher = crypto::sha2::Sha512::new();
    hasher.input(bytes);
    hasher.result_str()
}

/// A registered digest algorithm.
#[derive(Clone, Copy, Debug, PartialEq, Eq, Structural)]
pub enum HashKind {
    Md5,
    Sha256,
    Sha512,
}

/// The algorithm registered under `name`, compared ignoring ASCII case.
pub open spec fn hash_kind_of(name: Seq<char>) -> Option<HashKind> {
    if eq_ignoring_case(name, seq!['m', 'd', '5']) {
        Some(HashKind::Md5)
    } else if eq_ignoring_case(name, seq!['s', 'h', 'a', '2', '5', '6']) {
        Some(HashKind::Sha256)
    } else if eq_ignoring_case(name, seq!['s', 'h', 'a', '5', '1', '2']) {
        Some(HashKind::Sha512)
    } else {
        None
    }
}

/// The hexadecimal digest of `bytes` under `kind`.
pub open spec fn digest_hex(kind: HashKind, bytes: Seq<u8>) -> Seq<char> {
    match kind {
        HashKind::Md5 => md5_hex(bytes),
        HashKind::Sha256 => sha256_hex(bytes),
        HashKind::Sha512 => sha512_hex(bytes),
    }
}

/// How many hexadecimal digits a digest of `kind` has.
pub open spec fn digest_len(kind: HashKind) -> nat {
    match kind {
        HashKind::Md5 => 32,
        HashKind::Sha256 => 64,
        HashKind::Sha512 => 128,
    }
}

/// What a hash sidecar file holds: the digest and a line break.
pub open spec fn sidecar_text(kind: HashKind, bytes: Seq<u8>) -> Seq<char> {
    digest_hex(kind, bytes).push('\n')
}

/// A digest name that the registry does not know.
#[derive(Clone, Debug, PartialEq, Eq)]
pub enum HashError {
    Unsupported(String),
}

impl HashKind {
    /// Looks `name` up in the registry.
    pub fn from_name(name: &str) -> (r: Option<HashKind>)
        ensures
            r == hash_kind_of(name@),
    {
        proof {
            reveal_strlit("md5");
            reveal_strlit("sha256");
            reveal_strlit("sha512");
            assert("md5"@ =~= seq!['m', 'd', '5']);
            assert("sha256"@ =~= seq!['s', 'h', 'a', '2', '5', '6']);
            assert("sha512"@ =~= seq!['s', 'h', 'a', '5', '1', '2']);
        }
        if equals_ignoring_case(name, "md5") {
            Some(HashKind::Md5)
        } else if equals_ignoring_case(name, "sha256") {
            Some(HashKind::Sha256)
        } else if equals_ignoring_case(name, "sha512") {
            Some(HashKind::Sha512)
        } else {
            None
        }
    }

    /// Digests `bytes` with this algorithm.
    pub fn digest(&self, bytes: &[u8]) -> (r: String)
        ensures
            r@ == digest_hex(*self, bytes@),
            r@.len() == digest_len(*self),
            all_lower_hex(r@),
    {
        match self {
            HashKind::Md5 => md5(bytes),
            HashKind::Sha256 => sha256(bytes),
            HashKind::Sha512 => sha512(bytes),
        }
    }
}

/// Whether a digest algorithm is registered under `hash`, ignoring ASCII case.
pub fn support_hash_type(hash: &str) -> (r: bool)
    ensures
        r == hash_kind_of(hash@) is Some,
{
    HashKind::from_name(hash).is_some()
}

/// The lower-case hexadecimal digest of `bytes` under the algorithm named `hash_type`.
pub fn hash(bytes: &[u8], hash_type: &str) -> (r: Result<String, HashError>)
    ensures
        match hash_kind_of(hash_type@) {
            Some(kind) => r matches Ok(hex) && hex@ == digest_hex(kind, bytes@) && hex@.len()
                == digest_len(kind) && all_lower_hex(hex@),
            None => r matches Err(HashError::Unsupported(n)) && n@ == hash_type@,
        },
{
    match HashKind::from_name(hash_type) {
        Some(kind) => Ok(kind.digest(bytes)),
        None => Err(HashError::Unsupported(owned(hash_type))),
    }
}

/// The text of the sidecar file that records the `hash` digest of `bytes`.
pub fn sidecar_content(bytes: &[u8], hash: &str) -> (r: Result<String, HashError>)
    ensures
        match hash_kind_of(hash@) {
            Some(kind) => r matches Ok(text) && text@ == sidecar_text(kind, bytes@),
            None => r matches Err(HashError::Unsupported(n)) && n@ == hash@,
        },
{
    match HashKind::from_name(hash) {
        Some(kind) => {
            let hex = kind.digest(bytes);
            let newline = "\n";
            proof {
                reveal_strlit("\n");
                assert(hex@ + newline@ =~= hex@.push('\n'));
            }
            Ok(concat(hex.as_str(), newline))
        },
        None => Err(HashError::Unsupported(owned(hash))),
    }
}

/// A digest depends on the bytes and on the algorithm's name up to ASCII
/// case, and on nothing else: digesting the same bytes under the same name,
/// however it is capitalised, gives the same hexadecimal string.
pub proof fn lemma_digest_deterministic(b1: Seq<u8>, b2: Seq<u8>, n1: Seq<char>, n2: Seq<char>)
    requires
        b1 == b2,
        eq_ignoring_case(n1, n2),
        hash_kind_of(n1) is Some,
    ensures
        hash_kind_of(n2) == hash_kind_of(n1),
        digest_hex(hash_kind_of(n1)->Some_0, b1) == digest_hex(hash_kind_of(n2)->Some_0, b2),
        sidecar_text(hash_kind_of(n1)->Some_0, b1) == sidecar_text(hash_kind_of(n2)->Some_0, b2),
{
    lemma_eq_ignoring_case_transfers(n1, n2, seq!['m', 'd', '5']);
    lemma_eq_ignoring_case_transfers(n1, n2, seq!['s', 'h', 'a', '2', '5', '6']);
    lemma_eq_ignoring_case_transfers(n1, n2, seq!['s', 'h', 'a', '5', '1', '2']);
}

} // verus!
