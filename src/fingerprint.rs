//! Fingerprints: the lowercase hexadecimal text of a digest, and the check of
//! a candidate against a target fingerprint.
use crate::digest::Algorithm;
use vstd::prelude::*;

verus! {

/// The ASCII hex digit for `n < 16`, lowercase.
pub open spec fn hex_digit(n: u8) -> u8 {
    if n < 10 {
        (48 + n) as u8
    } else {
        (87 + n) as u8
    }
}

/// Two lowercase hex digits per byte, most significant nibble first.
pub open spec fn hex_of(s: Seq<u8>) -> Seq<u8>
    decreases s.len(),
{
    if s.len() == 0 {
        Seq::empty()
    } else {
        hex_of(s.drop_last()).push(hex_digit(s.last() / 16)).push(hex_digit(s.last() % 16))
    }
}

/// The lowercase hexadecimal text of `bytes`.
pub fn to_hex(bytes: &[u8]) -> (r: Vec<u8>)
    ensures
        r@ == hex_of(bytes@),
{
    let mut r: Vec<u8> = Vec::new();
    let mut i: usize = 0;
    while i < bytes.len()
        invariant
            i <= bytes.len(),
            r@ == hex_of(bytes@.subrange(0, i as int)),
        decreases bytes.len() - i,
    {
        let b = bytes[i];
        let hi = b / 16;
        let lo = b % 16;
        r.push(if hi < 10 { 48 + hi } else { 87 + hi });
        r.push(if lo < 10 { 48 + lo } else { 87 + lo });
        assert(bytes@.subrange(0, i + 1).drop_last() =~= bytes@.subrange(0, i as int));
        i += 1;
    }
    assert(bytes@.subrange(0, bytes@.len() as int) =~= bytes@);
    r
}

/// ASCII letters lowered; every other byte kept.
pub open spec fn lower_byte(b: u8) -> u8 {
    if 65 <= b <= 90 {
        (b + 32) as u8
    } else {
        b
    }
}

/// Space, tab, line feed, vertical tab, form feed or carriage return.
pub open spec fn is_blank(b: u8) -> bool {
    b == 32 || (9 <= b <= 13)
}

/// The index of the first byte at or after `i` that is not blank.
pub open spec fn skip_blank(s: Seq<u8>, i: int) -> int
    decreases s.len() - i,
{
    if i < 0 || i >= s.len() {
        s.len() as int
    } else if is_blank(s[i]) {
        skip_blank(s, i + 1)
    } else {
        i
    }
}

/// One past the last byte before `e` that is not blank, or `b` if none is.
pub open spec fn trim_blank_end(s: Seq<u8>, b: int, e: int) -> int
    decreases e - b,
{
    if e <= b {
        b
    } else if is_blank(s[e - 1]) {
        trim_blank_end(s, b, e - 1)
    } else {
        e
    }
}

/// `text` without surrounding blanks, with ASCII letters lowered: the form in
/// which fingerprints are compared.
pub open spec fn normalized(text: Seq<u8>) -> Seq<u8> {
    let b = skip_blank(text, 0);
    text.subrange(b, trim_blank_end(text, b, text.len() as int)).map_values(
        |c: u8| lower_byte(c),
    )
}

/// Brings a target fingerprint, as read, to the form in which it is compared:
/// surrounding blanks removed and ASCII letters lowered.
pub fn normalize_fingerprint(text: &[u8]) -> (r: Vec<u8>)
    ensures
        r@ == normalized(text@),
{
    let n = text.len();
    let mut b: usize = 0;
    while b < n && (text[b] == 32 || (9 <= text[b] && text[b] <= 13))
        invariant
            b <= n == text@.len(),
            skip_blank(text@, b as int) == skip_blank(text@, 0),
        decreases n - b,
    {
        b += 1;
    }
    let mut e: usize = n;
    while e > b && (text[e - 1] == 32 || (9 <= text[e - 1] && text[e - 1] <= 13))
        invariant
            b <= e <= n == text@.len(),
            trim_blank_end(text@, b as int, e as int) == trim_blank_end(text@, b as int, n as int),
        decreases e - b,
    {
        e -= 1;
    }
    let mut r: Vec<u8> = Vec::new();
    let mut i: usize = b;
    while i < e
        invariant
            b <= i <= e <= n == text@.len(),
            r@ =~= text@.subrange(b as int, i as int).map_values(|c: u8| lower_byte(c)),
        decreases e - i,
    {
        let c = text[i];
        r.push(if 65 <= c && c <= 90 { c + 32 } else { c });
        i += 1;
    }
    r
}

/// The fingerprint of `input` under `algorithm`.
pub fn fingerprint(algorithm: Algorithm, input: &[u8]) -> (r: Vec<u8>)
    ensures
        r@ == hex_of(algorithm.spec_digest(input@)),
{
    let d = algorithm.digest(input);
    to_hex(d.as_slice())
}

/// What a candidate is checked against: a digest algorithm, the salt put in
/// front of every candidate (empty for none), and the normalized target
/// fingerprint.
pub struct Verifier {
    pub algorithm: Algorithm,
    pub salt: Vec<u8>,
    pub target: Vec<u8>,
}

/// The fingerprint of `candidate` under `algorithm` with `salt`: always the
/// digest of the salt followed by the candidate.
pub open spec fn fingerprint_of(algorithm: Algorithm, salt: Seq<u8>, candidate: Seq<u8>) -> Seq<
    u8,
> {
    hex_of(algorithm.spec_digest(salt + candidate))
}

impl Verifier {
    /// A verifier whose target is `target_text` normalized.
    pub fn new(algorithm: Algorithm, salt: Vec<u8>, target_text: &[u8]) -> (r: Self)
        ensures
            r.algorithm == algorithm,
            r.salt@ == salt@,
            r.target@ == normalized(target_text@),
    {
        Verifier { algorithm, salt, target: normalize_fingerprint(target_text) }
    }

    /// `candidate` matches: its salted fingerprint is the target.
    pub open spec fn accepts(&self, candidate: Seq<u8>) -> bool {
        fingerprint_of(self.algorithm, self.salt@, candidate) == self.target@
    }

    /// Checks `candidate`: computes the digest of the salt followed by the
    /// candidate and compares its fingerprint with the target.
    pub fn verify(&self, candidate: &[u8]) -> (r: bool)
        ensures
            r == self.accepts(candidate@),
            r == (hex_of(self.algorithm.spec_digest(self.salt@ + candidate@)) == self.target@),
    {
        let mut input: Vec<u8> = Vec::new();
        input.extend_from_slice(self.salt.as_slice());
        input.extend_from_slice(candidate);
        assert(input@ =~= self.salt@ + candidate@);
        let d = self.algorithm.digest(input.as_slice());
        let fp = to_hex(d.as_slice());
        bytes_equal(&fp, &self.target)
    }
}

/// `a` and `b` hold the same bytes.
fn bytes_equal(a: &Vec<u8>, b: &Vec<u8>) -> (r: bool)
    ensures
        r == (a@ == b@),
{
    if a.len() != b.len() {
        return false;
    }
    let mut i: usize = 0;
    while i < a.len()
        invariant
            i <= a.len() == b.len(),
            forall|k: int| 0 <= k < i ==> a@[k] == b@[k],
        decreases a.len() - i,
    {
        if a[i] != b[i] {
            return false;
        }
        i += 1;
    }
    assert(a@ =~= b@);
    true
}

} // verus!
