//! The digest algorithms that a target fingerprint can be checked against,
//! the hexadecimal fingerprint of a digest, and the salted check of a
//! candidate.
//!
//! Each algorithm is computed by its own outside crate. What a digest is on
//! given bytes is not restated here: each has a name (`sha256_of`, ...) that
//! stands for the crate's result, and the fingerprint logic is proved over
//! those names.
use vstd::prelude::*;

verus! {

/// A digest algorithm, selected by name.
#[derive(Clone, Copy, Debug, PartialEq, Eq, Structural)]
pub enum Algorithm {
    Ascon,
    Belt,
    Fsb160,
    Fsb224,
    Fsb256,
    Sha256,
    Sha512,
    Md2,
    Md4,
    Md5,
    Ripemd160,
    Ripemd256,
    Ripemd320,
    Sha1,
    Sha3_256,
    Sha3_512,
    Blake2b512,
    Blake2s256,
    Gost94,
    Groestl224,
    Groestl256,
    Jh224,
    Jh256,
    Jh384,
    Jh512,
    Shabal256,
    Sm3,
    Streebog256,
    Streebog512,
    Tiger,
    Whirlpool,
}

/// What the ascon_hash crate computes as the ascon digest of a byte string.
pub uninterp spec fn ascon_of(input: Seq<u8>) -> Seq<u8>;

/// What the belt_hash crate computes as the belt digest of a byte string.
pub uninterp spec fn belt_of(input: Seq<u8>) -> Seq<u8>;

/// What the fsb crate computes as the fsb160 digest of a byte string.
pub uninterp spec fn fsb160_of(input: Seq<u8>) -> Seq<u8>;

/// What the fsb crate computes as the fsb224 digest of a byte string.
pub uninterp spec fn fsb224_of(input: Seq<u8>) -> Seq<u8>;

/// What the fsb crate computes as the fsb256 digest of a byte string.
pub uninterp spec fn fsb256_of(input: Seq<u8>) -> Seq<u8>;

/// What the sha2 crate computes as the sha256 digest of a byte string.
pub uninterp spec fn sha256_of(input: Seq<u8>) -> Seq<u8>;

/// What the sha2 crate computes as the sha512 digest of a byte string.
pub uninterp spec fn sha512_of(input: Seq<u8>) -> Seq<u8>;

/// What the md2 crate computes as the md2 digest of a byte string.
pub uninterp spec fn md2_of(input: Seq<u8>) -> Seq<u8>;

/// What the md4 crate computes as the md4 digest of a byte string.
pub uninterp spec fn md4_of(input: Seq<u8>) -> Seq<u8>;

/// What the md5 crate computes as the md5 digest of a byte string.
pub uninterp spec fn md5_of(input: Seq<u8>) -> Seq<u8>;

/// What the ripemd crate computes as the ripemd160 digest of a byte string.
pub uninterp spec fn ripemd160_of(input: Seq<u8>) -> Seq<u8>;

/// What the ripemd crate computes as the ripemd256 digest of a byte string.
pub uninterp spec fn ripemd256_of(input: Seq<u8>) -> Seq<u8>;

/// What the ripemd crate computes as the ripemd320 digest of a byte string.
pub uninterp spec fn ripemd320_of(input: Seq<u8>) -> Seq<u8>;

/// What the sha1 crate computes as the sha1 digest of a byte string.
pub uninterp spec fn sha1_of(input: Seq<u8>) -> Seq<u8>;

/// What the sha3 crate computes as the sha3_256 digest of a byte string.
pub uninterp spec fn sha3_256_of(input: Seq<u8>) -> Seq<u8>;

/// What the sha3 crate computes as the sha3_512 digest of a byte string.
pub uninterp spec fn sha3_512_of(input: Seq<u8>) -> Seq<u8>;

/// What the blake2 crate computes as the blake2b512 digest of a byte string.
pub uninterp spec fn blake2b512_of(input: Seq<u8>) -> Seq<u8>;

/// What the blake2 crate computes as the blake2s256 digest of a byte string.
pub uninterp spec fn blake2s256_of(input: Seq<u8>) -> Seq<u8>;

/// What the gost94 crate computes as the gost94 digest of a byte string.
pub uninterp spec fn gost94_of(input: Seq<u8>) -> Seq<u8>;

/// What the groestl crate computes as the groestl224 digest of a byte string.
pub uninterp spec fn groestl224_of(input: Seq<u8>) -> Seq<u8>;

/// What the groestl crate computes as the groestl256 digest of a byte string.
pub uninterp spec fn groestl256_of(input: Seq<u8>) -> Seq<u8>;

/// What the jh crate computes as the jh224 digest of a byte string.
pub uninterp spec fn jh224_of(input: Seq<u8>) -> Seq<u8>;

/// What the jh crate computes as the jh256 digest of a byte string.
pub uninterp spec fn jh256_of(input: Seq<u8>) -> Seq<u8>;

/// What the jh crate computes as the jh384 digest of a byte string.
pub uninterp spec fn jh384_of(input: Seq<u8>) -> Seq<u8>;

/// What the jh crate computes as the jh512 digest of a byte string.
pub uninterp spec fn jh512_of(input: Seq<u8>) -> Seq<u8>;

/// What the shabal crate computes as the shabal256 digest of a byte string.
pub uninterp spec fn shabal256_of(input: Seq<u8>) -> Seq<u8>;

/// What the sm3 crate computes as the sm3 digest of a byte string.
pub uninterp spec fn sm3_of(input: Seq<u8>) -> Seq<u8>;

/// What the streebog crate computes as the streebog256 digest of a byte string.
pub uninterp spec fn streebog256_of(input: Seq<u8>) -> Seq<u8>;

/// What the streebog crate computes as the streebog512 digest of a byte string.
pub uninterp spec fn streebog512_of(input: Seq<u8>) -> Seq<u8>;

/// What the tiger crate computes as the tiger digest of a byte string.
pub uninterp spec fn tiger_of(input: Seq<u8>) -> Seq<u8>;

/// What the whirlpool crate computes as the whirlpool digest of a byte string.
pub uninterp spec fn whirlpool_of(input: Seq<u8>) -> Seq<u8>;

/// Relies on `ascon_hash::AsconHash` through `Digest::digest`: the ascon digest of the
/// input bytes.
#[verifier::external_body]
fn ascon_digest(input: &[u8]) -> (r: Vec<u8>)
    ensures
        r@ == ascon_of(input@),
{
    <ascon_hash::AsconHash as ascon_hash::Digest>::digest(input).to_vec()
}

/// Relies on `belt_hash::BeltHash` through `Digest::digest`: the belt digest of the
/// input bytes.
#[verifier::external_body]
fn belt_digest(input: &[u8]) -> (r: Vec<u8>)
    ensures
        r@ == belt_of(input@),
{
    <belt_hash::BeltHash as belt_hash::Digest>::digest(input).to_vec()
}

/// Relies on `fsb::Fsb160` through `Digest::digest`: the fsb160 digest of the
/// input bytes.
#[verifier::external_body]
fn fsb160_digest(input: &[u8]) -> (r: Vec<u8>)
    ensures
        r@ == fsb160_of(input@),
{
    <fsb::Fsb160 as fsb::Digest>::digest(input).to_vec()
}

/// Relies on `fsb::Fsb224` through `Digest::digest`: the fsb224 digest of the
/// input bytes.
#[verifier::external_body]
fn fsb224_digest(input: &[u8]) -> (r: Vec<u8>)
    ensures
        r@ == fsb224_of(input@),
{
    <fsb::Fsb224 as fsb::Digest>::digest(input).to_vec()
}

/// Relies on `fsb::Fsb256` through `Digest::digest`: the fsb256 digest of the
/// input bytes.
#[verifier::external_body]
fn fsb256_digest(input: &[u8]) -> (r: Vec<u8>)
    ensures
        r@ == fsb256_of(input@),
{
    <fsb::Fsb256 as fsb::Digest>::digest(input).to_vec()
}

/// Relies on `sha2::Sha256` through `Digest::digest`: the sha256 digest of the
/// input bytes.
#[verifier::external_body]
fn sha256_digest(input: &[u8]) -> (r: Vec<u8>)
    ensures
        r@ == sha256_of(input@),
{
    <sha2::Sha256 as sha2::Digest>::digest(input).to_vec()
}

/// Relies on `sha2::Sha512` through `Digest::digest`: the sha512 digest of the
/// input bytes.
#[verifier::external_body]
fn sha512_digest(input: &[u8]) -> (r: Vec<u8>)
    ensures
        r@ == sha512_of(input@),
{
    <sha2::Sha512 as sha2::Digest>::digest(input).to_vec()
}

/// Relies on `md2::Md2` through `Digest::digest`: the md2 digest of the
/// input bytes.
#[verifier::external_body]
fn md2_digest(input: &[u8]) -> (r: Vec<u8>)
    ensures
        r@ == md2_of(input@),
{
    <md2::Md2 as md2::Digest>::digest(input).to_vec()
}

/// Relies on `md4::Md4` through `Digest::digest`: the md4 digest of the
/// input bytes.
#[verifier::external_body]
fn md4_digest(input: &[u8]) -> (r: Vec<u8>)
    ensures
        r@ == md4_of(input@),
{
    <md4::Md4 as md4::Digest>::digest(input).to_vec()
}

/// Relies on `md5::compute`: the MD5 digest of the input bytes.
#[verifier::external_body]
fn md5_digest(input: &[u8]) -> (r: Vec<u8>)
    ensures
        r@ == md5_of(input@),
{
    md5::compute(input).0.to_vec()
}

/// Relies on `ripemd::Ripemd160` through `Digest::digest`: the ripemd160 digest of the
/// input bytes.
#[verifier::external_body]
fn ripemd160_digest(input: &[u8]) -> (r: Vec<u8>)
    ensures
        r@ == ripemd160_of(input@),
{
    <ripemd::Ripemd160 as ripemd::Digest>::digest(input).to_vec()
}

/// Relies on `ripemd::Ripemd256` through `Digest::digest`: the ripemd256 digest of the
/// input bytes.
#[verifier::external_body]
fn ripemd256_digest(input: &[u8]) -> (r: Vec<u8>)
    ensures
        r@ == ripemd256_of(input@),
{
    <ripemd::Ripemd256 as ripemd::Digest>::digest(input).to_vec()
}

/// Relies on `ripemd::Ripemd320` through `Digest::digest`: the ripemd320 digest of the
/// input bytes.
#[verifier::external_body]
fn ripemd320_digest(input: &[u8]) -> (r: Vec<u8>)
    ensures
        r@ == ripemd320_of(input@),
{
    <ripemd::Ripemd320 as ripemd::Digest>::digest(input).to_vec()
}

/// Relies on `sha1::Sha1` through `Digest::digest`: the sha1 digest of the
/// input bytes.
#[verifier::external_body]
fn sha1_digest(input: &[u8]) -> (r: Vec<u8>)
    ensures
        r@ == sha1_of(input@),
{
    <sha1::Sha1 as sha1::Digest>::digest(input).to_vec()
}

/// Relies on `sha3::Sha3_256` through `Digest::digest`: the sha3_256 digest of the
/// input bytes.
#[verifier::external_body]
fn sha3_256_digest(input: &[u8]) -> (r: Vec<u8>)
    ensures
        r@ == sha3_256_of(input@),
{
    <sha3::Sha3_256 as sha3::Digest>::digest(input).to_vec()
}

/// Relies on `sha3::Sha3_512` through `Digest::digest`: the sha3_512 digest of the
/// input bytes.
#[verifier::external_body]
fn sha3_512_digest(input: &[u8]) -> (r: Vec<u8>)
    ensures
        r@ == sha3_512_of(input@),
{
    <sha3::Sha3_512 as sha3::Digest>::digest(input).to_vec()
}

/// Relies on `blake2::Blake2b512` through `Digest::digest`: the blake2b512 digest of the
/// input bytes.
#[verifier::external_body]
fn blake2b512_digest(input: &[u8]) -> (r: Vec<u8>)
    ensures
        r@ == blake2b512_of(input@),
{
    <blake2::Blake2b512 as blake2::Digest>::digest(input).to_vec()
}

/// Relies on `blake2::Blake2s256` through `Digest::digest`: the blake2s256 digest of the
/// input bytes.
#[verifier::external_body]
fn blake2s256_digest(input: &[u8]) -> (r: Vec<u8>)
    ensures
        r@ == blake2s256_of(input@),
{
    <blake2::Blake2s256 as blake2::Digest>::digest(input).to_vec()
}

/// Relies on `gost94::Gost94CryptoPro` through `Digest::digest`: the gost94 digest of the
/// input bytes.
#[verifier::external_body]
fn gost94_digest(input: &[u8]) -> (r: Vec<u8>)
    ensures
        r@ == gost94_of(input@),
{
    <gost94::Gost94CryptoPro as gost94::Digest>::digest(input).to_vec()
}

/// Relies on `groestl::Groestl224` through `Digest::digest`: the groestl224 digest of the
/// input bytes.
#[verifier::external_body]
fn groestl224_digest(input: &[u8]) -> (r: Vec<u8>)
    ensures
        r@ == groestl224_of(input@),
{
    <groestl::Groestl224 as groestl::Digest>::digest(input).to_vec()
}

/// Relies on `groestl::Groestl256` through `Digest::digest`: the groestl256 digest of the
/// input bytes.
#[verifier::external_body]
fn groestl256_digest(input: &[u8]) -> (r: Vec<u8>)
    ensures
        r@ == groestl256_of(input@),
{
    <groestl::Groestl256 as groestl::Digest>::digest(input).to_vec()
}

/// Relies on `jh::Jh224` through `Digest::digest`: the jh224 digest of the
/// input bytes.
#[verifier::external_body]
fn jh224_digest(input: &[u8]) -> (r: Vec<u8>)
    ensures
        r@ == jh224_of(input@),
{
    <jh::Jh224 as jh::Digest>::digest(input).to_vec()
}

/// Relies on `jh::Jh256` through `Digest::digest`: the jh256 digest of the
/// input bytes.
#[verifier::external_body]
fn jh256_digest(input: &[u8]) -> (r: Vec<u8>)
    ensures
        r@ == jh256_of(input@),
{
    <jh::Jh256 as jh::Digest>::digest(input).to_vec()
}

/// Relies on `jh::Jh384` through `Digest::digest`: the jh384 digest of the
/// input bytes.
#[verifier::external_body]
fn jh384_digest(input: &[u8]) -> (r: Vec<u8>)
    ensures
        r@ == jh384_of(input@),
{
    <jh::Jh384 as jh::Digest>::digest(input).to_vec()
}

/// Relies on `jh::Jh512` through `Digest::digest`: the jh512 digest of the
/// input bytes.
#[verifier::external_body]
fn jh512_digest(input: &[u8]) -> (r: Vec<u8>)
    ensures
        r@ == jh512_of(input@),
{
    <jh::Jh512 as jh::Digest>::digest(input).to_vec()
}

/// Relies on `shabal::Shabal256` through `Digest::digest`: the shabal256 digest of the
/// input bytes.
#[verifier::external_body]
fn shabal256_digest(input: &[u8]) -> (r: Vec<u8>)
    ensures
        r@ == shabal256_of(input@),
{
    <shabal::Shabal256 as shabal::Digest>::digest(input).to_vec()
}

/// Relies on `sm3::Sm3` through `Digest::digest`: the sm3 digest of the
/// input bytes.
#[verifier::external_body]
fn sm3_digest(input: &[u8]) -> (r: Vec<u8>)
    ensures
        r@ == sm3_of(input@),
{
    <sm3::Sm3 as sm3::Digest>::digest(input).to_vec()
}

/// Relies on `streebog::Streebog256` through `Digest::digest`: the streebog256 digest of the
/// input bytes.
#[verifier::external_body]
fn streebog256_digest(input: &[u8]) -> (r: Vec<u8>)
    ensures
        r@ == streebog256_of(input@),
{
    <streebog::Streebog256 as streebog::Digest>::digest(input).to_vec()
}

/// Relies on `streebog::Streebog512` through `Digest::digest`: the streebog512 digest of the
/// input bytes.
#[verifier::external_body]
fn streebog512_digest(input: &[u8]) -> (r: Vec<u8>)
    ensures
        r@ == streebog512_of(input@),
{
    <streebog::Streebog512 as streebog::Digest>::digest(input).to_vec()
}

/// Relies on `tiger::Tiger` through `Digest::digest`: the tiger digest of the
/// input bytes.
#[verifier::external_body]
fn tiger_digest(input: &[u8]) -> (r: Vec<u8>)
    ensures
        r@ == tiger_of(input@),
{
    <tiger::Tiger as tiger::Digest>::digest(input).to_vec()
}

/// Relies on `whirlpool::Whirlpool` through `Digest::digest`: the whirlpool digest of the
/// input bytes.
#[verifier::external_body]
fn whirlpool_digest(input: &[u8]) -> (r: Vec<u8>)
    ensures
        r@ == whirlpool_of(input@),
{
    <whirlpool::Whirlpool as whirlpool::Digest>::digest(input).to_vec()
}

impl Algorithm {
    /// The name that selects this algorithm.
    pub open spec fn spec_name(self) -> Seq<char> {
        match self {
            Algorithm::Ascon => "ascon"@,
            Algorithm::Belt => "belt"@,
            Algorithm::Fsb160 => "fsb160"@,
            Algorithm::Fsb224 => "fsb224"@,
            Algorithm::Fsb256 => "fsb256"@,
            Algorithm::Sha256 => "sha256"@,
            Algorithm::Sha512 => "sha512"@,
            Algorithm::Md2 => "md2"@,
            Algorithm::Md4 => "md4"@,
            Algorithm::Md5 => "md5"@,
            Algorithm::Ripemd160 => "ripemd160"@,
            Algorithm::Ripemd256 => "ripemd256"@,
            Algorithm::Ripemd320 => "ripemd320"@,
            Algorithm::Sha1 => "sha1"@,
            Algorithm::Sha3_256 => "sha3_256"@,
            Algorithm::Sha3_512 => "sha3_512"@,
            Algorithm::Blake2b512 => "blake2b512"@,
            Algorithm::Blake2s256 => "blake2s256"@,
            Algorithm::Gost94 => "gost94"@,
            Algorithm::Groestl224 => "groestl224"@,
            Algorithm::Groestl256 => "groestl256"@,
            Algorithm::Jh224 => "jh224"@,
            Algorithm::Jh256 => "jh256"@,
            Algorithm::Jh384 => "jh384"@,
            Algorithm::Jh512 => "jh512"@,
            Algorithm::Shabal256 => "shabal256"@,
            Algorithm::Sm3 => "sm3"@,
            Algorithm::Streebog256 => "streebog256"@,
            Algorithm::Streebog512 => "streebog512"@,
            Algorithm::Tiger => "tiger"@,
            Algorithm::Whirlpool => "whirlpool"@,
        }
    }

    /// The name that selects this algorithm.
    pub fn name(&self) -> (r: &'static str)
        ensures
            r@ == self.spec_name(),
    {
        match self {
            Algorithm::Ascon => "ascon",
            Algorithm::Belt => "belt",
            Algorithm::Fsb160 => "fsb160",
            Algorithm::Fsb224 => "fsb224",
            Algorithm::Fsb256 => "fsb256",
            Algorithm::Sha256 => "sha256",
            Algorithm::Sha512 => "sha512",
            Algorithm::Md2 => "md2",
            Algorithm::Md4 => "md4",
            Algorithm::Md5 => "md5",
            Algorithm::Ripemd160 => "ripemd160",
            Algorithm::Ripemd256 => "ripemd256",
            Algorithm::Ripemd320 => "ripemd320",
            Algorithm::Sha1 => "sha1",
            Algorithm::Sha3_256 => "sha3_256",
            Algorithm::Sha3_512 => "sha3_512",
            Algorithm::Blake2b512 => "blake2b512",
            Algorithm::Blake2s256 => "blake2s256",
            Algorithm::Gost94 => "gost94",
            Algorithm::Groestl224 => "groestl224",
            Algorithm::Groestl256 => "groestl256",
            Algorithm::Jh224 => "jh224",
            Algorithm::Jh256 => "jh256",
            Algorithm::Jh384 => "jh384",
            Algorithm::Jh512 => "jh512",
            Algorithm::Shabal256 => "shabal256",
            Algorithm::Sm3 => "sm3",
            Algorithm::Streebog256 => "streebog256",
            Algorithm::Streebog512 => "streebog512",
            Algorithm::Tiger => "tiger",
            Algorithm::Whirlpool => "whirlpool",
        }
    }

    /// The digest of `input` under this algorithm.
    pub open spec fn spec_digest(self, input: Seq<u8>) -> Seq<u8> {
        match self {
            Algorithm::Ascon => ascon_of(input),
            Algorithm::Belt => belt_of(input),
            Algorithm::Fsb160 => fsb160_of(input),
            Algorithm::Fsb224 => fsb224_of(input),
            Algorithm::Fsb256 => fsb256_of(input),
            Algorithm::Sha256 => sha256_of(input),
            Algorithm::Sha512 => sha512_of(input),
            Algorithm::Md2 => md2_of(input),
            Algorithm::Md4 => md4_of(input),
            Algorithm::Md5 => md5_of(input),
            Algorithm::Ripemd160 => ripemd160_of(input),
            Algorithm::Ripemd256 => ripemd256_of(input),
            Algorithm::Ripemd320 => ripemd320_of(input),
            Algorithm::Sha1 => sha1_of(input),
            Algorithm::Sha3_256 => sha3_256_of(input),
            Algorithm::Sha3_512 => sha3_512_of(input),
            Algorithm::Blake2b512 => blake2b512_of(input),
            Algorithm::Blake2s256 => blake2s256_of(input),
            Algorithm::Gost94 => gost94_of(input),
            Algorithm::Groestl224 => groestl224_of(input),
            Algorithm::Groestl256 => groestl256_of(input),
            Algorithm::Jh224 => jh224_of(input),
            Algorithm::Jh256 => jh256_of(input),
            Algorithm::Jh384 => jh384_of(input),
            Algorithm::Jh512 => jh512_of(input),
            Algorithm::Shabal256 => shabal256_of(input),
            Algorithm::Sm3 => sm3_of(input),
            Algorithm::Streebog256 => streebog256_of(input),
            Algorithm::Streebog512 => streebog512_of(input),
            Algorithm::Tiger => tiger_of(input),
            Algorithm::Whirlpool => whirlpool_of(input),
        }
    }

    /// Computes the digest of `input` under this algorithm.
    pub fn digest(&self, input: &[u8]) -> (r: Vec<u8>)
        ensures
            r@ == self.spec_digest(input@),
    {
        match self {
            Algorithm::Ascon => ascon_digest(input),
            Algorithm::Belt => belt_digest(input),
            Algorithm::Fsb160 => fsb160_digest(input),
            Algorithm::Fsb224 => fsb224_digest(input),
            Algorithm::Fsb256 => fsb256_digest(input),
            Algorithm::Sha256 => sha256_digest(input),
            Algorithm::Sha512 => sha512_digest(input),
            Algorithm::Md2 => md2_digest(input),
            Algorithm::Md4 => md4_digest(input),
            Algorithm::Md5 => md5_digest(input),
            Algorithm::Ripemd160 => ripemd160_digest(input),
            Algorithm::Ripemd256 => ripemd256_digest(input),
            Algorithm::Ripemd320 => ripemd320_digest(input),
            Algorithm::Sha1 => sha1_digest(input),
            Algorithm::Sha3_256 => sha3_256_digest(input),
            Algorithm::Sha3_512 => sha3_512_digest(input),
            Algorithm::Blake2b512 => blake2b512_digest(input),
            Algorithm::Blake2s256 => blake2s256_digest(input),
            Algorithm::Gost94 => gost94_digest(input),
            Algorithm::Groestl224 => groestl224_digest(input),
            Algorithm::Groestl256 => groestl256_digest(input),
            Algorithm::Jh224 => jh224_digest(input),
            Algorithm::Jh256 => jh256_digest(input),
            Algorithm::Jh384 => jh384_digest(input),
            Algorithm::Jh512 => jh512_digest(input),
            Algorithm::Shabal256 => shabal256_digest(input),
            Algorithm::Sm3 => sm3_digest(input),
            Algorithm::Streebog256 => streebog256_digest(input),
            Algorithm::Streebog512 => streebog512_digest(input),
            Algorithm::Tiger => tiger_digest(input),
            Algorithm::Whirlpool => whirlpool_digest(input),
        }
    }
}

/// Every algorithm, in the order in which they are listed to users.
pub fn algorithms() -> (r: Vec<Algorithm>)
    ensures
        r@ == seq![
            Algorithm::Ascon,
            Algorithm::Belt,
            Algorithm::Fsb160,
            Algorithm::Fsb224,
            Algorithm::Fsb256,
            Algorithm::Sha256,
            Algorithm::Sha512,
            Algorithm::Md2,
            Algorithm::Md4,
            Algorithm::Md5,
            Algorithm::Ripemd160,
            Algorithm::Ripemd256,
            Algorithm::Ripemd320,
            Algorithm::Sha1,
            Algorithm::Sha3_256,
            Algorithm::Sha3_512,
            Algorithm::Blake2b512,
            Algorithm::Blake2s256,
            Algorithm::Gost94,
            Algorithm::Groestl224,
            Algorithm::Groestl256,
            Algorithm::Jh224,
            Algorithm::Jh256,
            Algorithm::Jh384,
            Algorithm::Jh512,
            Algorithm::Shabal256,
            Algorithm::Sm3,
            Algorithm::Streebog256,
            Algorithm::Streebog512,
            Algorithm::Tiger,
            Algorithm::Whirlpool,
        ],
{
    let mut r: Vec<Algorithm> = Vec::new();
    r.push(Algorithm::Ascon);
    r.push(Algorithm::Belt);
    r.push(Algorithm::Fsb160);
    r.push(Algorithm::Fsb224);
    r.push(Algorithm::Fsb256);
    r.push(Algorithm::Sha256);
    r.push(Algorithm::Sha512);
    r.push(Algorithm::Md2);
    r.push(Algorithm::Md4);
    r.push(Algorithm::Md5);
    r.push(Algorithm::Ripemd160);
    r.push(Algorithm::Ripemd256);
    r.push(Algorithm::Ripemd320);
    r.push(Algorithm::Sha1);
    r.push(Algorithm::Sha3_256);
    r.push(Algorithm::Sha3_512);
    r.push(Algorithm::Blake2b512);
    r.push(Algorithm::Blake2s256);
    r.push(Algorithm::Gost94);
    r.push(Algorithm::Groestl224);
    r.push(Algorithm::Groestl256);
    r.push(Algorithm::Jh224);
    r.push(Algorithm::Jh256);
    r.push(Algorithm::Jh384);
    r.push(Algorithm::Jh512);
    r.push(Algorithm::Shabal256);
    r.push(Algorithm::Sm3);
    r.push(Algorithm::Streebog256);
    r.push(Algorithm::Streebog512);
    r.push(Algorithm::Tiger);
    r.push(Algorithm::Whirlpool);
    assert(r@ =~= seq![
        Algorithm::Ascon,
        Algorithm::Belt,
        Algorithm::Fsb160,
        Algorithm::Fsb224,
        Algorithm::Fsb256,
        Algorithm::Sha256,
        Algorithm::Sha512,
        Algorithm::Md2,
        Algorithm::Md4,
        Algorithm::Md5,
        Algorithm::Ripemd160,
        Algorithm::Ripemd256,
        Algorithm::Ripemd320,
        Algorithm::Sha1,
        Algorithm::Sha3_256,
        Algorithm::Sha3_512,
        Algorithm::Blake2b512,
        Algorithm::Blake2s256,
        Algorithm::Gost94,
        Algorithm::Groestl224,
        Algorithm::Groestl256,
        Algorithm::Jh224,
        Algorithm::Jh256,
        Algorithm::Jh384,
        Algorithm::Jh512,
        Algorithm::Shabal256,
        Algorithm::Sm3,
        Algorithm::Streebog256,
        Algorithm::Streebog512,
        Algorithm::Tiger,
        Algorithm::Whirlpool,
    ]);
    r
}

/// `a` and `b` hold the same text.
fn same_text(a: &str, b: &str) -> (r: bool)
    ensures
        r == (a@ == b@),
{
    let x = a.to_owned();
    let y = b.to_owned();
    x == y
}

/// The algorithm whose name is `algorithm`, if there is one.
pub fn get_algorithm(algorithm: &str) -> (r: Option<Algorithm>)
    ensures
        match r {
            Some(a) => a.spec_name() == algorithm@,
            None => forall|a: Algorithm| #[trigger] a.spec_name() != algorithm@,
        },
{
    if same_text(algorithm, "ascon") {
        return Some(Algorithm::Ascon);
    }
    if same_text(algorithm, "belt") {
        return Some(Algorithm::Belt);
    }
    if same_text(algorithm, "fsb160") {
        return Some(Algorithm::Fsb160);
    }
    if same_text(algorithm, "fsb224") {
        return Some(Algorithm::Fsb224);
    }
    if same_text(algorithm, "fsb256") {
        return Some(Algorithm::Fsb256);
    }
    if same_text(algorithm, "sha256") {
        return Some(Algorithm::Sha256);
    }
    if same_text(algorithm, "sha512") {
        return Some(Algorithm::Sha512);
    }
    if same_text(algorithm, "md2") {
        return Some(Algorithm::Md2);
    }
    if same_text(algorithm, "md4") {
        return Some(Algorithm::Md4);
    }
    if same_text(algorithm, "md5") {
        return Some(Algorithm::Md5);
    }
    if same_text(algorithm, "ripemd160") {
        return Some(Algorithm::Ripemd160);
    }
    if same_text(algorithm, "ripemd256") {
        return Some(Algorithm::Ripemd256);
    }
    if same_text(algorithm, "ripemd320") {
        return Some(Algorithm::Ripemd320);
    }
    if same_text(algorithm, "sha1") {
        return Some(Algorithm::Sha1);
    }
    if same_text(algorithm, "sha3_256") {
        return Some(Algorithm::Sha3_256);
    }
    if same_text(algorithm, "sha3_512") {
        return Some(Algorithm::Sha3_512);
    }
    if same_text(algorithm, "blake2b512") {
        return Some(Algorithm::Blake2b512);
    }
    if same_text(algorithm, "blake2s256") {
        return Some(Algorithm::Blake2s256);
    }
    if same_text(algorithm, "gost94") {
        return Some(Algorithm::Gost94);
    }
    if same_text(algorithm, "groestl224") {
        return Some(Algorithm::Groestl224);
    }
    if same_text(algorithm, "groestl256") {
        return Some(Algorithm::Groestl256);
    }
    if same_text(algorithm, "jh224") {
        return Some(Algorithm::Jh224);
    }
    if same_text(algorithm, "jh256") {
        return Some(Algorithm::Jh256);
    }
    if same_text(algorithm, "jh384") {
        return Some(Algorithm::Jh384);
    }
    if same_text(algorithm, "jh512") {
        return Some(Algorithm::Jh512);
    }
    if same_text(algorithm, "shabal256") {
        return Some(Algorithm::Shabal256);
    }
    if same_text(algorithm, "sm3") {
        return Some(Algorithm::Sm3);
    }
    if same_text(algorithm, "streebog256") {
        return Some(Algorithm::Streebog256);
    }
    if same_text(algorithm, "streebog512") {
        return Some(Algorithm::Streebog512);
    }
    if same_text(algorithm, "tiger") {
        return Some(Algorithm::Tiger);
    }
    if same_text(algorithm, "whirlpool") {
        return Some(Algorithm::Whirlpool);
    }
    None
}

} // verus!
