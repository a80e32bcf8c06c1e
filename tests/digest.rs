use ripsaw::digest::{algorithms, get_algorithm, Algorithm};
use ripsaw::fingerprint::{fingerprint, normalize_fingerprint, to_hex, Verifier};

fn hex(alg: Algorithm, input: &str) -> String {
    String::from_utf8(fingerprint(alg, input.as_bytes())).unwrap()
}

#[test]
fn known_digests_of_abc() {
    assert_eq!(
        hex(Algorithm::Sha256, "abc"),
        "ba7816bf8f01cfea414140de5dae2223b00361a396177a9cb410ff61f20015ad"
    );
    assert_eq!(hex(Algorithm::Md5, "abc"), "900150983cd24fb0d6963f7d28e17f72");
    assert_eq!(hex(Algorithm::Sha1, "abc"), "a9993e364706816aba3e25717850c26c9cd0d89d");
    assert_eq!(hex(Algorithm::Md4, "abc"), "a448017aaf21d8525fc10ae87aa6729d");
    assert_eq!(hex(Algorithm::Ripemd160, "abc"), "8eb208f7e05d987a9b044a8e98c6b087f15a0bfc");
    assert_eq!(
        hex(Algorithm::Sha3_256, "abc"),
        "3a985da74fe225b2045c172d6bd390bd855f086e3e9d525b46bfe24511431532"
    );
    assert_eq!(
        hex(Algorithm::Sha512, "abc"),
        "ddaf35a193617abacc417349ae20413112e6fa4e89a97ea20a9eeee64b55d39a\
         2192992a274fc1a836ba3c23a3feebbd454d4423643ce80e2a9ac94fa54ca49f"
    );
}

#[test]
fn every_algorithm_digests_to_its_size() {
    let sizes: [(Algorithm, usize); 31] = [
        (Algorithm::Ascon, 32),
        (Algorithm::Belt, 32),
        (Algorithm::Fsb160, 20),
        (Algorithm::Fsb224, 28),
        (Algorithm::Fsb256, 32),
        (Algorithm::Sha256, 32),
        (Algorithm::Sha512, 64),
        (Algorithm::Md2, 16),
        (Algorithm::Md4, 16),
        (Algorithm::Md5, 16),
        (Algorithm::Ripemd160, 20),
        (Algorithm::Ripemd256, 32),
        (Algorithm::Ripemd320, 40),
        (Algorithm::Sha1, 20),
        (Algorithm::Sha3_256, 32),
        (Algorithm::Sha3_512, 64),
        (Algorithm::Blake2b512, 64),
        (Algorithm::Blake2s256, 32),
        (Algorithm::Gost94, 32),
        (Algorithm::Groestl224, 28),
        (Algorithm::Groestl256, 32),
        (Algorithm::Jh224, 28),
        (Algorithm::Jh256, 32),
        (Algorithm::Jh384, 48),
        (Algorithm::Jh512, 64),
        (Algorithm::Shabal256, 32),
        (Algorithm::Sm3, 32),
        (Algorithm::Streebog256, 32),
        (Algorithm::Streebog512, 64),
        (Algorithm::Tiger, 24),
        (Algorithm::Whirlpool, 64),
    ];
    for (alg, size) in sizes {
        let a = alg.digest(b"abc");
        let b = alg.digest(b"abd");
        assert_eq!(a.len(), size, "{}", alg.name());
        assert_ne!(a, b"abc".to_vec(), "{}", alg.name());
        assert_ne!(a, b, "{}", alg.name());
        assert_eq!(a, alg.digest(b"abc"), "{}", alg.name());
        assert_eq!(fingerprint(alg, b"abc").len(), 2 * size);
    }
}

#[test]
fn get_algorithm_finds_every_listed_name() {
    let all = algorithms();
    assert_eq!(all.len(), 31);
    for alg in all {
        assert_eq!(get_algorithm(alg.name()), Some(alg));
    }
    assert_eq!(get_algorithm("sha256"), Some(Algorithm::Sha256));
    assert_eq!(get_algorithm("sha3_512"), Some(Algorithm::Sha3_512));
}

#[test]
fn get_algorithm_rejects_unknown_names() {
    assert_eq!(get_algorithm("SHA256"), None);
    assert_eq!(get_algorithm(""), None);
    assert_eq!(get_algorithm("sha384"), None);
    assert_eq!(get_algorithm("k12"), None);
}

#[test]
fn to_hex_is_lowercase_two_digits_per_byte() {
    assert_eq!(to_hex(&[0x00, 0x0f, 0xa0, 0xff]), b"000fa0ff".to_vec());
    assert!(to_hex(&[]).is_empty());
}

#[test]
fn normalize_trims_and_lowers() {
    assert_eq!(normalize_fingerprint(b"  AbC123\r\n"), b"abc123".to_vec());
    assert_eq!(normalize_fingerprint(b"\n\t "), Vec::<u8>::new());
    assert_eq!(normalize_fingerprint(b"a b"), b"a b".to_vec());
}

#[test]
fn verify_prefixes_salt_never_suffixes() {
    let salted = fingerprint(Algorithm::Sha256, b"pepperabc");
    let suffixed = fingerprint(Algorithm::Sha256, b"abcpepper");
    let plain = fingerprint(Algorithm::Sha256, b"abc");
    let v = Verifier::new(Algorithm::Sha256, b"pepper".to_vec(), &salted);
    assert!(v.verify(b"abc"));
    let v = Verifier::new(Algorithm::Sha256, b"pepper".to_vec(), &suffixed);
    assert!(!v.verify(b"abc"));
    let v = Verifier::new(Algorithm::Sha256, b"pepper".to_vec(), &plain);
    assert!(!v.verify(b"abc"));
    let v = Verifier::new(Algorithm::Sha256, Vec::new(), &plain);
    assert!(v.verify(b"abc"));
}

#[test]
fn verify_accepts_uppercase_target() {
    let target = b"BA7816BF8F01CFEA414140DE5DAE2223B00361A396177A9CB410FF61F20015AD\n";
    let v = Verifier::new(Algorithm::Sha256, Vec::new(), target);
    assert!(v.verify(b"abc"));
    assert!(!v.verify(b"abd"));
}
