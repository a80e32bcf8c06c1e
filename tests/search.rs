use ripsaw::digest::Algorithm;
use ripsaw::fingerprint::{fingerprint, Verifier};
use ripsaw::keyspace::{CharacterSet, Generator};
use ripsaw::search::{
    crack_generator, crack_shard, crack_small_wordlist, crack_vector, KeyspaceOutcome,
    SearchOutcome,
};

fn sha256_verifier(secret: &[u8]) -> Verifier {
    Verifier::new(Algorithm::Sha256, Vec::new(), &fingerprint(Algorithm::Sha256, secret))
}

#[test]
fn wordlist_single_worker_recovers_abc() {
    let v = sha256_verifier(b"abc");
    let lines = vec![b"xyz".to_vec(), b"abc".to_vec(), b"qrs".to_vec()];
    assert_eq!(crack_vector(&lines, &v, || false), SearchOutcome::Found(1));
    assert_eq!(
        crack_small_wordlist(b"xyz\nabc\nqrs\n", &v),
        Some(b"abc".to_vec())
    );
}

#[test]
fn wordlist_without_match_is_exhausted() {
    let v = sha256_verifier(b"nope");
    let lines = vec![b"xyz".to_vec(), b"abc".to_vec()];
    assert_eq!(crack_vector(&lines, &v, || false), SearchOutcome::Exhausted);
    assert_eq!(crack_small_wordlist(b"xyz\nabc", &v), None);
    assert_eq!(crack_vector(&Vec::new(), &v, || true), SearchOutcome::Exhausted);
}

#[test]
fn worker_stops_when_another_has_won() {
    let v = sha256_verifier(b"abc");
    let lines = vec![b"xyz".to_vec(), b"abc".to_vec()];
    assert_eq!(crack_vector(&lines, &v, || true), SearchOutcome::Stopped(0));
    let polls = std::cell::Cell::new(0);
    let stop = || {
        polls.set(polls.get() + 1);
        polls.get() > 1
    };
    assert_eq!(crack_vector(&lines, &v, stop), SearchOutcome::Stopped(1));
}

#[test]
fn salted_wordlist_match() {
    let target = fingerprint(Algorithm::Md5, b"NaClabc");
    let v = Verifier::new(Algorithm::Md5, b"NaCl".to_vec(), &target);
    assert_eq!(crack_small_wordlist(b"xyz\r\nabc\r\n", &v), Some(b"abc".to_vec()));
}

#[test]
fn shards_together_find_the_match_once() {
    let v = sha256_verifier(b"word7");
    let mut data = Vec::new();
    for i in 0..10 {
        data.extend_from_slice(format!("word{}\n", i).as_bytes());
    }
    let shards = ripsaw::partition::plan(data.len(), 3);
    let mut found = Vec::new();
    for s in shards {
        let (lines, outcome) = crack_shard(&data, s.start, s.end, &v, || false);
        if let SearchOutcome::Found(i) = outcome {
            found.push(lines[i].clone());
        }
    }
    assert_eq!(found, vec![b"word7".to_vec()]);
}

#[test]
fn keyspace_two_workers_recover_zz() {
    let v = sha256_verifier(b"zz");
    let mut results = Vec::new();
    for id in 0..2 {
        let mut g =
            Generator::new(&CharacterSet::default(), true, false, false, false, 2, id, 2);
        results.push(crack_generator(&mut g, &v, || false));
    }
    assert_eq!(results[0], KeyspaceOutcome::Exhausted);
    assert_eq!(results[1], KeyspaceOutcome::Found(b"zz".to_vec()));
}

#[test]
fn keyspace_worker_stops_on_signal() {
    let v = sha256_verifier(b"zz");
    let mut g = Generator::new(&CharacterSet::default(), true, false, false, false, 2, 0, 1);
    assert_eq!(crack_generator(&mut g, &v, || true), KeyspaceOutcome::Stopped);
    assert_eq!(g.current_password(), b"aa".to_vec());
}
