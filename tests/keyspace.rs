use ripsaw::keyspace::{CharacterSet, Generator};
use std::collections::HashSet;

fn lower_generator(length: usize, id: usize, count: usize) -> Generator {
    Generator::new(&CharacterSet::default(), true, false, false, false, length, id, count)
}

fn drain(mut g: Generator) -> Vec<Vec<u8>> {
    let mut out = Vec::new();
    while let Some(c) = g.next() {
        out.push(c);
    }
    out
}

#[test]
fn single_worker_enumerates_in_odometer_order() {
    let all = drain(lower_generator(2, 0, 1));
    assert_eq!(all.len(), 676);
    assert_eq!(all[0], b"aa".to_vec());
    assert_eq!(all[1], b"ab".to_vec());
    assert_eq!(all[26], b"ba".to_vec());
    assert_eq!(all[675], b"zz".to_vec());
}

#[test]
fn two_workers_partition_lowercase_pairs() {
    let w0 = drain(lower_generator(2, 0, 2));
    let w1 = drain(lower_generator(2, 1, 2));
    assert_eq!(w0.len(), 338);
    assert_eq!(w1.len(), 338);
    assert_eq!(w0[0], b"aa".to_vec());
    assert_eq!(w1[0], b"ab".to_vec());
    assert_eq!(w1[337], b"zz".to_vec());
    let mut seen = HashSet::new();
    for c in w0.iter().chain(w1.iter()) {
        assert!(seen.insert(c.clone()));
    }
    assert_eq!(seen.len(), 676);
}

#[test]
fn uneven_worker_count_covers_space_once() {
    let mut seen = HashSet::new();
    let mut total = 0;
    for id in 0..7 {
        for c in drain(lower_generator(2, id, 7)) {
            assert!(seen.insert(c));
            total += 1;
        }
    }
    assert_eq!(total, 676);
}

#[test]
fn worker_beyond_space_emits_nothing() {
    let g = Generator::new(&CharacterSet::default(), false, false, true, false, 1, 12, 20);
    assert!(drain(g).is_empty());
    let g = Generator::new(&CharacterSet::default(), false, false, true, false, 1, 9, 20);
    assert_eq!(drain(g), vec![b"9".to_vec()]);
}

#[test]
fn length_zero_has_one_empty_candidate() {
    assert_eq!(drain(lower_generator(0, 0, 3)), vec![Vec::<u8>::new()]);
    assert!(drain(lower_generator(0, 1, 3)).is_empty());
}

#[test]
fn no_class_enabled_yields_nothing() {
    let g = Generator::new(&CharacterSet::default(), false, false, false, false, 3, 0, 1);
    assert!(drain(g).is_empty());
}

#[test]
fn classes_concatenate_in_fixed_order() {
    let g = Generator::new(&CharacterSet::default(), true, true, true, true, 1, 0, 1);
    let all: Vec<u8> = drain(g).into_iter().map(|c| c[0]).collect();
    let mut expected = Vec::new();
    expected.extend_from_slice(b"abcdefghijklmnopqrstuvwxyz");
    expected.extend_from_slice(b"ABCDEFGHIJKLMNOPQRSTUVWXYZ");
    expected.extend_from_slice(b"0123456789");
    expected.extend_from_slice(b"!@#$%^&*()_+-=[]{}|;:,.<>?");
    assert_eq!(all, expected);
}

#[test]
fn repeated_symbols_are_kept_once() {
    let cs = CharacterSet { lowercase: "abca", uppercase: "", numbers: "b1", symbols: "" };
    let g = Generator::new(&cs, true, false, true, false, 1, 0, 1);
    assert_eq!(drain(g), vec![b"a".to_vec(), b"b".to_vec(), b"c".to_vec(), b"1".to_vec()]);
}

#[test]
fn advance_indices_counts_and_wraps() {
    let charset = b"abc".to_vec();
    let mut idx = vec![0usize, 2];
    Generator::advance_indices(&mut idx, &charset);
    assert_eq!(idx, vec![1, 0]);
    let mut idx = vec![2usize, 2];
    Generator::advance_indices(&mut idx, &charset);
    assert_eq!(idx, vec![0, 0]);
}

#[test]
fn current_password_is_starting_offset() {
    let g = lower_generator(3, 5, 8);
    assert_eq!(g.current_password(), b"aaf".to_vec());
}

#[test]
fn default_character_set_classes() {
    let cs = CharacterSet::default();
    assert_eq!(cs.lowercase.len(), 26);
    assert_eq!(cs.uppercase, "ABCDEFGHIJKLMNOPQRSTUVWXYZ");
    assert_eq!(cs.numbers, "0123456789");
    assert_eq!(cs.symbols, "!@#$%^&*()_+-=[]{}|;:,.<>?");
}
