use ripsaw::partition::{count_lines_in_partition, plan, read_shard, Shard};

fn ten_lines() -> Vec<u8> {
    let mut data = Vec::new();
    for i in 0..10 {
        data.extend_from_slice(format!("word{}\n", i).as_bytes());
    }
    data
}

#[test]
fn plan_splits_evenly_with_remainder_in_last_shard() {
    let shards = plan(10, 3);
    assert_eq!(
        shards,
        vec![
            Shard { start: 0, end: 3 },
            Shard { start: 3, end: 6 },
            Shard { start: 6, end: 10 },
        ]
    );
}

#[test]
fn plan_with_more_workers_than_bytes() {
    let shards = plan(2, 4);
    assert_eq!(shards.len(), 4);
    assert_eq!(shards[0], Shard { start: 0, end: 0 });
    assert_eq!(shards[3], Shard { start: 0, end: 2 });
}

#[test]
fn plan_of_empty_file() {
    let shards = plan(0, 3);
    assert!(shards.iter().all(|s| s.start == 0 && s.end == 0));
}

#[test]
fn plan_shards_are_contiguous() {
    for f in [0usize, 1, 7, 100, 1001] {
        for n in 1..9 {
            let shards = plan(f, n);
            assert_eq!(shards.len(), n);
            assert_eq!(shards[0].start, 0);
            assert_eq!(shards[n - 1].end, f);
            for i in 0..n - 1 {
                assert_eq!(shards[i].end, shards[i + 1].start);
            }
        }
    }
}

#[test]
fn ten_line_file_in_three_shards_reads_each_line_once() {
    let data = ten_lines();
    let shards = plan(data.len(), 3);
    let mut total = 0;
    let mut all: Vec<Vec<u8>> = Vec::new();
    for s in &shards {
        let count = count_lines_in_partition(&data, s.start, s.end);
        let lines = read_shard(&data, s.start, s.end);
        assert_eq!(count, lines.len());
        total += count;
        all.extend(lines);
    }
    assert_eq!(total, 10);
    let expected: Vec<Vec<u8>> = (0..10).map(|i| format!("word{}", i).into_bytes()).collect();
    assert_eq!(all, expected);
}

#[test]
fn shard_starting_mid_line_leaves_it_to_previous_shard() {
    let data = b"alpha\nbeta\ngamma\n".to_vec();
    assert_eq!(read_shard(&data, 0, 3), vec![b"alpha".to_vec()]);
    assert_eq!(read_shard(&data, 3, 8), vec![b"beta".to_vec()]);
    assert_eq!(read_shard(&data, 8, 17), vec![b"gamma".to_vec()]);
    assert_eq!(count_lines_in_partition(&data, 3, 6), 0);
    assert_eq!(count_lines_in_partition(&data, 3, 7), 1);
}

#[test]
fn crlf_terminators_are_trimmed_and_last_line_needs_none() {
    let data = b"one\r\ntwo\nthree".to_vec();
    assert_eq!(
        read_shard(&data, 0, data.len()),
        vec![b"one".to_vec(), b"two".to_vec(), b"three".to_vec()]
    );
}

#[test]
fn empty_lines_count_as_candidates() {
    let data = b"\n\nx\n".to_vec();
    assert_eq!(count_lines_in_partition(&data, 0, data.len()), 3);
    assert_eq!(read_shard(&data, 0, data.len()), vec![vec![], vec![], b"x".to_vec()]);
}

#[test]
fn range_past_end_reads_nothing() {
    let data = b"abc\n".to_vec();
    assert_eq!(count_lines_in_partition(&data, 10, 20), 0);
    assert!(read_shard(&data, 10, 20).is_empty());
    assert!(read_shard(&data, 3, 2).is_empty());
}

#[test]
fn plan_of_largest_size_does_not_overflow() {
    let shards = plan(usize::MAX, 3);
    assert_eq!(shards[0].start, 0);
    assert_eq!(shards[1].start, usize::MAX / 3);
    assert_eq!(shards[2].start, 2 * (usize::MAX / 3));
    assert_eq!(shards[2].end, usize::MAX);
    let one = plan(usize::MAX, 1);
    assert_eq!(one, vec![Shard { start: 0, end: usize::MAX }]);
}
