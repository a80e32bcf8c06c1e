use ripsaw::outcome::SharedOutcome;

#[test]
fn first_signal_wins_and_later_ones_are_dropped() {
    let mut o = SharedOutcome::new();
    assert!(!o.is_found());
    assert!(o.signal_found(b"first".to_vec()));
    assert!(o.is_found());
    assert!(!o.signal_found(b"second".to_vec()));
    assert!(!o.signal_found(b"third".to_vec()));
    assert!(o.is_found());
    assert_eq!(o.take_result(), Some(b"first".to_vec()));
}

#[test]
fn nothing_signalled_means_no_result() {
    let mut o = SharedOutcome::new();
    assert_eq!(o.take_result(), None);
    assert!(!o.is_found());
}

#[test]
fn any_order_of_workers_leaves_one_winner() {
    let orders: [[u8; 4]; 3] = [[0, 1, 2, 3], [3, 2, 1, 0], [2, 0, 3, 1]];
    for order in orders {
        let mut o = SharedOutcome::new();
        let mut winners = 0;
        for w in order {
            if o.signal_found(vec![w]) {
                winners += 1;
            }
            assert!(o.is_found());
        }
        assert_eq!(winners, 1);
        assert_eq!(o.take_result(), Some(vec![order[0]]));
    }
}
