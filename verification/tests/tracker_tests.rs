use multifiledownloader::tracker::AggregateState;

#[test]
fn a_new_tracker_counts_nothing() {
    let t = AggregateState::new();
    assert_eq!(t.total(), 0);
    assert_eq!(t.counted_size("http://x/a.bin"), None);
    assert!(t.contributes("http://x/a.bin"));
}

#[test]
fn count_once_adds_the_size_of_a_new_url() {
    let mut t = AggregateState::new();
    assert!(t.count_once("http://x/a.bin", 500));
    assert_eq!(t.total(), 500);
    assert_eq!(t.counted_size("http://x/a.bin"), Some(500));
    assert!(!t.contributes("http://x/a.bin"));
}

#[test]
fn the_same_url_twice_counts_once() {
    let mut t = AggregateState::new();
    assert!(t.count_once("http://x/a.bin", 500));
    assert!(!t.count_once("http://x/a.bin", 500));
    assert_eq!(t.total(), 500);
}

#[test]
fn a_second_report_with_another_size_changes_nothing() {
    let mut t = AggregateState::new();
    t.count_once("http://x/a.bin", 500);
    assert!(!t.count_once("http://x/a.bin", 900));
    assert_eq!(t.total(), 500);
    assert_eq!(t.counted_size("http://x/a.bin"), Some(500));
}

#[test]
fn distinct_urls_add_up() {
    let mut t = AggregateState::new();
    t.count_once("http://x/a.bin", 500);
    t.count_once("http://x/b.bin", 300);
    t.count_once("http://y/a.bin", 7);
    assert_eq!(t.total(), 807);
}

#[test]
fn the_total_is_the_sum_over_distinct_urls_in_any_order() {
    let sizes = [("u1", 10u64), ("u2", 20), ("u3", 0), ("u4", 40)];
    let orders: [&[usize]; 3] = [
        &[0, 1, 2, 3, 0, 1, 2, 3],
        &[3, 3, 3, 2, 1, 0, 0],
        &[1, 0, 1, 0, 2, 3, 2, 3, 1],
    ];
    for order in orders {
        let mut t = AggregateState::new();
        for &i in order {
            t.count_once(sizes[i].0, sizes[i].1);
        }
        assert_eq!(t.total(), 70);
    }
}

#[test]
fn an_unknown_size_is_replaced_once_by_a_known_one() {
    let mut t = AggregateState::new();
    assert!(t.count_once("http://x/a.bin", 0));
    assert_eq!(t.total(), 0);
    assert_eq!(t.counted_size("http://x/a.bin"), Some(0));
    assert!(t.contributes("http://x/a.bin"));
    assert!(t.count_once("http://x/a.bin", 700));
    assert_eq!(t.total(), 700);
    assert!(!t.count_once("http://x/a.bin", 700));
    assert_eq!(t.total(), 700);
}

#[test]
fn the_total_grows_beyond_sixty_four_bits() {
    let mut t = AggregateState::new();
    assert!(t.count_once("a", u64::MAX - 10));
    assert!(t.count_once("b", 11));
    assert_eq!(t.total(), u64::MAX as u128 + 1);
    assert!(t.count_once("c", u64::MAX));
    assert_eq!(t.total(), 2 * (u64::MAX as u128) + 1);
    assert!(!t.count_once("c", u64::MAX));
    assert_eq!(t.total(), 2 * (u64::MAX as u128) + 1);
}

#[test]
fn the_same_report_many_times_counts_once() {
    for size in [0u64, 1, 500, u64::MAX] {
        let mut t = AggregateState::new();
        t.count_once("other", 3);
        for _ in 0..50 {
            t.count_once("http://x/a.bin", size);
        }
        assert_eq!(t.total(), 3 + size as u128);
        assert_eq!(t.counted_size("http://x/a.bin"), Some(size));
    }
}
