use dbproject::merge::sum_by_key;

fn sorted(mut v: Vec<(i64, u64)>) -> Vec<(i64, u64)> {
    v.sort();
    v
}

#[test]
fn totals_per_user_across_shards() {
    let rows = vec![(1, 3), (2, 5), (1, 4), (3, 0), (2, 1)];
    assert_eq!(sorted(sum_by_key(&rows)), vec![(1, 7), (2, 6), (3, 0)]);
}

#[test]
fn no_rows_no_totals() {
    assert!(sum_by_key(&vec![]).is_empty());
}

#[test]
fn negative_ids_and_large_counts() {
    let rows = vec![(-5, u64::MAX - 1), (-5, 1), (i64::MIN, 2)];
    assert_eq!(sorted(sum_by_key(&rows)), vec![(i64::MIN, 2), (-5, u64::MAX)]);
}
