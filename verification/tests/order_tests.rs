use alkahest_renderer::order::{select_in_order, stable_order_by_key};

#[test]
fn stable_order_of_nothing() {
    assert_eq!(stable_order_by_key(&vec![]), Vec::<usize>::new());
}

#[test]
fn stable_order_sorts_by_key() {
    assert_eq!(stable_order_by_key(&vec![30, 10, 20]), vec![1, 2, 0]);
    assert_eq!(stable_order_by_key(&vec![1, 2, 3]), vec![0, 1, 2]);
    assert_eq!(stable_order_by_key(&vec![3, 2, 1]), vec![2, 1, 0]);
}

#[test]
fn stable_order_keeps_equal_keys_in_place() {
    assert_eq!(stable_order_by_key(&vec![5, 1, 5, 1, 5]), vec![1, 3, 0, 2, 4]);
    assert_eq!(stable_order_by_key(&vec![7, 7, 7]), vec![0, 1, 2]);
    assert_eq!(stable_order_by_key(&vec![u64::MAX, 0, u64::MAX]), vec![1, 0, 2]);
}

#[test]
fn stable_order_agrees_with_the_stable_sort_of_std() {
    let keys: Vec<u64> = (0..200u64).map(|i| (i * 7919 + 13) % 17).collect();
    let mut expected: Vec<usize> = (0..keys.len()).collect();
    expected.sort_by_key(|&i| keys[i]);
    assert_eq!(stable_order_by_key(&keys), expected);
}

#[test]
fn select_in_order_takes_the_marked_only() {
    let items = vec![(true, 9), (false, 0), (true, 3), (true, 9), (false, 1)];
    assert_eq!(select_in_order(&items), vec![2, 0, 3]);
}

#[test]
fn select_in_order_with_nothing_marked() {
    assert_eq!(select_in_order(&vec![(false, 1), (false, 2)]), Vec::<usize>::new());
    assert_eq!(select_in_order(&vec![]), Vec::<usize>::new());
}
