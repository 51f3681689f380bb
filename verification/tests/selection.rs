use capture::nearest;

#[test]
fn no_body_selects_nothing() {
    let keys: Vec<u32> = Vec::new();
    assert_eq!(nearest(&keys), None);
}

#[test]
fn single_body_is_selected() {
    assert_eq!(nearest(&vec![7]), Some(0));
    assert_eq!(nearest(&vec![0]), Some(0));
    assert_eq!(nearest(&vec![u32::MAX]), Some(0));
}

#[test]
fn strict_minimum_is_selected_wherever_it_stands() {
    assert_eq!(nearest(&vec![1, 9, 25]), Some(0));
    assert_eq!(nearest(&vec![9, 1, 25]), Some(1));
    assert_eq!(nearest(&vec![25, 9, 1]), Some(2));
    assert_eq!(nearest(&vec![40, 30, 20, 10, 50, 60]), Some(3));
}

#[test]
fn tie_goes_to_first_enumerated() {
    assert_eq!(nearest(&vec![4, 4]), Some(0));
    assert_eq!(nearest(&vec![9, 4, 7, 4, 4]), Some(1));
    assert_eq!(nearest(&vec![u32::MAX, u32::MAX, u32::MAX]), Some(0));
    assert_eq!(nearest(&vec![3, 2, 1, 1, 2, 3]), Some(2));
}

#[test]
fn selection_is_stable_for_a_fixed_order() {
    let keys: Vec<u32> = vec![12, 5, 5, 80, 5];
    let first = nearest(&keys);
    for _ in 0..10 {
        assert_eq!(nearest(&keys), first);
    }
    assert_eq!(first, Some(1));
}

#[test]
fn extreme_keys_are_ordered() {
    assert_eq!(nearest(&vec![u32::MAX, 0]), Some(1));
    assert_eq!(nearest(&vec![u32::MAX, u32::MAX - 1]), Some(1));
    assert_eq!(nearest(&vec![1, 0, u32::MAX]), Some(1));
}

#[test]
fn selected_key_is_least_of_all() {
    let keys: Vec<u32> = vec![731, 42, 9000, 17, 17, 256, 18, 1024];
    let i = nearest(&keys).unwrap();
    assert_eq!(i, 3);
    for (j, k) in keys.iter().enumerate() {
        assert!(keys[i] <= *k);
        if j < i {
            assert!(keys[i] < *k);
        }
    }
}

#[test]
fn order_preserving_keys_select_the_same_body() {
    let squared: Vec<f32> = vec![30.25, 2.5, 2.25, 100.0, 2.25];
    let by_bits: Vec<u32> = squared.iter().map(|d| d.to_bits()).collect();
    let by_hundredths: Vec<u32> = squared.iter().map(|d| (d * 100.0) as u32).collect();
    assert_eq!(by_hundredths, vec![3025, 250, 225, 10000, 225]);
    assert_eq!(nearest(&by_bits), Some(2));
    assert_eq!(nearest(&by_hundredths), Some(2));
}
