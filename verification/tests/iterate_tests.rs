use rust_features::iterate::max_of;

#[test]
fn test_max_of_sample() {
    let numbers = vec![5, 4, 9, 3, 2, 1, 6, 7, 8];
    assert_eq!(max_of(&numbers), Some(9));
}

#[test]
fn test_max_of_empty() {
    let numbers: Vec<i32> = vec![];
    assert_eq!(max_of(&numbers), None);
}

#[test]
fn test_max_of_negatives() {
    let numbers = vec![-5, -3, -7];
    assert_eq!(max_of(&numbers), Some(-3));
}

#[test]
fn test_max_of_single() {
    assert_eq!(max_of(&vec![42]), Some(42));
}

#[test]
fn test_max_of_duplicates() {
    assert_eq!(max_of(&vec![2, 9, 9, 1]), Some(9));
}
