use rusterizer::util::vec_remove_multiple;

#[test]
fn remove_multiple_sorts_and_filters() {
    let mut v: Vec<u32> = vec![10, 11, 12, 13, 14, 15];
    let mut idx: Vec<usize> = vec![4, 0, 2];
    vec_remove_multiple(&mut v, &mut idx);
    assert_eq!(idx, vec![0, 2, 4]);
    assert_eq!(v, vec![11, 13, 15]);
}

#[test]
fn remove_multiple_nothing() {
    let mut v: Vec<u32> = vec![7, 8, 9];
    let mut idx: Vec<usize> = Vec::new();
    vec_remove_multiple(&mut v, &mut idx);
    assert_eq!(idx, Vec::<usize>::new());
    assert_eq!(v, vec![7, 8, 9]);
}

#[test]
fn remove_multiple_everything() {
    let mut v: Vec<&str> = vec!["a", "b"];
    let mut idx: Vec<usize> = vec![1, 0];
    vec_remove_multiple(&mut v, &mut idx);
    assert_eq!(idx, vec![0, 1]);
    assert_eq!(v, Vec::<&str>::new());
}

#[test]
fn remove_multiple_keeps_survivor_order() {
    let mut v: Vec<u32> = (0..10).collect();
    let mut idx: Vec<usize> = vec![9, 3, 7, 1];
    vec_remove_multiple(&mut v, &mut idx);
    assert_eq!(idx, vec![1, 3, 7, 9]);
    assert_eq!(v, vec![0, 2, 4, 5, 6, 8]);
}
