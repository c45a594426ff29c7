use basics::borrowing;
use basics::moving;

#[test]
fn move_semantics1() {
    let vec0 = vec![22, 44, 66];
    let vec1 = moving::fill_vec(vec0);

    assert_eq!(vec1, vec![22, 44, 66, 88]);
}

#[test]
fn move_semantics2() {
    let vec0 = vec![22, 44, 66];
    let vec1 = borrowing::fill_vec(&vec0);

    assert_eq!(vec0, vec![22, 44, 66]);
    assert_eq!(vec1, vec![22, 44, 66, 88]);
}

#[test]
fn move_semantics3() {
    let vec0 = vec![22, 44, 66];
    let vec1 = moving::fill_vec(vec0);

    assert_eq!(vec1, [22, 44, 66, 88]);
}
