use comparator::compare::larger;

#[test]
fn second_operand_greater() {
    assert_eq!(larger(5, 12), 12);
}

#[test]
fn first_operand_greater() {
    assert_eq!(larger(12, 5), 12);
}

#[test]
fn tie_resolves_to_second_operand() {
    assert_eq!(larger(7, 7), 7);
}

#[test]
fn repeated_calls_agree() {
    let first = larger(3, 9);
    let second = larger(3, 9);
    assert_eq!(first, second);
    let first = larger(9, 3);
    let second = larger(9, 3);
    assert_eq!(first, second);
}

#[test]
fn negative_operands() {
    assert_eq!(larger(-4, -9), -4);
    assert_eq!(larger(-9, -4), -4);
}

#[test]
fn unsigned_operands() {
    let a: u64 = 0;
    let b: u64 = u64::MAX;
    assert_eq!(larger(a, b), u64::MAX);
    assert_eq!(larger(b, a), u64::MAX);
}

#[test]
fn character_operands() {
    assert_eq!(larger('z', 's'), 'z');
    assert_eq!(larger('s', 'z'), 'z');
}
