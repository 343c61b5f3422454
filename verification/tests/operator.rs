#[test]
fn numeric_operations() {
    // addition
    assert_eq!(1 + 2, 3);

    // subtraction
    assert_eq!(95.5 - 4.3, 91.2);

    // division truncates toward zero
    assert_eq!(2 / 3, 0);
    assert_eq!(-5 / 4, -1);

    // remainder
    assert_eq!(43 % 5, 3);
}
