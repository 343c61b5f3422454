use primer::points::Point;

#[test]
fn run_concrete_types_largest_i32() {
    assert_eq!(primer::extremum::largest_i32(&vec![34, 50, 25, 100, 65]), &100)
}

#[test]
fn run_concrete_types_largest_char() {
    assert_eq!(primer::extremum::largest_char(&vec!['y', 'm', 'a', 'q']), &'y');
}

#[test]
fn point_methods_move_and_borrow() {
    let p: Point<i32, &str> = Point::new(1, "rust");
    let (x, y) = p.borrow();
    assert_eq!(*x, 1);
    assert_eq!(*y, "rust");
    let (x, y) = p.moving();
    assert_eq!(x, 1);
    assert_eq!(y, "rust");

    let p1: Point<i32, i64> = Point::new(5, 10);
    let p2: Point<&str, char> = Point::new("rust", 'c');
    let p3: Point<i32, char> = p1.mix_up(p2);
    let (x, y) = p3.moving();
    assert_eq!(x, 5);
    assert_eq!(y, 'c');

    let p4: Point<u8, u8> = Point::from(3, 4);
    let (x, y) = p4.borrow();
    assert_eq!((*x, *y), (3, 4));
}
