#[test]
fn size_of_array_in_bytes() {
    assert_eq!(std::mem::size_of::<[u8; 3]>(), 3);
    assert_eq!(std::mem::size_of::<[i64; 4]>(), 32);
    assert_eq!(std::mem::size_of::<[String; 2]>(), 48);
}

#[test]
fn run_access_array_element() {
    primer::arrays::access_array_element();
}
