#[test]
fn size_of_boolean_in_bytes() {
    assert_eq!(std::mem::size_of::<bool>(), 1);
    assert_eq!(true as u8, 0x01);
}

#[test]
fn size_of_char_in_bytes() {
    assert_eq!(std::mem::size_of::<char>(), 4);
}

#[test]
fn run_character_attribute_len_utf8() {
    primer::chars::len_utf8();
}

#[test]
fn size_of_integer_in_bytes() {
    assert_eq!(std::mem::size_of::<u8>(), 1);
    assert_eq!(std::mem::size_of::<i8>(), 1);
    assert_eq!(std::mem::size_of::<u16>(), 2);
    assert_eq!(std::mem::size_of::<i16>(), 2);
    assert_eq!(std::mem::size_of::<u32>(), 4);
    assert_eq!(std::mem::size_of::<i32>(), 4);
    assert_eq!(std::mem::size_of::<u64>(), 8);
    assert_eq!(std::mem::size_of::<i64>(), 8);
    assert_eq!(std::mem::size_of::<u128>(), 16);
    assert_eq!(std::mem::size_of::<i128>(), 16);
    assert_eq!(std::mem::size_of::<usize>(), 8);
    assert_eq!(std::mem::size_of::<isize>(), 8);
}
