#[test]
fn size_of_string_in_bytes() {
    assert_eq!(std::mem::size_of::<String>(), 24);
}

#[test]
fn run_create_string_with_new() {
    primer::strings::with_new();
}

#[test]
fn run_create_string_with_from() {
    primer::strings::with_from();
}

#[test]
fn run_create_string_with_capacity() {
    primer::strings::with_capacity();
}

#[test]
fn run_create_string_to_string() {
    primer::strings::to_string();
}

#[test]
fn run_update_string_with_format_marco() {
    primer::strings::with_format_marco();
}

#[test]
fn run_update_string_with_push() {
    primer::strings::with_push();
}

#[test]
fn run_slice_string_with_range() {
    primer::strings::with_range();
}

#[test]
fn run_string_attribute_len() {
    primer::strings::len();
}
