#[test]
fn size_of_vector_in_bytes() {
    assert_eq!(std::mem::size_of::<Vec<i32>>(), 24);
    assert_eq!(std::mem::size_of::<Vec<i16>>(), 24);
}

#[test]
fn run_create_vector_with_new() {
    primer::vectors::with_new();
}

#[test]
fn run_create_vector_with_capacity() {
    primer::vectors::with_capacity();
}

#[test]
fn run_create_vector_with_marco() {
    primer::vectors::with_marco();
}

#[test]
fn run_update_vector_push() {
    primer::vectors::push();
}

#[test]
fn run_update_vector_pop() {
    primer::vectors::pop();
}

#[test]
fn run_read_vector_with_index() {
    primer::vectors::with_index();
}

#[test]
fn run_read_vector_with_get() {
    primer::vectors::with_get();
}

#[test]
fn run_iter_vector_read() {
    primer::vectors::read();
}

#[test]
fn vector_drop_enum_and_move_demos() {
    primer::vectors::explicit_call();
    primer::vectors::spread_sheet_cell();
    primer::vectors::iter_vector();
}
