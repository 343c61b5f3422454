#[test]
fn run_create_hash_map_with_new() {
    primer::hashmaps::with_new();
}

#[test]
fn run_create_hash_map_with_from() {
    primer::hashmaps::with_from();
}

#[test]
fn run_create_hash_map_with_into() {
    primer::hashmaps::with_into();
}

#[test]
fn run_create_hash_map_with_capacity() {
    primer::hashmaps::with_capacity();
}

#[test]
fn run_update_hash_map_insert() {
    primer::hashmaps::insert();
}

#[test]
fn run_update_hash_map_entry_to_insert() {
    primer::hashmaps::entry_to_insert();
}

#[test]
fn run_update_hash_map_remove() {
    primer::hashmaps::remove();
}

#[test]
fn run_common_used_method_of_hash_map_contains_key() {
    primer::hashmaps::contains_key();
}

#[test]
fn run_common_used_method_of_hash_map_get() {
    primer::hashmaps::get();
}

#[test]
fn hash_map_len_and_capacity_demos() {
    primer::hashmaps::len();
    primer::hashmaps::capacity();
    primer::hashmaps::demonstrated();
}
