#[test]
fn run_first_word_index() {
    assert_eq!(primer::slices::first_word_index(&"rust".to_string()), 4);
    assert_eq!(primer::slices::first_word_index(&"ru t".to_string()), 2);
}

#[test]
fn run_first_word_slice() {
    assert_eq!(primer::slices::first_word_slice(&"rust".to_string()), "rust");
    assert_eq!(primer::slices::first_word_slice(&"中国 美国".to_string()), "中国");
}

#[test]
fn run_string_slice_as_parameter() {
    assert_eq!(primer::slices::string_slice_as_parameter("rust"), "rust");
    assert_eq!(primer::slices::string_slice_as_parameter(&"rust".to_string()), "rust");
    assert_eq!(primer::slices::string_slice_as_parameter(&"rust".to_string()[..]), "rust");
}

#[test]
fn run_array_slice_builder() {
    primer::slices::builder();
}

#[test]
fn string_literal_slices_its_prefix() {
    primer::slices::string_literal();
}

#[test]
fn first_word_index_counts_bytes() {
    // Each CJK character is three bytes, so the space sits at byte six.
    assert_eq!(primer::slices::first_word_index(&"中国 美国".to_string()), 6);
    assert_eq!(primer::slices::first_word_index(&"中国".to_string()), 6);
}
