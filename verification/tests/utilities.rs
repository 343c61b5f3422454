use primer::extremum::extremum;
use primer::frequency::word_frequencies;
use primer::selection::longest;
use primer::selection::select_longer;

#[test]
fn extremum_matches_reference_sort_integers() {
    let samples: Vec<Vec<i32>> = vec![
        vec![34, 50, 25, 100, 65],
        vec![1],
        vec![-3, -1, -2],
        vec![7, 7, 7],
        vec![i32::MIN, 0, i32::MAX],
    ];
    for v in samples {
        let mut sorted = v.clone();
        sorted.sort();
        assert_eq!(extremum(&v), Some(*sorted.last().unwrap()));
    }
}

#[test]
fn extremum_matches_reference_sort_chars() {
    let samples: Vec<Vec<char>> = vec![vec!['y', 'm', 'a', 'q'], vec!['a'], vec!['中', 'z', '!']];
    for v in samples {
        let mut sorted = v.clone();
        sorted.sort();
        let largest = primer::extremum::largest_char(&v);
        assert_eq!(largest, sorted.last().unwrap());
    }
}

#[test]
fn extremum_of_empty_input_is_none() {
    let empty: Vec<i32> = vec![];
    assert_eq!(extremum(&empty), None);
}

#[test]
fn largest_generic_over_several_types() {
    let numbers: Vec<i32> = vec![34, 50, 25, 100, 65];
    assert_eq!(primer::extremum::largest(&numbers), &100);

    let chars: Vec<char> = vec!['y', 'm', 'a', 'q'];
    assert_eq!(primer::extremum::largest(&chars), &'y');

    let words: Vec<&str> = vec!["hello", "world", "abc"];
    assert_eq!(primer::extremum::largest(&words), &"world");
}

#[test]
fn select_longer_picks_strictly_longer_first_argument() {
    assert_eq!(select_longer("rust", "c++"), "rust");
}

#[test]
fn select_longer_tie_goes_to_second_argument() {
    assert_eq!(select_longer("ab", "cd"), "cd");
}

#[test]
fn longest_measures_bytes_not_chars() {
    // Two chars of three bytes each outweigh five ASCII chars.
    assert_eq!(longest("中国", "abcde"), "中国");
    assert_eq!(longest("", "x"), "x");
    assert_eq!(longest("xy", "z"), "xy");
}

#[test]
fn word_frequencies_counts_each_word() {
    let m = word_frequencies("hello world about world");
    assert_eq!(m.len(), 3);
    assert_eq!(m.get("hello"), Some(1));
    assert_eq!(m.get("world"), Some(2));
    assert_eq!(m.get("about"), Some(1));
    assert_eq!(m.get("missing"), None);
}

#[test]
fn word_frequencies_of_empty_text_is_empty() {
    let m = word_frequencies("");
    assert_eq!(m.len(), 0);
    assert_eq!(m.get(""), None);
}

#[test]
fn word_frequencies_twice_yields_equal_maps() {
    let text = "to be or not to be";
    let m1 = word_frequencies(text);
    let m2 = word_frequencies(text);
    assert_eq!(m1.len(), m2.len());
    for w in ["to", "be", "or", "not", "absent"] {
        assert_eq!(m1.get(w), m2.get(w));
    }
}

#[test]
fn word_frequencies_splits_on_any_whitespace() {
    let m = word_frequencies(" spaced\tout\nwords spaced ");
    assert_eq!(m.len(), 3);
    assert_eq!(m.get("spaced"), Some(2));
    assert_eq!(m.get("out"), Some(1));
    assert_eq!(m.get("words"), Some(1));
}

#[test]
fn char_frequencies_counts_each_character() {
    let m = primer::frequency::char_frequencies("rust best");
    assert_eq!(m.get("t"), Some(2));
    assert_eq!(m.get("s"), Some(2));
    assert_eq!(m.get("r"), Some(1));
    assert_eq!(m.get("u"), Some(1));
    assert_eq!(m.get("b"), Some(1));
    assert_eq!(m.get("e"), Some(1));
    assert_eq!(m.get(" "), Some(1));
    assert_eq!(m.len(), 7);
    assert_eq!(m.get("x"), None);
}
