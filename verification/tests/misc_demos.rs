use primer::context::Context;
use primer::player::Player;
use primer::structs::Laptop;

#[test]
fn player_has_name_and_starting_rank() {
    let player = Player::new("rust");
    assert_eq!(player.name, "rust");
    assert_eq!(player.rank(), 1);
    assert_eq!(player.name_len(), 4);
}

#[test]
fn laptop_size_can_be_altered() {
    let mut laptop = Laptop { name: String::from("mac"), size: 13 };
    assert_eq!(laptop.size(), 13);
    laptop.alter_size(16);
    assert_eq!(laptop.size(), 16);
    assert_eq!(laptop.name, "mac");
}

#[test]
fn struct_demos_run() {
    primer::structs::instantiating_structs();
    primer::structs::read_structs_filed();
    primer::structs::write_structs_filed();
    let laptop = primer::structs::short_hand_for_parameter(String::from("dell"));
    assert_eq!(laptop.name, "dell");
    assert_eq!(laptop.size, 13);
    primer::structs::create_new_instance_with_struct_update_syntax();
    primer::structs::instantiating_tuple_structs();
    primer::structs::read_tuple_structs_field();
}

#[test]
fn context_hands_its_name_back() {
    let name = String::from("rust");
    let context = Context { name: name.as_str() };
    assert_eq!(context.danger_mode(), "rust");
    assert_eq!(context.safety_mode(), "rust");
}

#[test]
fn excerpt_level_is_zero() {
    let novel = String::from("call me ishmael");
    let excerpt = primer::excerpt::ImportantExcerpt { part: &novel };
    assert_eq!(excerpt.level(), 0);
    primer::excerpt::error_nth1();
}

#[test]
fn selection_demos_report_lengths() {
    assert_eq!(primer::selection::no_need_lifetime_annotation("rust", "c++"), 4);
    assert_eq!(primer::selection::do_need_lifetime_annotation("ab", "cd"), "cd");
    assert_eq!(primer::selection::longest("rust", "c++"), "rust");
}

#[test]
fn variable_demos_run() {
    primer::variables::immutable_variable();
    primer::variables::mutable_variable();
    primer::variables::unused_variable();
    primer::variables::type_annotation_for_variable();
    primer::variables::variable_shadowing();
    assert_eq!(primer::variables::FOUR_HOURS_IN_SECONDS, 14400);
}

#[test]
fn path_and_scope_demos_run() {
    primer::paths::eat_at_restaurant();
    primer::paths::fix_incorrect_order();
    primer::mir::let_implicit_scope();
    primer::panics::takes_action_to_cause_panic();
    primer::panics::explicitly_call_panic_marco();
}

#[test]
fn underscore_demos_run() {
    let (first, second) = primer::underscore::surname();
    assert_eq!(first, "jordan");
    assert_eq!(second, "michael");
    primer::underscore::applications();
}

#[test]
fn pair_holds_its_two_values() {
    let _pair = primer::pair::Pair::new(1, 2);
    primer::references::weak_restriction();
    assert_eq!(primer::references::string_length(&String::from("中国")), 6);
}

#[test]
fn size_of_struct_in_bytes() {
    assert_eq!(primer::sizes::size_of_struct_in_one_bytes(), 1);
    assert_eq!(primer::sizes::size_of_struct_in_two_bytes(), 2);
    assert_eq!(primer::sizes::size_of_struct_in_four_bytes(), 4);
    assert_eq!(primer::sizes::size_of_struct_in_eight_bytes(), 8);
    assert_eq!(primer::sizes::size_of_struct_in_twenty_four_bytes(), 24);
}

#[test]
fn longest_first_argument_variant() {
    assert_eq!(primer::excerpt::longest("short", "much longer"), "short");
}
