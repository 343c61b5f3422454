use primer::enums::plus_one;
use primer::enums::value_in_cents;
use primer::enums::Coin;
use primer::enums::UsState;
use primer::rgb::red_revolution;
use primer::rgb::Brightness;
use primer::rgb::RGB;

#[test]
fn run_value_in_cents() {
    assert_eq!(value_in_cents(Coin::Quarter(UsState::Alaska)), 25);
    assert_eq!(value_in_cents(Coin::Quarter(UsState::Alabama)), 26);
}

#[test]
fn run_plus_one() {
    assert_eq!(plus_one(Some(5)), Some(6));
    assert_eq!(plus_one(None), None);
}

#[test]
fn run_red_revolution() {
    assert_eq!(red_revolution(RGB::Red(Brightness::Dark)), 0);
    assert_eq!(red_revolution(RGB::Red(Brightness::Light)), 0);
    assert_eq!(red_revolution(RGB::Green), 1);
    assert_eq!(red_revolution(RGB::Blue), 1);
}

#[test]
fn run_discriminant() {
    primer::enums::discriminant();
}

#[test]
fn catch_all_arm_handles_every_other_colour() {
    assert_eq!(primer::rgb::catch_all_with_placeholder(RGB::Red(Brightness::Dark)), 0);
    assert_eq!(primer::rgb::catch_all_with_placeholder(RGB::Green), 1);
    assert_eq!(primer::rgb::catch_all_with_placeholder(RGB::Blue), 1);
}

#[test]
fn every_coin_has_a_value() {
    assert_eq!(value_in_cents(Coin::Penny), 1);
    assert_eq!(value_in_cents(Coin::Nickel), 5);
    assert_eq!(value_in_cents(Coin::Dime), 10);
}
