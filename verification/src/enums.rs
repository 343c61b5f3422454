//! Enums with data, matching, and `Option` handling.

use vstd::prelude::*;

verus! {

/// A state a quarter coin may name.
#[derive(Debug)]
pub enum UsState {
    Alaska,
    Alabama,
}

/// An American coin; quarters carry the state they were minted for.
pub enum Coin {
    Penny,
    Nickel,
    Dime,
    Quarter(UsState),
}

/// The value of a coin in cents; state quarters are told apart.
pub open spec fn coin_cents(coin: Coin) -> u8 {
    match coin {
        Coin::Penny => 1,
        Coin::Nickel => 5,
        Coin::Dime => 10,
        Coin::Quarter(UsState::Alaska) => 25,
        Coin::Quarter(UsState::Alabama) => 26,
    }
}

/// Returns the value of the coin in cents.
pub fn value_in_cents(coin: Coin) -> (cents: u8)
    ensures
        cents == coin_cents(coin),
{
    match coin {
        Coin::Penny => 1,
        Coin::Nickel => 5,
        Coin::Dime => 10,
        Coin::Quarter(state) => match state {
            UsState::Alaska => 25,
            UsState::Alabama => 26,
        },
    }
}

/// Adds one to the number, if there is one.
pub fn plus_one(x: Option<i32>) -> (r: Option<i32>)
    requires
        x matches Some(i) ==> i < i32::MAX,
    ensures
        match x {
            None => r is None,
            Some(i) => r == Some((i + 1) as i32),
        },
{
    match x {
        None => None,
        Some(i) => Some(i + 1),
    }
}

/// The kind of an IP address, with no data attached.
enum IpAddrKind {
    V4,
    V6,
}

/// An IP address, each kind carrying its own shape of data.
enum IpAddr {
    V4(u8, u8, u8, u8),
    V6(String),
}

/// A message, showing the four shapes a variant can take.
enum Message {
    Quit,
    Move { x: i32, y: i32 },
    Write(String),
    Color(i32, i32, i32),
}

/// Builds one value of every variant shape.
pub fn instantiating_enums() {
    {
        let _v4 = IpAddrKind::V4;
        let _v6 = IpAddrKind::V6;
    }

    {
        let _v4 = IpAddr::V4(127, 0, 0, 1);
        let _v6 = IpAddr::V6(String::from("::1"));
    }

    {
        let _quit = Message::Quit;
        let _move = Message::Move { x: 1, y: 2 };
        let _write = Message::Write(String::from("rust"));
        let _color = Message::Color(0, 0, 0);
    }
}

/// A variant of a small enumeration, with the one-byte code each variant
/// is assigned.
enum Foo {
    Bar,
    Baz,
    Qux,
}

/// The code assigned to each variant: the first starts at zero, the later
/// ones sit at the top of the byte range.
spec fn foo_code(f: Foo) -> u8 {
    match f {
        Foo::Bar => 0,
        Foo::Baz => 254,
        Foo::Qux => 255,
    }
}

/// Returns the one-byte code of a variant.
fn foo_as_u8(f: &Foo) -> (c: u8)
    ensures
        c == foo_code(*f),
{
    match f {
        Foo::Bar => 0,
        Foo::Baz => 254,
        Foo::Qux => 255,
    }
}

/// Each variant carries the code assigned to it.
pub fn discriminant() {
    let b = foo_as_u8(&Foo::Bar);
    assert(b == 0);
    let z = foo_as_u8(&Foo::Baz);
    assert(z == 254);
    let q = foo_as_u8(&Foo::Qux);
    assert(q == 255);
}

} // verus!
