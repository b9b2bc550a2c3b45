//! Enums and matching on them.
use vstd::prelude::*;
use vstd::string::*;
use crate::text::{decimal, decimal_string, signed_decimal, signed_decimal_string};

verus! {

/// A US coin.
#[derive(Clone, Copy, Debug, PartialEq, Eq, Structural)]
pub enum Coin {
    Penny,
    Nickel,
    Dime,
    Quarter,
}

pub open spec fn cents(coin: Coin) -> u8 {
    match coin {
        Coin::Penny => 1,
        Coin::Nickel => 5,
        Coin::Dime => 10,
        Coin::Quarter => 25,
    }
}

/// What the coin is worth, in cents.
pub fn value_in_cents(coin: &Coin) -> (r: u8)
    ensures
        r == cents(*coin),
{
    match coin {
        Coin::Penny => 1,
        Coin::Nickel => 5,
        Coin::Dime => 10,
        Coin::Quarter => 25,
    }
}

/// One more than the value held, if any; the caller keeps it inside `i32`.
pub fn plus_one(x: Option<i32>) -> (r: Option<i32>)
    requires
        x matches Some(i) ==> i < i32::MAX,
    ensures
        match x {
            None => r == None::<i32>,
            Some(i) => r == Some((i + 1) as i32),
        },
{
    match x {
        None => None,
        Some(i) => Some(i + 1),
    }
}

/// A compass direction.
#[derive(Clone, Copy, Debug, PartialEq, Eq, Structural)]
pub enum Direction {
    North,
    South,
    East,
    West,
}

pub open spec fn move_text(dir: Direction) -> Seq<char> {
    match dir {
        Direction::North => "Moving north ↑"@,
        Direction::South => "Moving south ↓"@,
        Direction::East => "Moving east →"@,
        Direction::West => "Moving west ←"@,
    }
}

/// The line announcing a move in `dir`.
pub fn move_player(dir: &Direction) -> (r: &'static str)
    ensures
        r@ == move_text(*dir),
{
    match dir {
        Direction::North => "Moving north ↑",
        Direction::South => "Moving south ↓",
        Direction::East => "Moving east →",
        Direction::West => "Moving west ←",
    }
}

/// An IP address, version 4 as four bytes or version 6 as text.
pub enum IpAddr {
    V4(u8, u8, u8, u8),
    V6(String),
}

pub open spec fn ip_text(ip: IpAddr) -> Seq<char> {
    match ip {
        IpAddr::V4(a, b, c, d) => "IPv4: "@ + decimal(a as nat) + "."@ + decimal(b as nat) + "."@
            + decimal(c as nat) + "."@ + decimal(d as nat),
        IpAddr::V6(addr) => "IPv6: "@ + addr@,
    }
}

/// The line showing an address: `IPv4: 127.0.0.1` or `IPv6: ::1`.
pub fn print_ip(ip: &IpAddr) -> (r: String)
    ensures
        r@ == ip_text(*ip),
{
    match ip {
        IpAddr::V4(a, b, c, d) => {
            let mut r = String::from_str("IPv4: ");
            r.append(decimal_string(*a as u32).as_str());
            r.append(".");
            r.append(decimal_string(*b as u32).as_str());
            r.append(".");
            r.append(decimal_string(*c as u32).as_str());
            r.append(".");
            r.append(decimal_string(*d as u32).as_str());
            r
        },
        IpAddr::V6(addr) => {
            let mut r = String::from_str("IPv6: ");
            r.append(addr.as_str());
            r
        },
    }
}

/// A message with a different payload for each kind.
pub enum Message {
    Quit,
    Move { x: i32, y: i32 },
    Write(String),
    ChangeColor(u8, u8, u8),
}

/// `(x, y)`.
pub open spec fn pair_text(x: int, y: int) -> Seq<char> {
    "("@ + signed_decimal(x) + ", "@ + signed_decimal(y) + ")"@
}

/// `RGB(r, g, b)`.
pub open spec fn rgb_text(r: u8, g: u8, b: u8) -> Seq<char> {
    "RGB("@ + decimal(r as nat) + ", "@ + decimal(g as nat) + ", "@ + decimal(b as nat) + ")"@
}

fn pair_string(x: i32, y: i32) -> (r: String)
    ensures
        r@ == pair_text(x as int, y as int),
{
    let mut r = String::from_str("(");
    r.append(signed_decimal_string(x).as_str());
    r.append(", ");
    r.append(signed_decimal_string(y).as_str());
    r.append(")");
    r
}

fn rgb_string(red: u8, green: u8, blue: u8) -> (r: String)
    ensures
        r@ == rgb_text(red, green, blue),
{
    let mut r = String::from_str("RGB(");
    r.append(decimal_string(red as u32).as_str());
    r.append(", ");
    r.append(decimal_string(green as u32).as_str());
    r.append(", ");
    r.append(decimal_string(blue as u32).as_str());
    r.append(")");
    r
}

pub open spec fn call_text(msg: Message) -> Seq<char> {
    match msg {
        Message::Quit => "Quit message"@,
        Message::Move { x, y } => "Move to "@ + pair_text(x as int, y as int),
        Message::Write(text) => "Text message: "@ + text@,
        Message::ChangeColor(r, g, b) => "Change color to "@ + rgb_text(r, g, b),
    }
}

pub open spec fn processed_text(msg: Message) -> Seq<char> {
    match msg {
        Message::Quit => "Quit"@,
        Message::Move { x, y } => "Move to "@ + pair_text(x as int, y as int),
        Message::Write(text) => "Write: "@ + text@,
        Message::ChangeColor(r, g, b) => "Color: "@ + rgb_text(r, g, b),
    }
}

impl Message {
    /// The line describing the message.
    pub fn call(&self) -> (r: String)
        ensures
            r@ == call_text(*self),
    {
        match self {
            Message::Quit => String::from_str("Quit message"),
            Message::Move { x, y } => {
                let mut r = String::from_str("Move to ");
                r.append(pair_string(*x, *y).as_str());
                r
            },
            Message::Write(text) => {
                let mut r = String::from_str("Text message: ");
                r.append(text.as_str());
                r
            },
            Message::ChangeColor(red, green, blue) => {
                let mut r = String::from_str("Change color to ");
                r.append(rgb_string(*red, *green, *blue).as_str());
                r
            },
        }
    }
}

/// The short line for handling the message.
pub fn process_message(msg: &Message) -> (r: String)
    ensures
        r@ == processed_text(*msg),
{
    match msg {
        Message::Quit => String::from_str("Quit"),
        Message::Move { x, y } => {
            let mut r = String::from_str("Move to ");
            r.append(pair_string(*x, *y).as_str());
            r
        },
        Message::Write(text) => {
            let mut r = String::from_str("Write: ");
            r.append(text.as_str());
            r
        },
        Message::ChangeColor(red, green, blue) => {
            let mut r = String::from_str("Color: ");
            r.append(rgb_string(*red, *green, *blue).as_str());
            r
        },
    }
}

} // verus!
