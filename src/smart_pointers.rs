//! A recursive list through `Box`, and a box of one's own.
use vstd::prelude::*;
use vstd::string::*;
use crate::text::{signed_decimal, signed_decimal_string};

verus! {

/// A cons list of integers.
#[derive(Debug)]
pub enum List {
    Cons(i32, Box<List>),
    Nil,
}

/// How a list is shown: `1 -> 2 -> 3 -> Nil`.
pub open spec fn list_text(list: List) -> Seq<char>
    decreases list,
{
    match list {
        List::Cons(v, next) => signed_decimal(v as int) + " -> "@ + list_text(*next),
        List::Nil => "Nil"@,
    }
}

/// The list as text, each value followed by an arrow, ending in `Nil`.
pub fn print_list(list: &List) -> (r: String)
    ensures
        r@ == list_text(*list),
    decreases list,
{
    match list {
        List::Cons(v, next) => {
            let mut r = signed_decimal_string(*v);
            r.append(" -> ");
            r.append(print_list(next).as_str());
            r
        },
        List::Nil => String::from_str("Nil"),
    }
}

/// A box that holds its value in place.
pub struct MyBox<T>(pub T);

impl<T> MyBox<T> {
    pub fn new(x: T) -> (r: MyBox<T>)
        ensures
            r.0 == x,
    {
        MyBox(x)
    }

    /// The value inside.
    pub fn deref(&self) -> (r: &T)
        ensures
            *r == self.0,
    {
        &self.0
    }
}

/// The greeting for `name`.
pub fn hello(name: &str) -> (r: String)
    ensures
        r@ == "Hello, "@ + name@ + "!"@,
{
    let mut r = String::from_str("Hello, ");
    r.append(name);
    r.append("!");
    r
}

} // verus!
