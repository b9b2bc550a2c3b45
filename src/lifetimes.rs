//! Functions and a struct whose results borrow from their inputs.
use vstd::prelude::*;
use vstd::utf8::encode_utf8;

verus! {

/// The longer of two strings by byte length; `y` on a tie.
pub fn longest<'a>(x: &'a str, y: &'a str) -> (r: &'a str)
    ensures
        r@ == if encode_utf8(x@).len() as usize > encode_utf8(y@).len() as usize {
            x@
        } else {
            y@
        },
{
    if x.len() > y.len() {
        x
    } else {
        y
    }
}

/// Always `first`: the flag does not change the result.
pub fn first_or_second<'a, 'b>(first: &'a str, second: &'b str, use_first: bool) -> (r: &'a str)
    where
        'b: 'a,
    ensures
        r@ == first@,
{
    if use_first {
        first
    } else {
        first
    }
}

/// A part of a longer text, borrowed from it.
pub struct ImportantExcerpt<'a> {
    pub part: &'a str,
}

impl<'a> ImportantExcerpt<'a> {
    pub fn level(&self) -> (r: i32)
        ensures
            r == 3,
    {
        3
    }

    /// The excerpt itself; the announcement is for the caller to show.
    pub fn announce_and_return_part(&self, announcement: &str) -> (r: &str)
        ensures
            r@ == self.part@,
    {
        self.part
    }
}

} // verus!
