//! Functions that take, return and borrow strings.
use vstd::prelude::*;
use vstd::string::*;
use vstd::utf8::encode_utf8;

verus! {

pub fn gives_ownership() -> (r: String)
    ensures
        r@ == "yours"@,
{
    String::from_str("yours")
}

pub fn takes_and_gives_back(s: String) -> (r: String)
    ensures
        r == s,
{
    s
}

/// The string handed back together with its length in bytes.
pub fn calculate_length_tuple(s: String) -> (r: (String, usize))
    ensures
        r.0 == s,
        r.1 == encode_utf8(s@).len() as usize,
{
    let length = s.as_str().len();
    (s, length)
}

/// The length of `s` in bytes.
pub fn calculate_length(s: &String) -> (r: usize)
    ensures
        r == encode_utf8(s@).len() as usize,
{
    s.as_str().len()
}

pub fn change(s: &mut String)
    ensures
        final(s)@ == old(s)@ + " world"@,
{
    s.append(" world");
}

/// `s` up to its first space, or all of it when it has none.
pub fn first_word(s: &str) -> (r: &str)
    ensures
        r@.len() <= s@.len(),
        r@ == s@.take(r@.len() as int),
        !r@.contains(' '),
        r@.len() < s@.len() ==> s@[r@.len() as int] == ' ',
{
    let n = s.unicode_len();
    let mut i: usize = 0;
    while i < n
        invariant
            n == s@.len(),
            i <= n,
            forall|k: int| 0 <= k < i ==> s@[k] != ' ',
        decreases n - i,
    {
        if s.get_char(i) == ' ' {
            let r = s.substring_char(0, i);
            proof {
                assert(r@ =~= s@.take(i as int));
            }
            return r;
        }
        i += 1;
    }
    let r = s.substring_char(0, n);
    proof {
        assert(r@ =~= s@);
        assert(s@.take(n as int) =~= s@);
    }
    r
}

pub struct User {
    pub name: String,
    pub age: u32,
}

/// One year older.
pub fn birthday(user: &mut User)
    requires
        old(user).age < u32::MAX,
    ensures
        final(user).age == old(user).age + 1,
        final(user).name == old(user).name,
{
    user.age = user.age + 1;
}

} // verus!
