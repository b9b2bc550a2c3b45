//! Closures: returned from functions, and stored in structs.
use vstd::prelude::*;

verus! {

/// A function that adds `x` to its argument; it may be called where the sum
/// fits in `i32`.
pub fn make_adder(x: i32) -> (r: impl Fn(i32) -> i32)
    ensures
        forall|y: i32| i32::MIN <= x + y <= i32::MAX ==> #[trigger] r.requires((y,)),
        forall|y: i32, z: i32| r.ensures((y,), z) ==> z == x + y,
{
    move |y: i32| -> (z: i32)
        requires
            i32::MIN <= x + y <= i32::MAX,
        ensures
            z == x + y,
        { x + y }
}

pub struct Counter {
    pub value: i32,
}

impl Counter {
    pub fn increment(&mut self)
        requires
            old(self).value < i32::MAX,
        ensures
            final(self).value == old(self).value + 1,
    {
        self.value += 1;
    }
}

/// Runs a calculation once and keeps its result for later calls.
pub struct Cacher<T> where T: Fn(i32) -> i32 {
    pub calculation: T,
    pub value: Option<i32>,
}

impl<T> Cacher<T> where T: Fn(i32) -> i32 {
    pub fn new(calculation: T) -> (r: Cacher<T>)
        ensures
            r.calculation == calculation,
            r.value == None::<i32>,
    {
        Cacher { calculation, value: None }
    }

    /// The kept result; on the first call, the calculation's result for `arg`.
    pub fn value(&mut self, arg: i32) -> (r: i32)
        requires
            old(self).value == None::<i32> ==> old(self).calculation.requires((arg,)),
        ensures
            final(self).calculation == old(self).calculation,
            final(self).value == Some(r),
            match old(self).value {
                Some(v) => r == v,
                None => old(self).calculation.ensures((arg,), r),
            },
    {
        match self.value {
            Some(v) => v,
            None => {
                let v = (self.calculation)(arg);
                self.value = Some(v);
                v
            },
        }
    }
}

} // verus!
