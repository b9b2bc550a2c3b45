//! Generic functions and data structures.
use vstd::prelude::*;
use vstd::laws_cmp::obeys_partial_cmp_spec_properties;
use vstd::std_specs::cmp::PartialOrdSpec;
use core::cmp::Ordering;

verus! {

/// Where `x` is greater than `y` and `z` is not, `x` is greater than `z`:
/// true of every total order.
pub open spec fn greater_passes_down<T: PartialOrd>() -> bool {
    forall|x: T, y: T, z: T|
        #[trigger] x.partial_cmp_spec(&y) == Some(Ordering::Greater) && #[trigger] z.partial_cmp_spec(
            &y,
        ) != Some(Ordering::Greater) ==> #[trigger] x.partial_cmp_spec(&z) == Some(Ordering::Greater)
}

/// The first of the largest elements of a non-empty slice. Where `T`'s
/// comparison behaves as its specification says (a strict order on its
/// values), no element of the slice is greater than the result; where that
/// order is moreover total, every element before the result is less than it.
pub fn largest<T: PartialOrd>(list: &[T]) -> (r: &T)
    requires
        list@.len() > 0,
    ensures
        exists|i: int|
            0 <= i < list@.len() && list@[i] == *r && (T::obeys_partial_cmp_spec()
                && obeys_partial_cmp_spec_properties::<T>() && greater_passes_down::<T>()
                ==> forall|k: int|
                0 <= k < i ==> (#[trigger] list@[k]).partial_cmp_spec(r) == Some(Ordering::Less)),
        T::obeys_partial_cmp_spec() && obeys_partial_cmp_spec_properties::<T>() ==> forall|j: int|
            0 <= j < list@.len() ==> (#[trigger] list@[j]).partial_cmp_spec(r) != Some(
                Ordering::Greater,
            ),
{
    let ghost lawful = T::obeys_partial_cmp_spec() && obeys_partial_cmp_spec_properties::<T>();
    let ghost total = lawful && greater_passes_down::<T>();
    let mut largest = &list[0];
    let ghost mut at: int = 0;
    let mut i: usize = 0;
    while i < list.len()
        invariant
            lawful == (T::obeys_partial_cmp_spec() && obeys_partial_cmp_spec_properties::<T>()),
            total == (lawful && greater_passes_down::<T>()),
            0 <= at < list@.len(),
            at < i || (at == 0 && i == 0),
            list@[at] == *largest,
            i <= list@.len(),
            lawful ==> forall|k: int|
                0 <= k < i ==> (#[trigger] list@[k]).partial_cmp_spec(largest) != Some(
                    Ordering::Greater,
                ),
            total ==> forall|k: int|
                0 <= k < at ==> largest.partial_cmp_spec(&(#[trigger] list@[k])) == Some(
                    Ordering::Greater,
                ),
        decreases list@.len() - i,
    {
        let ghost previous = *largest;
        if list[i].gt(largest) {
            largest = &list[i];
            proof {
                at = i as int;
                if lawful {
                    reveal(obeys_partial_cmp_spec_properties);
                    let item = list@[i as int];
                    assert(item.partial_cmp_spec(&previous) == Some(Ordering::Greater));
                    assert forall|k: int| 0 <= k < i + 1 implies (#[trigger] list@[k]).partial_cmp_spec(
                        &item,
                    ) != Some(Ordering::Greater) by {
                        if list@[k].partial_cmp_spec(&item) == Some(Ordering::Greater) {
                            assert(list@[k].partial_cmp_spec(&previous) == Some(Ordering::Greater));
                        }
                    }
                    if total {
                        assert forall|k: int| 0 <= k < i implies item.partial_cmp_spec(
                            &(#[trigger] list@[k]),
                        ) == Some(Ordering::Greater) by {
                            let z = list@[k];
                            assert(z.partial_cmp_spec(&previous) != Some(Ordering::Greater));
                            assert(item.partial_cmp_spec(&z) == Some(Ordering::Greater));
                        }
                    }
                }
            }
        }
        i += 1;
    }
    proof {
        if total {
            reveal(obeys_partial_cmp_spec_properties);
            assert forall|k: int| 0 <= k < at implies (#[trigger] list@[k]).partial_cmp_spec(largest)
                == Some(Ordering::Less) by {
                assert(largest.partial_cmp_spec(&list@[k]) == Some(Ordering::Greater));
            }
        }
    }
    largest
}

/// A point with both coordinates of one type.
#[derive(Debug)]
pub struct Point<T> {
    pub x: T,
    pub y: T,
}

impl<T> Point<T> {
    pub fn x(&self) -> (r: &T)
        ensures
            *r == self.x,
    {
        &self.x
    }

    pub fn y(&self) -> (r: &T)
        ensures
            *r == self.y,
    {
        &self.y
    }
}

/// A point whose coordinates may have different types.
pub struct MixedPoint<T, U> {
    pub x: T,
    pub y: U,
}

impl<T, U> MixedPoint<T, U> {
    /// A point with this point's `x` and `other`'s `y`.
    pub fn mixup<V, W>(self, other: MixedPoint<V, W>) -> (r: MixedPoint<T, W>)
        ensures
            r.x == self.x,
            r.y == other.y,
    {
        MixedPoint { x: self.x, y: other.y }
    }
}

/// An optional value, shaped like `Option`.
#[derive(Debug)]
pub enum MyOption<T> {
    Present(T),
    Absent,
}

/// A value or an error, shaped like `Result`.
#[derive(Debug)]
pub enum MyResult<T, E> {
    Value(T),
    Error(E),
}

/// A last-in, first-out stack.
#[derive(Debug)]
pub struct Stack<T> {
    items: Vec<T>,
}

impl<T> View for Stack<T> {
    type V = Seq<T>;

    /// The items from the bottom of the stack to its top.
    closed spec fn view(&self) -> Seq<T> {
        self.items@
    }
}

impl<T> Stack<T> {
    pub fn new() -> (r: Self)
        ensures
            r@ == Seq::<T>::empty(),
    {
        Stack { items: Vec::new() }
    }

    pub fn push(&mut self, item: T)
        ensures
            final(self)@ == old(self)@.push(item),
    {
        self.items.push(item);
    }

    /// Takes the top item off, if there is one.
    pub fn pop(&mut self) -> (r: Option<T>)
        ensures
            old(self)@.len() == 0 ==> r == None::<T> && final(self)@ == old(self)@,
            old(self)@.len() > 0 ==> r == Some(old(self)@.last()) && final(self)@ == old(
                self,
            )@.drop_last(),
    {
        self.items.pop()
    }

    /// The top item, if there is one.
    pub fn peek(&self) -> (r: Option<&T>)
        ensures
            self@.len() == 0 ==> r == None::<&T>,
            self@.len() > 0 ==> r == Some(&self@.last()),
    {
        if self.items.len() == 0 {
            None
        } else {
            Some(&self.items[self.items.len() - 1])
        }
    }

    pub fn is_empty(&self) -> (r: bool)
        ensures
            r == (self@.len() == 0),
    {
        self.items.len() == 0
    }

    pub fn len(&self) -> (r: usize)
        ensures
            r == self@.len(),
    {
        self.items.len()
    }
}

/// Two values of one type.
pub struct Pair<T> {
    pub x: T,
    pub y: T,
}

impl<T> Pair<T> {
    pub fn new(x: T, y: T) -> (r: Self)
        ensures
            r.x == x,
            r.y == y,
    {
        Pair { x, y }
    }
}

} // verus!
