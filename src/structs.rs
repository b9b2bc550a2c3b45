//! A rectangle with methods and associated functions.
use vstd::prelude::*;

verus! {

#[derive(Debug)]
pub struct Rectangle {
    pub width: u32,
    pub height: u32,
}

impl Rectangle {
    pub fn area(&self) -> (r: u32)
        requires
            self.width * self.height <= u32::MAX,
        ensures
            r == self.width * self.height,
    {
        self.width * self.height
    }

    pub fn perimeter(&self) -> (r: u32)
        requires
            2 * (self.width + self.height) <= u32::MAX,
        ensures
            r == 2 * (self.width + self.height),
    {
        2 * (self.width + self.height)
    }

    /// Whether `other` fits strictly inside this rectangle, without turning it.
    pub fn can_hold(&self, other: &Rectangle) -> (r: bool)
        ensures
            r == (self.width > other.width && self.height > other.height),
    {
        self.width > other.width && self.height > other.height
    }

    pub fn square(size: u32) -> (r: Rectangle)
        ensures
            r.width == size,
            r.height == size,
    {
        Rectangle { width: size, height: size }
    }

    pub fn is_square(&self) -> (r: bool)
        ensures
            r == (self.width == self.height),
    {
        self.width == self.height
    }

    /// Both sides multiplied by `factor`.
    pub fn scale(&self, factor: u32) -> (r: Rectangle)
        requires
            self.width * factor <= u32::MAX,
            self.height * factor <= u32::MAX,
        ensures
            r.width == self.width * factor,
            r.height == self.height * factor,
    {
        Rectangle { width: self.width * factor, height: self.height * factor }
    }
}

} // verus!
