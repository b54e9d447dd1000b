//! Small items without a home of their own.

use vstd::prelude::*;

verus! {

/// The sum of two numbers that have one.
pub fn add(left: u64, right: u64) -> (sum: u64)
    requires
        left + right <= u64::MAX,
    ensures
        sum == left + right,
{
    left + right
}

/// A value without content.
#[derive(Debug, Clone, Copy, PartialEq, Eq, Structural)]
pub struct Bar;

/// What takes a value of any type and makes nothing of it.
pub trait Foo {
    fn method<T>(&self, t: T);
}

impl Foo for Bar {
    fn method<T>(&self, t: T) {
    }
}

impl Bar {
    /// The value without content.
    pub fn new() -> (r: Self)
        ensures
            r == Bar,
    {
        Bar
    }
}

} // verus!
