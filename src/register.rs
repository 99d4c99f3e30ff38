use vstd::prelude::*;

verus! {

/// A processor register holding a value of a fixed-width integer type.
pub struct Register<T: Copy> {
    pub value: T,
}

impl<T: Copy> Register<T> {
    pub fn new(value: T) -> (r: Register<T>)
        ensures
            r.value == value,
    {
        Register { value }
    }
}

} // verus!
