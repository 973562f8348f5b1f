//! Sharing data: components that borrow one vector, and a struct whose vector
//! grows through its methods.

use vstd::prelude::*;

verus! {

/// A component that reads a vector it borrows.
pub struct Component<'a> {
    data: &'a Vec<i32>,
}

impl<'a> Component<'a> {
    /// The borrowed values.
    pub closed spec fn spec_data(&self) -> Seq<i32> {
        self.data@
    }

    /// A component over `data`.
    pub fn new(data: &'a Vec<i32>) -> (r: Component<'a>)
        ensures
            r.spec_data() == data@,
    {
        Component { data }
    }

    /// The borrowed vector.
    pub fn get_data(&self) -> (r: &'a Vec<i32>)
        ensures
            r@ == self.spec_data(),
    {
        self.data
    }
}

/// A vector that grows only at its end.
pub struct SharedStruct {
    data: Vec<i32>,
}

impl SharedStruct {
    /// The values held.
    pub closed spec fn spec_data(&self) -> Seq<i32> {
        self.data@
    }

    /// A struct holding `data`.
    pub fn new(data: Vec<i32>) -> (r: SharedStruct)
        ensures
            r.spec_data() == data@,
    {
        SharedStruct { data }
    }

    /// Appends `number`.
    pub fn push(&mut self, number: i32)
        ensures
            final(self).spec_data() == old(self).spec_data().push(number),
    {
        self.data.push(number);
    }

    /// The values held.
    pub fn data(&self) -> (r: &Vec<i32>)
        ensures
            r@ == self.spec_data(),
    {
        &self.data
    }
}

} // verus!
