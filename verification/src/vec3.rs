//! The three-component vector as a container: construction and component access
//! for any scalar type.

use vstd::prelude::*;

verus! {

/// Why a component could not be reached.
#[derive(Debug, Clone, Copy, PartialEq, Eq)]
pub enum VecError {
    /// The index named none of the three components.
    IndexOutOfRange,
}

/// A free vector or a point in space: exactly three scalars, in the order x, y, z.
#[derive(Debug, PartialEq)]
pub struct Vec3<T> {
    pub x: T,
    pub y: T,
    pub z: T,
}

impl<T: Copy> Clone for Vec3<T> {
    /// Copies are independent values with the same components.
    fn clone(&self) -> (v: Self)
        ensures
            v == *self,
    {
        *self
    }
}

impl<T: Copy> Copy for Vec3<T> {

}

/// A point is a vector used as a position.
pub type Point3<T> = Vec3<T>;

impl<T: Copy> Vec3<T> {
    /// The components in index order: always three of them.
    pub open spec fn components(self) -> Seq<T> {
        seq![self.x, self.y, self.z]
    }

    /// Stores the three scalars unchanged.
    pub fn new(e0: T, e1: T, e2: T) -> (v: Self)
        ensures
            v.x == e0,
            v.y == e1,
            v.z == e2,
            v.components() == seq![e0, e1, e2],
    {
        Vec3 { x: e0, y: e1, z: e2 }
    }

    /// Component 0.
    pub fn x(&self) -> (e: T)
        ensures
            e == self.components()[0],
    {
        self.x
    }

    /// Component 1.
    pub fn y(&self) -> (e: T)
        ensures
            e == self.components()[1],
    {
        self.y
    }

    /// Component 2.
    pub fn z(&self) -> (e: T)
        ensures
            e == self.components()[2],
    {
        self.z
    }

    /// The component at `index`. An index past 2 is reported, never clamped or
    /// wrapped.
    pub fn component(&self, index: usize) -> (r: Result<T, VecError>)
        ensures
            index < 3 ==> r == Ok::<T, VecError>(self.components()[index as int]),
            index >= 3 ==> r == Err::<T, VecError>(VecError::IndexOutOfRange),
    {
        if index == 0 {
            Ok(self.x)
        } else if index == 1 {
            Ok(self.y)
        } else if index == 2 {
            Ok(self.z)
        } else {
            Err(VecError::IndexOutOfRange)
        }
    }

    /// A mutable borrow of the component at `index`: what the caller writes
    /// through it becomes that component, and the other two stay as they were.
    /// An index past 2 is reported and the vector stays as it was.
    pub fn component_mut(&mut self, index: usize) -> (r: Result<&mut T, VecError>)
        ensures
            index < 3 ==> r is Ok && *r->Ok_0 == old(self).components()[index as int]
                && final(self).components() == old(self).components().update(
                index as int,
                *final(r->Ok_0),
            ),
            index >= 3 ==> r is Err && r->Err_0 == VecError::IndexOutOfRange && *final(self)
                == *old(self),
    {
        if index == 0 {
            Ok(&mut self.x)
        } else if index == 1 {
            Ok(&mut self.y)
        } else if index == 2 {
            Ok(&mut self.z)
        } else {
            Err(VecError::IndexOutOfRange)
        }
    }
}

} // verus!
