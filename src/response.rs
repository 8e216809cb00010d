//! Values read from the service's answers.

use vstd::prelude::*;

verus! {

/// Three coordinates, stored as an array.
pub struct Vector3D<T>([T; 3]);

/// Three coordinates by name.
pub struct Vector3DIndex<T> {
    pub x: T,
    pub y: T,
    pub z: T,
}

impl<T: Copy> Vector3D<T> {
    /// The coordinates, in the order x, y, z.
    pub closed spec fn spec_coords(self) -> Seq<T> {
        self.0@
    }

    /// The vector of `coords`, in the order x, y, z.
    pub fn new(coords: [T; 3]) -> (r: Vector3D<T>)
        ensures
            r.spec_coords() == coords@,
    {
        Vector3D(coords)
    }

    /// The coordinates by name.
    pub fn to_index(&self) -> (r: Vector3DIndex<T>)
        ensures
            r.x == self.spec_coords()[0],
            r.y == self.spec_coords()[1],
            r.z == self.spec_coords()[2],
    {
        Vector3DIndex { x: self.0[0], y: self.0[1], z: self.0[2] }
    }
}

} // verus!
