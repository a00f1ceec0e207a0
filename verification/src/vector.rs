use vstd::prelude::*;

verus! {

/// A 2-D integer coordinate used for positions, sizes and velocities.
///
/// Fixed-point (integer) coordinates keep every tick of the simulation
/// deterministic.
#[derive(Clone, Copy, Debug, PartialEq, Eq, Structural)]
pub struct Vector {
    pub x: i32,
    pub y: i32,
}

impl Vector {
    /// The origin: both components zero.
    pub fn zero() -> (v: Vector)
        ensures
            v.x == 0,
            v.y == 0,
    {
        Vector { x: 0, y: 0 }
    }

    /// A vector with the given components.
    pub fn new(x: i32, y: i32) -> (v: Vector)
        ensures
            v.x == x,
            v.y == y,
    {
        Vector { x, y }
    }

    /// Component-wise sum.
    pub fn add(self, rhs: Vector) -> (v: Vector)
        requires
            i32::MIN <= self.x + rhs.x <= i32::MAX,
            i32::MIN <= self.y + rhs.y <= i32::MAX,
        ensures
            v.x == self.x + rhs.x,
            v.y == self.y + rhs.y,
    {
        Vector { x: self.x + rhs.x, y: self.y + rhs.y }
    }

    /// Component-wise difference.
    pub fn sub(self, rhs: Vector) -> (v: Vector)
        requires
            i32::MIN <= self.x - rhs.x <= i32::MAX,
            i32::MIN <= self.y - rhs.y <= i32::MAX,
        ensures
            v.x == self.x - rhs.x,
            v.y == self.y - rhs.y,
    {
        Vector { x: self.x - rhs.x, y: self.y - rhs.y }
    }

    /// Component-wise sum in place.
    pub fn add_assign(&mut self, rhs: Vector)
        requires
            i32::MIN <= old(self).x + rhs.x <= i32::MAX,
            i32::MIN <= old(self).y + rhs.y <= i32::MAX,
        ensures
            final(self).x == old(self).x + rhs.x,
            final(self).y == old(self).y + rhs.y,
    {
        self.x = self.x + rhs.x;
        self.y = self.y + rhs.y;
    }
}

impl From<(i64, i64)> for Vector {
    /// Each component is truncated to 32 bits.
    fn from(pair: (i64, i64)) -> (v: Vector) {
        Vector {
            x: #[verifier::truncate] (pair.0 as i32),
            y: #[verifier::truncate] (pair.1 as i32),
        }
    }
}

impl vstd::std_specs::convert::FromSpecImpl<(i64, i64)> for Vector {
    open spec fn obeys_from_spec() -> bool {
        true
    }

    open spec fn from_spec(pair: (i64, i64)) -> Vector {
        Vector { x: pair.0 as i32, y: pair.1 as i32 }
    }
}

} // verus!
