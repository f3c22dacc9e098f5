//! A two-dimensional vector, used for positions and sizes.

use vstd::prelude::*;

verus! {

/// A 2-dimensional vector.
#[derive(Debug, Default, Clone, Copy, Hash, PartialEq, Eq, Structural)]
pub struct Vec2<T> {
    /// The x component on the horizontal axis.
    pub x: T,
    /// The y component on the vertical axis.
    pub y: T,
}

/// The value of `a + b` held at the upper bound of `u16`.
pub open spec fn sat_add(a: int, b: int) -> int {
    if a + b > u16::MAX as int {
        u16::MAX as int
    } else {
        a + b
    }
}

/// The value of `a - b` held at zero.
pub open spec fn sat_sub(a: int, b: int) -> int {
    if a - b < 0 {
        0
    } else {
        a - b
    }
}

/// The value of `a * b` held at the upper bound of `u16`.
pub open spec fn sat_mul(a: int, b: int) -> int {
    if a * b > u16::MAX as int {
        u16::MAX as int
    } else {
        a * b
    }
}

/// The smaller of two integers.
pub open spec fn min_int(a: int, b: int) -> int {
    if a <= b {
        a
    } else {
        b
    }
}

/// The larger of two integers.
pub open spec fn max_int(a: int, b: int) -> int {
    if a >= b {
        a
    } else {
        b
    }
}

impl<T> Vec2<T> {
    /// Create a new vector.
    pub fn new(x: T, y: T) -> (r: Self)
        ensures
            r.x == x,
            r.y == y,
    {
        Self { x, y }
    }

    /// The vector with its components exchanged.
    pub open spec fn spec_swap(self) -> Self {
        Vec2 { x: self.y, y: self.x }
    }

    /// Swaps the x and y components.
    pub fn swap(self) -> (r: Self)
        ensures
            r == self.spec_swap(),
    {
        Self { x: self.y, y: self.x }
    }

    /// Swaps the x and y components in place.
    pub fn swapped(&mut self)
        ensures
            *final(self) == old(self).spec_swap(),
    {
        core::mem::swap(&mut self.x, &mut self.y);
    }

    /// Map both the x and y components, x first.
    pub fn map<U, F: Fn(T) -> U>(self, f: F) -> (r: Vec2<U>)
        requires
            f.requires((self.x,)),
            f.requires((self.y,)),
        ensures
            f.ensures((self.x,), r.x),
            f.ensures((self.y,), r.y),
    {
        let x = f(self.x);
        let y = f(self.y);
        Vec2 { x, y }
    }

    /// Convert the inner type of the vector.
    pub fn into<U>(self) -> (r: Vec2<U>) where T: Into<U>
        ensures
            call_ensures(T::into, (self.x,), r.x),
            call_ensures(T::into, (self.y,), r.y),
    {
        Vec2 { x: self.x.into(), y: self.y.into() }
    }
}

/// Swapping twice gives the vector back.
pub proof fn lemma_swap_involution<T>(v: Vec2<T>)
    ensures
        v.spec_swap().spec_swap() == v,
{
}

impl Vec2<u16> {
    /// Get the sum of the x and y components of the vector, held at the upper bound.
    pub fn sum(self) -> (r: u16)
        ensures
            r as int == sat_add(self.x as int, self.y as int),
    {
        self.x.saturating_add(self.y)
    }

    /// Get the product of the x and y components of the vector, held at the upper bound.
    pub fn product(self) -> (r: u16)
        ensures
            r as int == sat_mul(self.x as int, self.y as int),
    {
        let a: u32 = self.x as u32;
        let b: u32 = self.y as u32;
        assert(a * b <= 65535 * 65535) by (nonlinear_arith)
            requires
                a <= 65535,
                b <= 65535,
        ;
        let p: u32 = a * b;
        if p > 65535 {
            65535
        } else {
            p as u16
        }
    }

    /// Computes the minimum of the two vectors in both dimensions.
    pub fn min(self, other: Self) -> (r: Self)
        ensures
            r.x as int == min_int(self.x as int, other.x as int),
            r.y as int == min_int(self.y as int, other.y as int),
    {
        Self {
            x: if self.x <= other.x { self.x } else { other.x },
            y: if self.y <= other.y { self.y } else { other.y },
        }
    }

    /// Computes the maximum of the two vectors in both dimensions.
    pub fn max(self, other: Self) -> (r: Self)
        ensures
            r.x as int == max_int(self.x as int, other.x as int),
            r.y as int == max_int(self.y as int, other.y as int),
    {
        Self {
            x: if self.x >= other.x { self.x } else { other.x },
            y: if self.y >= other.y { self.y } else { other.y },
        }
    }

    /// Computes the minimum and the maximum of the two vectors in both dimensions.
    pub fn min_max(self, other: Self) -> (r: (Self, Self))
        ensures
            r.0.x as int == min_int(self.x as int, other.x as int),
            r.0.y as int == min_int(self.y as int, other.y as int),
            r.1.x as int == max_int(self.x as int, other.x as int),
            r.1.y as int == max_int(self.y as int, other.y as int),
    {
        let (min_x, max_x) = if self.x <= other.x {
            (self.x, other.x)
        } else {
            (other.x, self.x)
        };
        let (min_y, max_y) = if self.y <= other.y {
            (self.y, other.y)
        } else {
            (other.y, self.y)
        };
        (Self::new(min_x, min_y), Self::new(max_x, max_y))
    }

    /// Adds the two vectors in both dimensions, each held at the upper bound.
    pub fn saturating_add(self, rhs: Self) -> (r: Self)
        ensures
            r.x as int == sat_add(self.x as int, rhs.x as int),
            r.y as int == sat_add(self.y as int, rhs.y as int),
    {
        Self { x: self.x.saturating_add(rhs.x), y: self.y.saturating_add(rhs.y) }
    }

    /// Subtracts `rhs` from the vector in both dimensions, each held at zero.
    pub fn saturating_sub(self, rhs: Self) -> (r: Self)
        ensures
            r.x as int == sat_sub(self.x as int, rhs.x as int),
            r.y as int == sat_sub(self.y as int, rhs.y as int),
    {
        Self { x: self.x.saturating_sub(rhs.x), y: self.y.saturating_sub(rhs.y) }
    }
}

impl core::ops::Add for Vec2<u16> {
    type Output = Vec2<u16>;

    /// Adds the two vectors in both dimensions, each held at the upper bound.
    fn add(self, rhs: Self) -> (r: Vec2<u16>)
        ensures
            r.x as int == sat_add(self.x as int, rhs.x as int),
            r.y as int == sat_add(self.y as int, rhs.y as int),
    {
        self.saturating_add(rhs)
    }
}

impl vstd::std_specs::ops::AddSpecImpl for Vec2<u16> {
    open spec fn obeys_add_spec() -> bool {
        true
    }

    open spec fn add_req(self, rhs: Self) -> bool {
        true
    }

    open spec fn add_spec(self, rhs: Self) -> Vec2<u16> {
        Vec2 {
            x: sat_add(self.x as int, rhs.x as int) as u16,
            y: sat_add(self.y as int, rhs.y as int) as u16,
        }
    }
}

impl core::ops::AddAssign for Vec2<u16> {
    /// Adds `rhs` to the vector in both dimensions, each held at the upper bound.
    fn add_assign(&mut self, rhs: Self)
        ensures
            final(self).x as int == sat_add(old(self).x as int, rhs.x as int),
            final(self).y as int == sat_add(old(self).y as int, rhs.y as int),
    {
        self.x = self.x.saturating_add(rhs.x);
        self.y = self.y.saturating_add(rhs.y);
    }
}

impl core::ops::Sub for Vec2<u16> {
    type Output = Vec2<u16>;

    /// Subtracts `rhs` from the vector in both dimensions, each held at zero.
    fn sub(self, rhs: Self) -> (r: Vec2<u16>)
        ensures
            r.x as int == sat_sub(self.x as int, rhs.x as int),
            r.y as int == sat_sub(self.y as int, rhs.y as int),
    {
        self.saturating_sub(rhs)
    }
}

impl vstd::std_specs::ops::SubSpecImpl for Vec2<u16> {
    open spec fn obeys_sub_spec() -> bool {
        true
    }

    open spec fn sub_req(self, rhs: Self) -> bool {
        true
    }

    open spec fn sub_spec(self, rhs: Self) -> Vec2<u16> {
        Vec2 {
            x: sat_sub(self.x as int, rhs.x as int) as u16,
            y: sat_sub(self.y as int, rhs.y as int) as u16,
        }
    }
}

impl<T> From<(T, T)> for Vec2<T> {
    fn from(xy: (T, T)) -> (r: Self) {
        Vec2 { x: xy.0, y: xy.1 }
    }
}

impl<T> vstd::std_specs::convert::FromSpecImpl<(T, T)> for Vec2<T> {
    open spec fn obeys_from_spec() -> bool {
        true
    }

    open spec fn from_spec(xy: (T, T)) -> Self {
        Vec2 { x: xy.0, y: xy.1 }
    }
}

} // verus!
