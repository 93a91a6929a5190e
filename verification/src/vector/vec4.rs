use vstd::prelude::*;

verus! {

/// A quadruple of like-typed components.
#[derive(Copy, Clone, Debug)]
pub struct Vec4<T> {
    pub x: T,
    pub y: T,
    pub z: T,
    pub w: T,
}

impl<T> Vec4<T> {
    pub fn new(x: T, y: T, z: T, w: T) -> (v: Self)
        ensures
            v.x == x,
            v.y == y,
            v.z == z,
            v.w == w,
    {
        Self { x, y, z, w }
    }
}

impl<T: Copy> Vec4<T> {
    /// Applies `f` to each component.
    pub fn map<Y>(&self, f: impl Fn(T) -> Y) -> (r: Vec4<Y>)
        requires
            call_requires(f, (self.x,)),
            call_requires(f, (self.y,)),
            call_requires(f, (self.z,)),
            call_requires(f, (self.w,)),
        ensures
            call_ensures(f, (self.x,), r.x),
            call_ensures(f, (self.y,), r.y),
            call_ensures(f, (self.z,), r.z),
            call_ensures(f, (self.w,), r.w),
    {
        Vec4 { x: f(self.x), y: f(self.y), z: f(self.z), w: f(self.w) }
    }
}

impl Vec4<i64> {
    /// Sum of the components.
    pub fn sum(&self) -> (s: i64)
        requires
            i64::MIN <= self.x + self.y <= i64::MAX,
            i64::MIN <= self.x + self.y + self.z <= i64::MAX,
            i64::MIN <= self.x + self.y + self.z + self.w <= i64::MAX,
        ensures
            s == self.x + self.y + self.z + self.w,
    {
        self.x + self.y + self.z + self.w
    }

    /// Squared length of the vector.
    pub fn get_attenuation_factor(&self) -> (s: i64)
        requires
            self.x * self.x + self.y * self.y + self.z * self.z + self.w * self.w <= i64::MAX,
        ensures
            s == self.x * self.x + self.y * self.y + self.z * self.z + self.w * self.w,
    {
        proof {
            assert(self.x * self.x >= 0 && self.y * self.y >= 0 && self.z * self.z >= 0
                && self.w * self.w >= 0) by (nonlinear_arith);
        }
        self.x * self.x + self.y * self.y + self.z * self.z + self.w * self.w
    }

    /// Componentwise difference.
    pub fn sub(self, rhs: Self) -> (r: Self)
        requires
            i64::MIN <= self.x - rhs.x <= i64::MAX,
            i64::MIN <= self.y - rhs.y <= i64::MAX,
            i64::MIN <= self.z - rhs.z <= i64::MAX,
            i64::MIN <= self.w - rhs.w <= i64::MAX,
        ensures
            r.x == self.x - rhs.x,
            r.y == self.y - rhs.y,
            r.z == self.z - rhs.z,
            r.w == self.w - rhs.w,
    {
        Vec4 { x: self.x - rhs.x, y: self.y - rhs.y, z: self.z - rhs.z, w: self.w - rhs.w }
    }

    /// Componentwise sum.
    pub fn add(self, rhs: Self) -> (r: Self)
        requires
            i64::MIN <= self.x + rhs.x <= i64::MAX,
            i64::MIN <= self.y + rhs.y <= i64::MAX,
            i64::MIN <= self.z + rhs.z <= i64::MAX,
            i64::MIN <= self.w + rhs.w <= i64::MAX,
        ensures
            r.x == self.x + rhs.x,
            r.y == self.y + rhs.y,
            r.z == self.z + rhs.z,
            r.w == self.w + rhs.w,
    {
        Vec4 { x: self.x + rhs.x, y: self.y + rhs.y, z: self.z + rhs.z, w: self.w + rhs.w }
    }

    /// Scaling by one factor.
    pub fn mul(self, rhs: i64) -> (r: Self)
        requires
            i64::MIN <= self.x * rhs <= i64::MAX,
            i64::MIN <= self.y * rhs <= i64::MAX,
            i64::MIN <= self.z * rhs <= i64::MAX,
            i64::MIN <= self.w * rhs <= i64::MAX,
        ensures
            r.x == self.x * rhs,
            r.y == self.y * rhs,
            r.z == self.z * rhs,
            r.w == self.w * rhs,
    {
        Vec4 { x: self.x * rhs, y: self.y * rhs, z: self.z * rhs, w: self.w * rhs }
    }
}

} // verus!
