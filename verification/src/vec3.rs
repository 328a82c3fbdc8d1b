//! Points, directions and colours: three scalars.

use crate::scalar::{Scalar, INFINITE, ZERO};
use vstd::prelude::*;

verus! {

/// The pattern of 1e-8, below which a component counts as vanished.
pub const NEAR_ZERO: u64 = 0x3e45_798e_e230_8c3a;

/// Three scalars, read as a point, a direction or a linear RGB colour.
#[derive(Clone, Copy, Debug)]
pub struct Vec3 {
    pub x: Scalar,
    pub y: Scalar,
    pub z: Scalar,
}

/// A vector from its three components.
pub fn vec3(x: Scalar, y: Scalar, z: Scalar) -> (v: Vec3)
    ensures
        v == (Vec3 { x, y, z }),
{
    Vec3::builder().xyz(x, y, z).build()
}

/// A point from its three coordinates.
pub fn point3(x: Scalar, y: Scalar, z: Scalar) -> (v: Vec3)
    ensures
        v == (Vec3 { x, y, z }),
{
    Vec3::builder().xyz(x, y, z).build()
}

impl Vec3 {
    /// The vector whose components are all `+0`.
    pub open spec fn origin() -> Vec3 {
        Vec3 { x: Scalar::zero(), y: Scalar::zero(), z: Scalar::zero() }
    }

    /// Component-wise IEEE equality.
    pub open spec fn same(self, other: Vec3) -> bool {
        self.x.same(other.x) && self.y.same(other.y) && self.z.same(other.z)
    }

    /// Each component with its sign flipped.
    pub open spec fn spec_neg(self) -> Vec3 {
        Vec3 { x: self.x.spec_neg(), y: self.y.spec_neg(), z: self.z.spec_neg() }
    }

    /// Every component is smaller in magnitude than 1e-8.
    pub open spec fn spec_near_zero(&self) -> bool {
        let s = Scalar { bits: NEAR_ZERO };
        self.x.spec_abs().spec_lt(s) && self.y.spec_abs().spec_lt(s) && self.z.spec_abs().spec_lt(s)
    }

    /// The component at `index`; `+0` beyond the third.
    pub open spec fn component(self, index: int) -> Scalar {
        if index == 0 {
            self.x
        } else if index == 1 {
            self.y
        } else if index == 2 {
            self.z
        } else {
            Scalar::zero()
        }
    }

    /// Whether a point whose squared length is `length_squared` lies
    /// strictly inside the unit ball.
    pub open spec fn spec_inside_unit_ball(length_squared: Scalar) -> bool {
        length_squared.spec_lt(Scalar::spec_one())
    }

    /// Whether the vector can serve as an axis: its components are finite
    /// and not all zero.
    pub open spec fn spec_is_axis(&self) -> bool {
        &&& self.x.finite() && self.y.finite() && self.z.finite()
        &&& !(self.x.is_zero() && self.y.is_zero() && self.z.is_zero())
    }

    /// A builder that starts from the zero vector.
    pub fn builder() -> (b: Vec3Builder)
        ensures
            b.spec_build() == Vec3::origin(),
    {
        Vec3Builder::default()
    }

    pub fn x(&self) -> (r: Scalar)
        ensures
            r == self.x,
    {
        self.x
    }

    pub fn y(&self) -> (r: Scalar)
        ensures
            r == self.y,
    {
        self.y
    }

    pub fn z(&self) -> (r: Scalar)
        ensures
            r == self.z,
    {
        self.z
    }

    /// Whether the vector can serve as an axis: its components are finite
    /// and not all zero.
    #[verifier::when_used_as_spec(spec_is_axis)]
    pub fn is_axis(&self) -> (r: bool)
        ensures
            r == self.spec_is_axis(),
    {
        let ax = self.x.abs().to_bits();
        let ay = self.y.abs().to_bits();
        let az = self.z.abs().to_bits();
        ax < INFINITE && ay < INFINITE && az < INFINITE
            && !(ax == 0 && ay == 0 && az == 0)
    }

    /// Whether the vector is too short to give a direction: every component
    /// is below 1e-8 in magnitude.
    #[verifier::when_used_as_spec(spec_near_zero)]
    pub fn near_zero(&self) -> (r: bool)
        ensures
            r == self.spec_near_zero(),
    {
        let s = Scalar { bits: NEAR_ZERO };
        self.x.abs().lt(s) && self.y.abs().lt(s) && self.z.abs().lt(s)
    }
}

/// The acceptance test of rejection sampling in the unit ball and in the
/// unit disk: a point drawn from the enclosing cube or square is kept if
/// its squared length is below 1, and drawn again if not.
pub fn inside_unit_ball(length_squared: Scalar) -> (r: bool)
    ensures
        r == Vec3::spec_inside_unit_ball(length_squared),
{
    length_squared.lt(Scalar::one())
}

/// A unit vector turned into the hemisphere about a normal.
/// `on_unit_sphere` is a random unit vector and `facing` its dot product
/// with the normal: the vector is kept where that is above zero, and
/// reversed where it is not.
pub fn random_on_hemisphere(on_unit_sphere: &Vec3, facing: Scalar) -> (v: Vec3)
    ensures
        v == if facing.spec_gt(Scalar::spec_zero()) {
            *on_unit_sphere
        } else {
            on_unit_sphere.spec_neg()
        },
{
    if facing.gt(Scalar::zero()) {
        *on_unit_sphere
    } else {
        core::ops::Neg::neg(*on_unit_sphere)
    }
}

impl Default for Vec3 {
    fn default() -> (v: Vec3)
        ensures
            v == Vec3::origin(),
    {
        Vec3 { x: Scalar::zero(), y: Scalar::zero(), z: Scalar::zero() }
    }
}

impl PartialEq for Vec3 {
    /// Component-wise IEEE equality.
    fn eq(&self, other: &Vec3) -> (r: bool) {
        self.x == other.x && self.y == other.y && self.z == other.z
    }
}

impl vstd::std_specs::cmp::PartialEqSpecImpl for Vec3 {
    open spec fn obeys_eq_spec() -> bool {
        true
    }

    open spec fn eq_spec(&self, other: &Vec3) -> bool {
        self.same(*other)
    }
}

impl core::ops::Neg for Vec3 {
    type Output = Vec3;

    fn neg(self) -> (r: Vec3) {
        Vec3 { x: self.x.neg(), y: self.y.neg(), z: self.z.neg() }
    }
}

impl vstd::std_specs::ops::NegSpecImpl for Vec3 {
    open spec fn obeys_neg_spec() -> bool {
        true
    }

    open spec fn neg_req(self) -> bool {
        true
    }

    open spec fn neg_spec(self) -> Vec3 {
        self.spec_neg()
    }
}

impl core::ops::Index<usize> for Vec3 {
    type Output = Scalar;

    /// The component at `index`; `+0` beyond the third.
    fn index(&self, index: usize) -> (r: &Scalar)
        ensures
            *r == self.component(index as int),
    {
        if index == 0 {
            &self.x
        } else if index == 1 {
            &self.y
        } else if index == 2 {
            &self.z
        } else {
            &Scalar { bits: ZERO }
        }
    }
}

impl vstd::std_specs::core::IndexSpecImpl<usize> for Vec3 {
    open spec fn index_req(&self, index: &usize) -> bool {
        true
    }
}

/// Collects the components of a [`Vec3`] one call at a time.
pub struct Vec3Builder {
    pub x: Scalar,
    pub y: Scalar,
    pub z: Scalar,
}

impl Default for Vec3Builder {
    fn default() -> (b: Vec3Builder)
        ensures
            b.spec_build() == Vec3::origin(),
    {
        Vec3Builder { x: Scalar::zero(), y: Scalar::zero(), z: Scalar::zero() }
    }
}

impl Vec3Builder {
    /// The vector that `build` would return.
    pub open spec fn spec_build(self) -> Vec3 {
        Vec3 { x: self.x, y: self.y, z: self.z }
    }

    /// A builder that starts from the zero vector.
    pub fn new() -> (b: Vec3Builder)
        ensures
            b.spec_build() == Vec3::origin(),
    {
        Vec3Builder { x: Scalar::zero(), y: Scalar::zero(), z: Scalar::zero() }
    }

    pub fn x(self, x: Scalar) -> (b: Vec3Builder)
        ensures
            b.spec_build() == (Vec3 { x, ..self.spec_build() }),
    {
        Vec3Builder { x, y: self.y, z: self.z }
    }

    pub fn y(self, y: Scalar) -> (b: Vec3Builder)
        ensures
            b.spec_build() == (Vec3 { y, ..self.spec_build() }),
    {
        Vec3Builder { x: self.x, y, z: self.z }
    }

    pub fn z(self, z: Scalar) -> (b: Vec3Builder)
        ensures
            b.spec_build() == (Vec3 { z, ..self.spec_build() }),
    {
        Vec3Builder { x: self.x, y: self.y, z }
    }

    pub fn xy(self, x: Scalar, y: Scalar) -> (b: Vec3Builder)
        ensures
            b.spec_build() == (Vec3 { x, y, ..self.spec_build() }),
    {
        Vec3Builder { x, y, z: self.z }
    }

    pub fn yz(self, y: Scalar, z: Scalar) -> (b: Vec3Builder)
        ensures
            b.spec_build() == (Vec3 { y, z, ..self.spec_build() }),
    {
        Vec3Builder { x: self.x, y, z }
    }

    pub fn xyz(self, x: Scalar, y: Scalar, z: Scalar) -> (b: Vec3Builder)
        ensures
            b.spec_build() == (Vec3 { x, y, z }),
    {
        Vec3Builder { x, y, z }
    }

    /// The vector of the components collected so far.
    #[verifier::when_used_as_spec(spec_build)]
    pub fn build(self) -> (v: Vec3)
        ensures
            v == self.spec_build(),
    {
        Vec3 { x: self.x, y: self.y, z: self.z }
    }
}

} // verus!
