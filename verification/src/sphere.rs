//! Spheres, and the choice among the roots of a ray against one.

use crate::hittable::HitRecord;
use crate::interval::Interval;
use crate::material::Material;
use crate::scalar::Scalar;
use crate::vec3::Vec3;
use vstd::prelude::*;

verus! {

/// A sphere of one material.
#[derive(Debug, Clone, Copy)]
pub struct Sphere {
    pub center: Vec3,
    pub radius: Scalar,
    pub mat: Material,
}

/// The quadratic `|O + tD - C|^2 = r^2` of a ray against a sphere, solved by
/// the caller in its half-`b` form: with `h = D.(C - O)`, `a = D.D` and
/// `c = |C - O|^2 - r^2`, the discriminant is `h^2 - a c`, and the roots are
/// `(h - sqrt(discriminant)) / a` and `(h + sqrt(discriminant)) / a`.
#[derive(Debug, Clone, Copy)]
pub struct Roots {
    pub discriminant: Scalar,
    pub near: Scalar,
    pub far: Scalar,
}

/// A sphere of the given centre, radius and material.
pub fn sphere(center: &Vec3, radius: Scalar, material: &Material) -> (s: Sphere)
    ensures
        s.center == *center,
        s.radius == radius,
        s.mat == *material,
{
    Sphere::new(center, radius, material)
}

impl Roots {
    /// The far root is not below the near one. This holds of roots computed
    /// as above: the divisor `a` is a sum of squares, and dividing by it
    /// keeps the order of `h - sqrt(discriminant)` and
    /// `h + sqrt(discriminant)`. A root that is not a number is below
    /// nothing.
    pub open spec fn ordered(&self) -> bool {
        !self.far.spec_lt(self.near)
    }

    /// The ray parameter at which the sphere is hit within `ray_t`: none
    /// where the discriminant is negative; else the near root if `ray_t`
    /// surrounds it; else the far root if `ray_t` surrounds that; else none.
    pub open spec fn spec_select(&self, ray_t: Interval) -> Option<Scalar> {
        if self.discriminant.spec_lt(Scalar::spec_zero()) {
            None
        } else if ray_t.spec_surrounds(self.near) {
            Some(self.near)
        } else if ray_t.spec_surrounds(self.far) {
            Some(self.far)
        } else {
            None
        }
    }

    /// The ray parameter at which the sphere is hit within `ray_t`, if it
    /// is: the smaller root that lies strictly inside the range. The bounds
    /// themselves do not count, so a ray that leaves a surface with a small
    /// positive lower bound does not meet that surface again where it left.
    #[verifier::when_used_as_spec(spec_select)]
    pub fn select(&self, ray_t: Interval) -> (t: Option<Scalar>)
        ensures
            t == self.spec_select(ray_t),
            t matches Some(root) ==> ray_t.spec_surrounds(root),
    {
        if self.discriminant.lt(Scalar::zero()) {
            return None;
        }
        let mut root = self.near;
        if !ray_t.surrounds(root) {
            root = self.far;
            if !ray_t.surrounds(root) {
                return None;
            }
        }
        Some(root)
    }
}

impl Sphere {
    pub fn new(center: &Vec3, radius: Scalar, material: &Material) -> (s: Sphere)
        ensures
            s.center == *center,
            s.radius == radius,
            s.mat == *material,
    {
        Sphere { center: *center, radius, mat: *material }
    }

    pub fn center(&self) -> (r: Vec3)
        ensures
            r == self.center,
    {
        self.center
    }

    pub fn radius(&self) -> (r: Scalar)
        ensures
            r == self.radius,
    {
        self.radius
    }

    pub fn material(&self) -> (r: Material)
        ensures
            r == self.mat,
    {
        self.mat
    }

    /// The record of a hit on this sphere at ray parameter `t`. `p` is the
    /// point of the ray at `t`, `outward_normal` is `(p - center) / radius`,
    /// and `facing` is the dot product of the ray's direction with
    /// `outward_normal`. The record carries the sphere's material, and its
    /// normal is `outward_normal` turned against the ray.
    pub fn hit(&self, t: Scalar, p: &Vec3, facing: Scalar, outward_normal: &Vec3) -> (rec: HitRecord)
        ensures
            rec.t == t,
            rec.p == *p,
            rec.mat == self.mat,
            rec.front_face == facing.spec_lt(Scalar::spec_zero()),
            rec.normal == if rec.front_face {
                *outward_normal
            } else {
                outward_normal.spec_neg()
            },
    {
        let mut rec = HitRecord::default();
        rec.t = t;
        rec.p = *p;
        rec.set_face_normal(facing, outward_normal);
        rec.mat = self.mat;
        rec
    }
}

/// Narrowing the range from above, to a bound that the range surrounds,
/// keeps the chosen root where it is below the new bound and loses it
/// where it is not.
pub proof fn lemma_select_narrowed(roots: Roots, ray_t: Interval, bound: Scalar)
    requires
        roots.ordered(),
        ray_t.spec_surrounds(bound),
    ensures
        roots.spec_select(Interval { min: ray_t.min, max: bound }) == match roots.spec_select(ray_t) {
            Some(t) => if t.spec_lt(bound) {
                Some(t)
            } else {
                None
            },
            None => None,
        },
{
}

/// Of roots in order, the one reported is the least that the range
/// surrounds: no root that the range surrounds is below it.
pub proof fn lemma_select_is_least(roots: Roots, ray_t: Interval)
    requires
        roots.ordered(),
    ensures
        roots.spec_select(ray_t) matches Some(t) ==> {
            &&& t == roots.near || t == roots.far
            &&& ray_t.spec_surrounds(roots.near) ==> t.spec_le(roots.near)
            &&& ray_t.spec_surrounds(roots.far) ==> t.spec_le(roots.far)
        },
        roots.spec_select(ray_t) is None && !roots.discriminant.spec_lt(Scalar::spec_zero())
            ==> !ray_t.spec_surrounds(roots.near) && !ray_t.spec_surrounds(roots.far),
{
}

/// No hit is reported at or below the lower bound of the range. A ray that
/// starts on a surface has a root at or about zero; with a small positive
/// lower bound that root is never the one reported, whatever the other.
pub proof fn lemma_select_above_lower_bound(roots: Roots, ray_t: Interval)
    ensures
        roots.spec_select(ray_t) matches Some(t) ==> ray_t.min.spec_lt(t) && !t.spec_le(ray_t.min),
        roots.near.spec_le(ray_t.min) ==> roots.spec_select(ray_t) == if roots.discriminant.spec_lt(
            Scalar::spec_zero(),
        ) || !ray_t.spec_surrounds(roots.far) {
            None
        } else {
            Some(roots.far)
        },
{
}

} // verus!
