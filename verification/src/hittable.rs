//! The record of a ray meeting a surface.

use crate::material::Material;
use crate::scalar::{Scalar, ZERO};
use crate::vec3::Vec3;
use vstd::prelude::*;

verus! {

/// Where and how a ray met a surface.
#[derive(Debug, Clone, Copy)]
pub struct HitRecord {
    /// The point of the hit.
    pub p: Vec3,
    /// The surface normal there, turned against the incoming ray.
    pub normal: Vec3,
    /// The material of the surface.
    pub mat: Material,
    /// The ray parameter of the hit.
    pub t: Scalar,
    /// Whether the ray came from outside the surface.
    pub front_face: bool,
}

impl Default for HitRecord {
    fn default() -> (rec: HitRecord)
        ensures
            rec.p == Vec3::origin(),
            rec.normal == Vec3::origin(),
            rec.mat.albedo == Vec3::origin(),
            rec.mat.mat_type == crate::material::MaterialType::Lambertian,
            rec.mat.fuzz.bits == ZERO,
            rec.mat.refraction_index.bits == ZERO,
            rec.t.bits == ZERO,
            !rec.front_face,
    {
        HitRecord {
            p: Vec3::default(),
            normal: Vec3::default(),
            mat: Material::default(),
            t: Scalar::zero(),
            front_face: false,
        }
    }
}

impl HitRecord {
    /// Records on which side the ray met the surface and turns the normal
    /// against it. `facing` is the dot product of the ray's direction with
    /// `outward_normal`, which is taken to have unit length. Where `facing`
    /// is below zero the ray came from outside and the normal is kept;
    /// otherwise the normal is reversed.
    pub fn set_face_normal(&mut self, facing: Scalar, outward_normal: &Vec3)
        ensures
            final(self).front_face == facing.spec_lt(Scalar::zero()),
            final(self).normal == if final(self).front_face {
                *outward_normal
            } else {
                outward_normal.spec_neg()
            },
            final(self).p == old(self).p,
            final(self).mat == old(self).mat,
            final(self).t == old(self).t,
    {
        self.front_face = facing.lt(Scalar::zero());
        if self.front_face {
            self.normal = *outward_normal;
        } else {
            self.normal = core::ops::Neg::neg(*outward_normal);
        }
    }
}

/// The recorded normal is turned against the ray. Reversing a vector
/// reverses its dot product with the ray's direction, so that product is
/// `facing` where the front was hit and `-facing` where the back was; and
/// where `facing` is a number, that is not above zero either way.
pub proof fn lemma_normal_faces_the_ray(facing: Scalar)
    requires
        !facing.spec_is_nan(),
    ensures
        (if facing.spec_lt(Scalar::spec_zero()) {
            facing
        } else {
            facing.spec_neg()
        }).spec_le(Scalar::spec_zero()),
{
}

} // verus!
