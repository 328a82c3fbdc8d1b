//! Surface materials and the rule by which each scatters a ray.

use crate::hittable::HitRecord;
use crate::interval::Interval;
use crate::ray::Ray;
use crate::scalar::{Scalar, ZERO};
use crate::vec3::Vec3;
use vstd::prelude::*;

verus! {

/// The scattering behaviour of a surface.
#[derive(Debug, Clone, Copy, PartialEq, Eq, Structural)]
pub enum MaterialType {
    /// Matte: scatters about the normal, in every direction.
    Lambertian,
    /// Mirror-like, blurred by `fuzz`.
    Metal,
    /// Clear: reflects or refracts.
    Dielectric,
    /// No known behaviour: swallows every ray.
    OtherMaterial,
}

/// A material: its kind and the parameters that the kind reads.
#[derive(Debug, Clone, Copy)]
pub struct Material {
    pub albedo: Vec3,
    pub mat_type: MaterialType,
    pub fuzz: Scalar,
    pub refraction_index: Scalar,
}

/// What became of a ray at a surface.
#[derive(Debug, Clone, Copy)]
pub enum Outcome {
    /// The surface swallowed the ray.
    Absorbed,
    /// The ray goes on as `ray`, its colour scaled by `attenuation`.
    Scattered { attenuation: Vec3, ray: Ray },
}

/// The arithmetic of one bounce, done by the caller for the kind of the
/// material that was hit. `n` is the normal of the hit record and `d` the
/// direction of the incoming ray.
#[derive(Debug, Clone, Copy)]
pub enum Bounce {
    /// For a Lambertian surface: `n` plus a random unit vector.
    Diffuse { direction: Vec3 },
    /// For a metal: the unit mirror image of `d` about `n` plus `fuzz` times
    /// a random unit vector, and the dot product of that sum with `n`.
    Mirror { direction: Vec3, facing: Scalar },
    /// For a dielectric, with `eta` its relative index at this face and
    /// `theta` the angle of incidence: the mirror image of the unit `d`, the
    /// refraction of the unit `d`, `eta * sin(theta)`, the Schlick
    /// reflectance at `cos(theta)`, and a uniform draw from `[0, 1)`.
    Glass {
        reflected: Vec3,
        refracted: Vec3,
        ratio_sine: Scalar,
        reflectance: Scalar,
        draw: Scalar,
    },
}

/// `fuzz` brought into `[0, 1]`: below 0 it is 0, from 1 on it is 1, and
/// what is not a number counts as 1.
pub open spec fn limit_fuzz(fuzz: Scalar) -> Scalar {
    if fuzz.spec_lt(Scalar::zero()) {
        Scalar::zero()
    } else if fuzz.spec_lt(Scalar::one()) {
        fuzz
    } else {
        Scalar::one()
    }
}

fn clamp_fuzz(fuzz: Scalar) -> (r: Scalar)
    ensures
        r == limit_fuzz(fuzz),
        Scalar::zero().spec_le(r),
        r.spec_le(Scalar::one()),
{
    if fuzz.lt(Scalar::zero()) {
        Scalar::zero()
    } else if fuzz.lt(Scalar::one()) {
        fuzz
    } else {
        Scalar::one()
    }
}

/// The colour whose channels are all 1.
pub open spec fn white() -> Vec3 {
    Vec3 { x: Scalar::one(), y: Scalar::one(), z: Scalar::one() }
}

/// A matte material of the given colour.
pub fn lambertian(albedo: Vec3) -> (m: Material)
    ensures
        m.albedo == albedo,
        m.mat_type == MaterialType::Lambertian,
        m.fuzz.bits == ZERO,
        m.refraction_index.bits == ZERO,
        m.wf(),
{
    Material {
        albedo,
        mat_type: MaterialType::Lambertian,
        fuzz: Scalar::zero(),
        refraction_index: Scalar::zero(),
    }
}

/// A metal of the given colour. Its fuzz is `fuzz` brought into `[0, 1]`.
pub fn metal(albedo: Vec3, fuzz: Scalar) -> (m: Material)
    ensures
        m.albedo == albedo,
        m.mat_type == MaterialType::Metal,
        m.fuzz == limit_fuzz(fuzz),
        m.refraction_index.bits == ZERO,
        m.wf(),
{
    Material {
        albedo,
        mat_type: MaterialType::Metal,
        fuzz: clamp_fuzz(fuzz),
        refraction_index: Scalar::zero(),
    }
}

/// A clear material of the given refractive index.
pub fn dielectric(refraction: Scalar) -> (m: Material)
    ensures
        m.albedo == Vec3::origin(),
        m.mat_type == MaterialType::Dielectric,
        m.fuzz.bits == ZERO,
        m.refraction_index == refraction,
        m.wf(),
{
    Material {
        albedo: Vec3::default(),
        mat_type: MaterialType::Dielectric,
        fuzz: Scalar::zero(),
        refraction_index: refraction,
    }
}

impl Default for Material {
    /// A black matte material.
    fn default() -> (m: Material)
        ensures
            m.albedo == Vec3::origin(),
            m.mat_type == MaterialType::Lambertian,
            m.fuzz.bits == ZERO,
            m.refraction_index.bits == ZERO,
            m.wf(),
    {
        Material {
            albedo: Vec3::default(),
            mat_type: MaterialType::Lambertian,
            fuzz: Scalar::zero(),
            refraction_index: Scalar::zero(),
        }
    }
}

impl Bounce {
    /// Whether this is the arithmetic that a material of kind `kind` asks
    /// for. A material of no known behaviour reads none and takes any.
    pub open spec fn spec_suits(&self, kind: MaterialType) -> bool {
        match kind {
            MaterialType::Lambertian => *self is Diffuse,
            MaterialType::Metal => *self is Mirror,
            MaterialType::Dielectric => *self is Glass,
            MaterialType::OtherMaterial => true,
        }
    }

    /// Whether this is the arithmetic that a material of kind `kind` asks for.
    #[verifier::when_used_as_spec(spec_suits)]
    pub fn suits(&self, kind: MaterialType) -> (r: bool)
        ensures
            r == self.spec_suits(kind),
    {
        match kind {
            MaterialType::Lambertian => matches!(self, Bounce::Diffuse { .. }),
            MaterialType::Metal => matches!(self, Bounce::Mirror { .. }),
            MaterialType::Dielectric => matches!(self, Bounce::Glass { .. }),
            MaterialType::OtherMaterial => true,
        }
    }
}

impl Material {
    /// The fuzz lies in `[0, 1]`.
    pub open spec fn wf(&self) -> bool {
        Scalar::zero().spec_le(self.fuzz) && self.fuzz.spec_le(Scalar::one())
    }

    /// The relative refractive index at a face: `reciprocal` on the way in,
    /// the material's own index on the way out.
    pub open spec fn spec_relative_index(&self, front_face: bool, reciprocal: Scalar) -> Scalar {
        if front_face {
            reciprocal
        } else {
            self.refraction_index
        }
    }

    /// `dot` capped at 1; what is not a number counts as 1.
    pub open spec fn spec_cosine(dot: Scalar) -> Scalar {
        if dot.spec_lt(Scalar::spec_one()) {
            dot
        } else {
            Scalar::spec_one()
        }
    }

    /// A Lambertian surface always scatters: along `direction`, or along
    /// the normal where `direction` has all but vanished. The attenuation
    /// is the albedo.
    pub open spec fn spec_scatter_lambertian(&self, rec: &HitRecord, direction: Vec3) -> Outcome {
        Outcome::Scattered {
            attenuation: self.albedo,
            ray: Ray {
                orig: rec.p,
                dir: if direction.spec_near_zero() {
                    rec.normal
                } else {
                    direction
                },
            },
        }
    }

    /// A metal scatters along `direction` where `facing` is above zero,
    /// and swallows the ray where it is not. The attenuation is the albedo.
    pub open spec fn spec_scatter_metal(&self, rec: &HitRecord, direction: Vec3, facing: Scalar) -> Outcome {
        if facing.spec_gt(Scalar::spec_zero()) {
            Outcome::Scattered { attenuation: self.albedo, ray: Ray { orig: rec.p, dir: direction } }
        } else {
            Outcome::Absorbed
        }
    }

    /// Whether a dielectric reflects: always where `ratio_sine` is above
    /// 1, and else where the reflectance is above the draw.
    pub open spec fn reflects(ratio_sine: Scalar, reflectance: Scalar, draw: Scalar) -> bool {
        ratio_sine.spec_gt(Scalar::spec_one()) || reflectance.spec_gt(draw)
    }

    /// A dielectric always scatters, without tint: along `reflected` where
    /// it reflects and along `refracted` where it does not.
    pub open spec fn spec_scatter_dielectric(
        rec: &HitRecord,
        reflected: Vec3,
        refracted: Vec3,
        ratio_sine: Scalar,
        reflectance: Scalar,
        draw: Scalar,
    ) -> Outcome {
        Outcome::Scattered {
            attenuation: white(),
            ray: Ray {
                orig: rec.p,
                dir: if Material::reflects(ratio_sine, reflectance, draw) {
                    reflected
                } else {
                    refracted
                },
            },
        }
    }

    /// What the material does with a ray that hit it at `rec`.
    pub open spec fn spec_scatter(&self, rec: &HitRecord, bounce: &Bounce) -> Outcome {
        match (self.mat_type, *bounce) {
            (MaterialType::Lambertian, Bounce::Diffuse { direction }) => self.spec_scatter_lambertian(
                rec,
                direction,
            ),
            (MaterialType::Metal, Bounce::Mirror { direction, facing }) => self.spec_scatter_metal(
                rec,
                direction,
                facing,
            ),
            (
                MaterialType::Dielectric,
                Bounce::Glass { reflected, refracted, ratio_sine, reflectance, draw },
            ) => Material::spec_scatter_dielectric(
                rec,
                reflected,
                refracted,
                ratio_sine,
                reflectance,
                draw,
            ),
            _ => Outcome::Absorbed,
        }
    }

    /// A material of the given kind. The fuzz is `fuzz` brought into `[0, 1]`.
    pub fn new(albedo: Vec3, mat_type: MaterialType, fuzz: Scalar, refr: Scalar) -> (m: Material)
        ensures
            m.albedo == albedo,
            m.mat_type == mat_type,
            m.fuzz == limit_fuzz(fuzz),
            m.refraction_index == refr,
            m.wf(),
    {
        Material { albedo, mat_type, fuzz: clamp_fuzz(fuzz), refraction_index: refr }
    }

    pub fn albedo(&self) -> (r: Vec3)
        ensures
            r == self.albedo,
    {
        self.albedo
    }

    pub fn mat_type(&self) -> (r: MaterialType)
        ensures
            r == self.mat_type,
    {
        self.mat_type
    }

    pub fn fuzz(&self) -> (r: Scalar)
        ensures
            r == self.fuzz,
    {
        self.fuzz
    }

    pub fn refraction_index(&self) -> (r: Scalar)
        ensures
            r == self.refraction_index,
    {
        self.refraction_index
    }

    /// The relative refractive index met by a ray at a face of a dielectric.
    /// `reciprocal` is one over the material's index, which holds where the
    /// ray enters through the front face; leaving through the back face it
    /// meets the index itself.
    #[verifier::when_used_as_spec(spec_relative_index)]
    pub fn relative_index(&self, front_face: bool, reciprocal: Scalar) -> (r: Scalar)
        ensures
            r == self.spec_relative_index(front_face, reciprocal),
    {
        if front_face {
            reciprocal
        } else {
            self.refraction_index
        }
    }

    /// The cosine of the angle of incidence. `dot` is the dot product of
    /// the reversed unit direction of the ray with the unit normal, which
    /// rounding may have carried beyond 1: the cosine is the smaller of
    /// `dot` and 1.
    pub fn cosine(dot: Scalar) -> (cos_theta: Scalar)
        ensures
            cos_theta == Material::spec_cosine(dot),
            cos_theta.spec_le(Scalar::spec_one()),
    {
        if dot.lt(Scalar::one()) {
            dot
        } else {
            Scalar::one()
        }
    }

    /// Scatters a ray off a Lambertian surface. `direction` is the normal
    /// plus a random unit vector. The ray always scatters, along
    /// `direction`, or along the bare normal where `direction` has all but
    /// vanished; the attenuation is the albedo.
    pub fn scatter_lambertian(&self, rec: &HitRecord, direction: &Vec3) -> (out: Outcome)
        ensures
            out == self.spec_scatter_lambertian(rec, *direction),
    {
        let mut scatter_direction = *direction;
        if scatter_direction.near_zero() {
            scatter_direction = rec.normal;
        }
        Outcome::Scattered { attenuation: self.albedo, ray: Ray::new(&rec.p, &scatter_direction) }
    }

    /// Scatters a ray off a metal. `direction` is the unit mirror image of
    /// the incoming direction plus `fuzz` times a random unit vector, and
    /// `facing` is the dot product of `direction` with the normal. The ray
    /// scatters only if `direction` still points away from the surface;
    /// the attenuation is the albedo.
    pub fn scatter_metal(&self, rec: &HitRecord, direction: &Vec3, facing: Scalar) -> (out: Outcome)
        ensures
            out == self.spec_scatter_metal(rec, *direction, facing),
    {
        if facing.gt(Scalar::zero()) {
            Outcome::Scattered { attenuation: self.albedo, ray: Ray::new(&rec.p, direction) }
        } else {
            Outcome::Absorbed
        }
    }

    /// Scatters a ray at the face of a dielectric. With `eta` the relative
    /// index at this face and `theta` the angle of incidence, `ratio_sine`
    /// is `eta * sin(theta)`, `reflectance` is the Schlick reflectance at
    /// `cos(theta)`, and `draw` is a uniform draw from `[0, 1)`. Where
    /// `ratio_sine` is above 1 no refraction exists and the ray reflects;
    /// else it reflects where the reflectance is above the draw, and
    /// refracts where it is not. It always scatters, and without tint.
    pub fn scatter_dielectric(
        rec: &HitRecord,
        reflected: &Vec3,
        refracted: &Vec3,
        ratio_sine: Scalar,
        reflectance: Scalar,
        draw: Scalar,
    ) -> (out: Outcome)
        ensures
            out == Material::spec_scatter_dielectric(
                rec,
                *reflected,
                *refracted,
                ratio_sine,
                reflectance,
                draw,
            ),
    {
        let one = Scalar::one();
        let attenuation = Vec3 { x: one, y: one, z: one };
        let cannot_refract = ratio_sine.gt(one);
        let direction = if cannot_refract || reflectance.gt(draw) {
            *reflected
        } else {
            *refracted
        };
        Outcome::Scattered { attenuation, ray: Ray::new(&rec.p, &direction) }
    }

    /// Scatters a ray that hit the material at `rec`, by the rule of the
    /// material's kind: see `scatter_lambertian`, `scatter_metal` and
    /// `scatter_dielectric`. A material of no known behaviour swallows the
    /// ray. `bounce` is the arithmetic that the material's kind asks for.
    #[verifier::when_used_as_spec(spec_scatter)]
    pub fn scatter(&self, rec: &HitRecord, bounce: &Bounce) -> (out: Outcome)
        requires
            bounce.spec_suits(self.mat_type),
        ensures
            out == self.spec_scatter(rec, bounce),
    {
        match (self.mat_type, *bounce) {
            (MaterialType::Lambertian, Bounce::Diffuse { direction }) => self.scatter_lambertian(
                rec,
                &direction,
            ),
            (MaterialType::Metal, Bounce::Mirror { direction, facing }) => self.scatter_metal(
                rec,
                &direction,
                facing,
            ),
            (
                MaterialType::Dielectric,
                Bounce::Glass { reflected, refracted, ratio_sine, reflectance, draw },
            ) => Material::scatter_dielectric(
                rec,
                &reflected,
                &refracted,
                ratio_sine,
                reflectance,
                draw,
            ),
            _ => Outcome::Absorbed,
        }
    }
}

/// Bringing a number into `[0, 1]` as a fuzz is clamping it to the range
/// from 0 to 1.
pub proof fn lemma_limit_fuzz_is_clamp(fuzz: Scalar)
    requires
        !fuzz.spec_is_nan(),
    ensures
        limit_fuzz(fuzz) == (Interval { min: Scalar::spec_zero(), max: Scalar::spec_one() }).spec_clamp(
            fuzz,
        ),
        (Interval { min: Scalar::spec_zero(), max: Scalar::spec_one() }).spec_contains(limit_fuzz(fuzz)),
{
}

/// A Lambertian surface gains no energy: whatever the hit and the diffuse
/// direction, it scatters with its albedo as the attenuation, so that no
/// channel of the attenuation is above that channel of the albedo.
pub proof fn lemma_lambertian_keeps_albedo(m: Material, rec: HitRecord, direction: Vec3)
    requires
        m.mat_type == MaterialType::Lambertian,
    ensures
        m.spec_scatter(&rec, &Bounce::Diffuse { direction }) matches Outcome::Scattered {
            attenuation,
            ray,
        } && attenuation == m.albedo && !attenuation.x.spec_gt(m.albedo.x) && !attenuation.y.spec_gt(
            m.albedo.y,
        ) && !attenuation.z.spec_gt(m.albedo.z),
{
}

/// A dielectric never swallows a ray, and a metal or a Lambertian surface
/// never tints beyond its albedo: where a material scatters, the
/// attenuation is white for a dielectric and the albedo for the others.
pub proof fn lemma_attenuation(m: Material, rec: HitRecord, bounce: Bounce)
    requires
        bounce.spec_suits(m.mat_type),
    ensures
        m.mat_type == MaterialType::Dielectric ==> m.spec_scatter(&rec, &bounce) is Scattered,
        m.mat_type == MaterialType::Lambertian ==> m.spec_scatter(&rec, &bounce) is Scattered,
        m.mat_type == MaterialType::OtherMaterial ==> m.spec_scatter(&rec, &bounce) is Absorbed,
        m.spec_scatter(&rec, &bounce) matches Outcome::Scattered { attenuation, ray } ==> ray.orig
            == rec.p && attenuation == if m.mat_type == MaterialType::Dielectric {
            white()
        } else {
            m.albedo
        },
{
}

} // verus!
