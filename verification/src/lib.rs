//! The decision core of a sphere path tracer.
//!
//! Numbers are double-precision IEEE 754 values carried by their bit
//! patterns ([`scalar::Scalar`]). The library compares, classifies, negates
//! and quantises them exactly; sums, products, quotients and roots are
//! computed by the caller and handed in as arguments. Every rule of the
//! tracer that chooses between alternatives lives here with a contract.
//!
//! A caller renders an image in four steps.
//!
//! 1. It fills in a [`camera::Camera`], derives the [`camera::Frame`] from
//!    the settings, and hands it over with `Camera::initialize`, which
//!    refuses settings that are out of range and axes that do not span
//!    space.
//! 2. For each sample of each pixel it builds a ray, starting where
//!    `Camera::ray_origin` says, and follows it as a [`path::Path`].
//! 3. While the path has not ended, it solves the ray's quadratic against
//!    each sphere ([`sphere::Roots`]), lets `HittableList::hit` find the
//!    nearest hit, completes the record with `Sphere::hit`, works out the
//!    [`material::Bounce`] for the material that was hit, lets
//!    `Material::scatter` decide what becomes of the ray, and passes the
//!    answer to `Path::advance`.
//! 4. It multiplies the path's attenuations into the light at its end,
//!    averages the samples of each pixel, and lets `Camera::render` write
//!    the image.

pub mod scalar;
pub mod rounding;
pub mod vec3;
pub mod interval;
pub mod ray;
pub mod material;
pub mod hittable;
pub mod sphere;
pub mod hittable_list;
pub mod color;
pub mod path;
pub mod camera;
