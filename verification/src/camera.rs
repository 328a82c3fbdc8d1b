//! The camera: its configuration, the checks on it, and the image it writes.

use crate::color::{ppm_body, ppm_header, write_color, write_header, Pixel};
use crate::scalar::{Scalar, ONE, ZERO};
use crate::vec3::Vec3;
use vstd::prelude::*;

verus! {

/// The pattern of -1.
pub const MINUS_ONE: u64 = 0xbff0_0000_0000_0000;

/// The pattern of 0.1.
pub const TENTH: u64 = 0x3fb9_9999_9999_999a;

/// The pattern of 10.
pub const TEN: u64 = 0x4024_0000_0000_0000;

/// The pattern of 90.
pub const NINETY: u64 = 0x4056_8000_0000_0000;

/// The pattern of 180.
pub const HALF_TURN: u64 = 0x4066_8000_0000_0000;

/// What is wrong with a camera's configuration.
#[derive(Debug, Clone, Copy, PartialEq, Eq, Structural)]
pub enum ConfigError {
    /// The aspect ratio is not above zero.
    AspectRatio,
    /// The image has no columns.
    ImageWidth,
    /// No sample is taken per pixel.
    SamplesPerPixel,
    /// The vertical field of view is not strictly between 0 and 180 degrees.
    FieldOfView,
    /// The defocus angle is below zero, or not a number.
    DefocusAngle,
    /// The focus distance is not above zero.
    FocusDistance,
    /// The camera's axes do not span space: it looks along its up vector,
    /// or from the very point it looks at.
    Basis,
}

/// The geometry that follows from a configuration, worked out by the
/// caller. With `h` the image height and `theta` the vertical field of view
/// in radians: `w` is the unit vector from `look_at` to `look_from`, `u` the
/// unit vector along `v_up x w`, and `v` is `w x u`. The viewport is
/// `2 tan(theta / 2) focus_dist` high and `image_width / h` times as wide;
/// `pixel_delta_u` is its width along `u` over `image_width`, and
/// `pixel_delta_v` its height along `-v` over `h`. `pixel00_loc` is the
/// centre of the upper left pixel. The defocus disk has the radius
/// `focus_dist tan(defocus_angle / 2)` along `u` and along `v`.
#[derive(Debug, Clone, Copy)]
pub struct Frame {
    /// One over the number of samples per pixel.
    pub pixel_samples_scale: Scalar,
    pub center: Vec3,
    pub pixel00_loc: Vec3,
    pub pixel_delta_u: Vec3,
    pub pixel_delta_v: Vec3,
    pub u: Vec3,
    pub v: Vec3,
    pub w: Vec3,
    pub defocus_disk_u: Vec3,
    pub defocus_disk_v: Vec3,
}

/// A camera: what it was told, and what follows from that.
#[derive(Debug)]
pub struct Camera {
    /// Image width over height.
    pub aspect_ratio: Scalar,
    /// Image width in pixels.
    pub image_width: u64,
    /// Random samples per pixel.
    pub samples_per_pixel: usize,
    /// Bounces that one path may take.
    pub max_depth: usize,
    /// Vertical field of view, in degrees.
    pub vfov: Scalar,
    pub look_from: Vec3,
    pub look_at: Vec3,
    pub v_up: Vec3,
    /// The angle of the cone from the focus point to the lens, in degrees.
    pub defocus_angle: Scalar,
    /// The distance from `look_from` to the plane in perfect focus.
    pub focus_dist: Scalar,
    /// Image height in pixels, set by `initialize`.
    pub image_height: u64,
    /// The derived geometry, set by `initialize`.
    pub frame: Frame,
}

impl Frame {
    /// A frame of zeros, with the given scale.
    pub open spec fn blank(pixel_samples_scale: Scalar) -> Frame {
        Frame {
            pixel_samples_scale,
            center: Vec3::origin(),
            pixel00_loc: Vec3::origin(),
            pixel_delta_u: Vec3::origin(),
            pixel_delta_v: Vec3::origin(),
            u: Vec3::origin(),
            v: Vec3::origin(),
            w: Vec3::origin(),
            defocus_disk_u: Vec3::origin(),
            defocus_disk_v: Vec3::origin(),
        }
    }

    /// The three axes span space as far as can be told without arithmetic:
    /// each has finite components that are not all zero.
    pub open spec fn spans(&self) -> bool {
        self.u.spec_is_axis() && self.v.spec_is_axis() && self.w.spec_is_axis()
    }
}

impl Default for Camera {
    /// A square image of 100 pixels a side, 10 samples per pixel and 10
    /// bounces per path, seen from the origin along `-z` with `y` up, with
    /// a field of view of 90 degrees, no defocus, and focus at distance 10.
    fn default() -> (cam: Camera)
        ensures
            cam.aspect_ratio.bits == ONE,
            cam.image_width == 100,
            cam.samples_per_pixel == 10,
            cam.max_depth == 10,
            cam.vfov.bits == NINETY,
            cam.look_from == Vec3::origin(),
            cam.look_at == (Vec3 { z: Scalar { bits: MINUS_ONE }, ..Vec3::origin() }),
            cam.v_up == (Vec3 { y: Scalar { bits: ONE }, ..Vec3::origin() }),
            cam.defocus_angle.bits == ZERO,
            cam.focus_dist.bits == TEN,
            cam.image_height == 100,
            cam.frame == Frame::blank(Scalar { bits: TENTH }),
            cam.spec_validate() is Ok,
            cam.wf(),
    {
        let zero = Vec3::default();
        Camera {
            aspect_ratio: Scalar::one(),
            image_width: 100,
            samples_per_pixel: 10,
            max_depth: 10,
            vfov: Scalar { bits: NINETY },
            look_from: zero,
            look_at: Vec3 { x: Scalar::zero(), y: Scalar::zero(), z: Scalar { bits: MINUS_ONE } },
            v_up: Vec3 { x: Scalar::zero(), y: Scalar::one(), z: Scalar::zero() },
            defocus_angle: Scalar::zero(),
            focus_dist: Scalar { bits: TEN },
            image_height: 100,
            frame: Frame {
                pixel_samples_scale: Scalar { bits: TENTH },
                center: zero,
                pixel00_loc: zero,
                pixel_delta_u: zero,
                pixel_delta_v: zero,
                u: zero,
                v: zero,
                w: zero,
                defocus_disk_u: zero,
                defocus_disk_v: zero,
            },
        }
    }
}

impl Camera {
    /// The first thing wrong with the configuration, if anything is. The
    /// settings are looked at in the order of the variants of
    /// [`ConfigError`]; the axes are not among them.
    pub open spec fn spec_validate(&self) -> Result<(), ConfigError> {
        if !self.aspect_ratio.spec_gt(Scalar::spec_zero()) {
            Err(ConfigError::AspectRatio)
        } else if self.image_width == 0 {
            Err(ConfigError::ImageWidth)
        } else if self.samples_per_pixel == 0 {
            Err(ConfigError::SamplesPerPixel)
        } else if !(self.vfov.spec_gt(Scalar::spec_zero()) && self.vfov.spec_lt(
            Scalar { bits: HALF_TURN },
        )) {
            Err(ConfigError::FieldOfView)
        } else if !self.defocus_angle.spec_ge(Scalar::spec_zero()) {
            Err(ConfigError::DefocusAngle)
        } else if !self.focus_dist.spec_gt(Scalar::spec_zero()) {
            Err(ConfigError::FocusDistance)
        } else {
            Ok(())
        }
    }

    /// The image has a row.
    pub open spec fn wf(&self) -> bool {
        self.image_height >= 1
    }

    /// The image height for a `quotient` of image width over aspect ratio:
    /// the quotient rounded to the nearest whole number, and 1 at least.
    pub open spec fn spec_height_for(quotient: Scalar) -> u64 {
        if quotient.spec_round_to_u64() < 1 {
            1
        } else {
            quotient.spec_round_to_u64()
        }
    }

    /// Whether rays start at the camera's centre: the defocus angle is not
    /// above zero.
    pub open spec fn spec_pinhole(&self) -> bool {
        self.defocus_angle.spec_le(Scalar::spec_zero())
    }

    /// The configuration of `self` with the height and frame given.
    pub open spec fn with_frame(self, image_height: u64, frame: Frame) -> Camera {
        Camera { image_height, frame, ..self }
    }

    /// Checks the settings: the aspect ratio, the field of view and the
    /// focus distance must be above zero, the field of view below 180
    /// degrees, the defocus angle not below zero, and the image must have
    /// a column and a sample per pixel.
    #[verifier::when_used_as_spec(spec_validate)]
    pub fn validate(&self) -> (r: Result<(), ConfigError>)
        ensures
            r == self.spec_validate(),
    {
        let zero = Scalar::zero();
        if !self.aspect_ratio.gt(zero) {
            Err(ConfigError::AspectRatio)
        } else if self.image_width == 0 {
            Err(ConfigError::ImageWidth)
        } else if self.samples_per_pixel == 0 {
            Err(ConfigError::SamplesPerPixel)
        } else if !(self.vfov.gt(zero) && self.vfov.lt(Scalar { bits: HALF_TURN })) {
            Err(ConfigError::FieldOfView)
        } else if !self.defocus_angle.ge(zero) {
            Err(ConfigError::DefocusAngle)
        } else if !self.focus_dist.gt(zero) {
            Err(ConfigError::FocusDistance)
        } else {
            Ok(())
        }
    }

    /// The image height for a `quotient` of image width over aspect ratio:
    /// the quotient rounded to the nearest whole number, and 1 at least.
    pub fn height_for(quotient: Scalar) -> (h: u64)
        ensures
            h == Camera::spec_height_for(quotient),
            h >= 1,
    {
        let h: u64 = quotient.round_to_u64();
        if h < 1 {
            1
        } else {
            h
        }
    }

    /// Takes over the geometry that the caller derived from the settings.
    /// `quotient` is the image width over the aspect ratio, and `frame` is
    /// the geometry for the height that `height_for` gives for it.
    ///
    /// Fails, and leaves the camera as it was, where `validate` fails, with
    /// the error of `validate`; and where the settings pass but the axes of
    /// `frame` do not span space, with [`ConfigError::Basis`].
    pub fn initialize(&mut self, quotient: Scalar, frame: &Frame) -> (r: Result<(), ConfigError>)
        ensures
            r == match old(self).spec_validate() {
                Err(e) => Err(e),
                Ok(()) => if frame.spans() {
                    Ok(())
                } else {
                    Err(ConfigError::Basis)
                },
            },
            r is Ok ==> *final(self) == old(self).with_frame(Camera::spec_height_for(quotient), *frame),
            r is Ok ==> final(self).wf(),
            r is Err ==> *final(self) == *old(self),
    {
        match self.validate() {
            Err(e) => {
                return Err(e);
            },
            Ok(()) => {},
        }
        if !(frame.u.is_axis() && frame.v.is_axis() && frame.w.is_axis()) {
            return Err(ConfigError::Basis);
        }
        self.image_height = Camera::height_for(quotient);
        self.frame = *frame;
        Ok(())
    }

    /// Whether the camera is a pinhole camera, whose rays all start at its
    /// centre.
    #[verifier::when_used_as_spec(spec_pinhole)]
    pub fn pinhole(&self) -> (r: bool)
        ensures
            r == self.spec_pinhole(),
    {
        self.defocus_angle.le(Scalar::zero())
    }

    /// Where a ray starts: at the centre for a pinhole camera, and at
    /// `lens_point`, a random point of the defocus disk, for any other.
    pub fn ray_origin(&self, lens_point: &Vec3) -> (origin: Vec3)
        ensures
            origin == if self.spec_pinhole() {
                self.frame.center
            } else {
                *lens_point
            },
    {
        if self.pinhole() {
            self.frame.center
        } else {
            *lens_point
        }
    }

    /// The image as a plain-text pixmap: the head, then one line for each
    /// pixel. `pixels` holds the pixels row by row from the top, and from
    /// left to right within a row.
    pub fn render(&self, pixels: &Vec<Pixel>) -> (out: Vec<u8>)
        requires
            pixels@.len() == self.image_width * self.image_height,
        ensures
            out@ == ppm_header(self.image_width as nat, self.image_height as nat) + ppm_body(
                pixels@,
                pixels@.len(),
            ),
    {
        let mut out: Vec<u8> = Vec::new();
        write_header(&mut out, self.image_width, self.image_height);
        let ghost head = out@;
        assert(head =~= ppm_header(self.image_width as nat, self.image_height as nat));
        let mut k: usize = 0;
        while k < pixels.len()
            invariant
                k <= pixels@.len(),
                out@ == head + ppm_body(pixels@, k as nat),
            decreases pixels@.len() - k,
        {
            write_color(&mut out, &pixels[k]);
            proof {
                assert(out@ =~= head + ppm_body(pixels@, (k + 1) as nat));
            }
            k += 1;
        }
        out
    }
}

} // verus!
