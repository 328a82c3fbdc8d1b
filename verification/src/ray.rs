//! Rays: an origin and a direction.

use crate::vec3::Vec3;
use vstd::prelude::*;

verus! {

/// A half-line from `orig` along `dir`. The direction is kept as given, not
/// normalised.
#[derive(Clone, Copy, Debug)]
pub struct Ray {
    pub orig: Vec3,
    pub dir: Vec3,
}

impl Ray {
    /// Component-wise IEEE equality of origin and direction.
    pub open spec fn same(self, other: Ray) -> bool {
        self.orig.same(other.orig) && self.dir.same(other.dir)
    }

    pub fn new(origin: &Vec3, direction: &Vec3) -> (r: Ray)
        ensures
            r.orig == *origin,
            r.dir == *direction,
    {
        Ray { orig: *origin, dir: *direction }
    }

    pub fn origin(&self) -> (v: Vec3)
        ensures
            v == self.orig,
    {
        self.orig
    }

    pub fn direction(&self) -> (v: Vec3)
        ensures
            v == self.dir,
    {
        self.dir
    }
}

impl PartialEq for Ray {
    /// Component-wise IEEE equality of origin and direction.
    fn eq(&self, other: &Ray) -> (r: bool) {
        self.orig == other.orig && self.dir == other.dir
    }
}

impl vstd::std_specs::cmp::PartialEqSpecImpl for Ray {
    open spec fn obeys_eq_spec() -> bool {
        true
    }

    open spec fn eq_spec(&self, other: &Ray) -> bool {
        self.same(*other)
    }
}

} // verus!
