//! A scene: a list of spheres, searched for the nearest hit.

use crate::interval::Interval;
use crate::scalar::Scalar;
use crate::sphere::{Roots, Sphere};
use vstd::prelude::*;

verus! {

/// The spheres of a scene, in the order in which they were added.
pub struct HittableList {
    pub objects: Vec<Sphere>,
}

/// The member of a scene that a ray hits first, and the ray parameter there.
#[derive(Debug, Clone, Copy)]
pub struct Nearest {
    pub index: usize,
    pub t: Scalar,
}

/// The range that is left to search once `best` was found: `ray_t` with the
/// best ray parameter as its upper bound.
pub open spec fn narrowed(ray_t: Interval, best: Option<Nearest>) -> Interval {
    match best {
        Some(b) => Interval { min: ray_t.min, max: b.t },
        None => ray_t,
    }
}

/// The best hit among the first `n` members: each member in turn is asked
/// for its hit within the range narrowed by the best hit before it, and
/// replaces that one where it has one.
pub open spec fn scan(roots: Seq<Roots>, ray_t: Interval, n: nat) -> Option<Nearest>
    decreases n,
{
    if n == 0 {
        None
    } else {
        let before = scan(roots, ray_t, (n - 1) as nat);
        match roots[n - 1].spec_select(narrowed(ray_t, before)) {
            Some(t) => Some(Nearest { index: (n - 1) as usize, t }),
            None => before,
        }
    }
}

impl HittableList {
    /// A scene of the given spheres.
    pub fn new(objects: Vec<Sphere>) -> (list: HittableList)
        ensures
            list.objects@ == objects@,
    {
        HittableList { objects }
    }

    /// Adds a sphere behind the others.
    pub fn add(&mut self, object: Sphere)
        ensures
            final(self).objects@ == old(self).objects@.push(object),
    {
        self.objects.push(object);
    }

    /// Removes every sphere.
    pub fn clear(&mut self)
        ensures
            final(self).objects@ == Seq::<Sphere>::empty(),
    {
        self.objects.clear();
    }

    /// The number of spheres.
    pub fn len(&self) -> (n: usize)
        ensures
            n == self.objects@.len(),
    {
        self.objects.len()
    }

    /// The sphere at `index`.
    pub fn get(&self, index: usize) -> (s: &Sphere)
        requires
            index < self.objects@.len(),
        ensures
            *s == self.objects@[index as int],
    {
        &self.objects[index]
    }

    /// The nearest hit of a ray on the scene within `ray_t`. `roots[i]` is
    /// the ray's quadratic against member `i`. The members are scanned in
    /// order, and the upper bound of the search shrinks to the best ray
    /// parameter found so far, so that a later member replaces an earlier
    /// one only by being strictly nearer.
    pub fn hit(&self, roots: &Vec<Roots>, ray_t: Interval) -> (best: Option<Nearest>)
        requires
            roots@.len() == self.objects@.len(),
        ensures
            best == scan(roots@, ray_t, roots@.len()),
            best matches Some(b) ==> b.index < self.objects@.len() && ray_t.spec_surrounds(b.t),
    {
        let mut best: Option<Nearest> = None;
        let mut closest_so_far = ray_t.max;
        let mut i: usize = 0;
        while i < roots.len()
            invariant
                i <= roots@.len(),
                roots@.len() == self.objects@.len(),
                best == scan(roots@, ray_t, i as nat),
                narrowed(ray_t, best) == (Interval { min: ray_t.min, max: closest_so_far }),
                best matches Some(b) ==> b.index < i && ray_t.spec_surrounds(b.t),
            decreases roots@.len() - i,
        {
            let window = Interval { min: ray_t.min, max: closest_so_far };
            match roots[i].select(window) {
                Some(t) => {
                    best = Some(Nearest { index: i, t });
                    closest_so_far = t;
                },
                None => {},
            }
            i += 1;
        }
        best
    }
}

/// Where every member's far root is not below its near root, the scan
/// reports the minimum of the members' own hits within `ray_t`: it reports
/// none exactly when no member is hit, and otherwise a member's own hit
/// that no other member's hit is below. Among members hit at the same ray
/// parameter it reports the first.
pub proof fn lemma_scan_reports_nearest(roots: Seq<Roots>, ray_t: Interval, n: nat)
    requires
        n <= roots.len() <= usize::MAX,
        forall|i: int| 0 <= i < n ==> (#[trigger] roots[i]).ordered(),
    ensures
        match scan(roots, ray_t, n) {
            None => forall|i: int| 0 <= i < n ==> (#[trigger] roots[i]).spec_select(ray_t) is None,
            Some(b) => {
                &&& b.index < n
                &&& roots[b.index as int].spec_select(ray_t) == Some(b.t)
                &&& forall|i: int|
                    0 <= i < n ==> match (#[trigger] roots[i]).spec_select(ray_t) {
                        Some(t) => b.t.spec_le(t) && (i < b.index ==> b.t.spec_lt(t)),
                        None => true,
                    }
            },
        },
    decreases n,
{
    if n > 0 {
        lemma_scan_reports_nearest(roots, ray_t, (n - 1) as nat);
        let before = scan(roots, ray_t, (n - 1) as nat);
        match before {
            Some(b) => {
                crate::sphere::lemma_select_narrowed(roots[n - 1], ray_t, b.t);
            },
            None => {},
        }
    }
}

/// The order of the members does not matter to the ray parameter that is
/// reported: two scenes that hold the same root pairs, all in order,
/// report hits at the same ray parameter, or both report none.
pub proof fn lemma_scan_ignores_order(a: Seq<Roots>, b: Seq<Roots>, ray_t: Interval)
    requires
        a.len() <= usize::MAX,
        b.len() <= usize::MAX,
        forall|i: int| 0 <= i < a.len() ==> (#[trigger] a[i]).ordered(),
        forall|i: int| 0 <= i < a.len() ==> exists|j: int| 0 <= j < b.len() && b[j] == #[trigger] a[i],
        forall|j: int| 0 <= j < b.len() ==> exists|i: int| 0 <= i < a.len() && a[i] == #[trigger] b[j],
    ensures
        match (scan(a, ray_t, a.len()), scan(b, ray_t, b.len())) {
            (None, None) => true,
            (Some(x), Some(y)) => x.t.same(y.t),
            _ => false,
        },
{
    assert forall|j: int| 0 <= j < b.len() implies (#[trigger] b[j]).ordered() by {
        let i = choose|i: int| 0 <= i < a.len() && a[i] == b[j];
        assert(a[i].ordered());
    }
    lemma_scan_reports_nearest(a, ray_t, a.len());
    lemma_scan_reports_nearest(b, ray_t, b.len());
    match scan(a, ray_t, a.len()) {
        Some(x) => {
            let j = choose|j: int| 0 <= j < b.len() && b[j] == a[x.index as int];
            assert(b[j].spec_select(ray_t) == Some(x.t));
        },
        None => {},
    }
    match scan(b, ray_t, b.len()) {
        Some(y) => {
            let i = choose|i: int| 0 <= i < a.len() && a[i] == b[y.index as int];
            assert(a[i].spec_select(ray_t) == Some(y.t));
        },
        None => {},
    }
}

} // verus!
