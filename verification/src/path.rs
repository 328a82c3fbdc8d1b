//! The life of one light path: how far it may bounce, and what ends it.

use crate::material::Outcome;
use crate::ray::Ray;
use crate::vec3::Vec3;
use vstd::prelude::*;

verus! {

/// The light at the end of a path.
#[derive(Debug, Clone, Copy, PartialEq, Eq, Structural)]
pub enum Light {
    /// None: the path ran out of bounces or was swallowed by a surface.
    Black,
    /// The sky along the last ray, which left the scene.
    Sky,
}

/// A light path under way. The colour that it gathers is the light at its
/// end, scaled channel by channel by the attenuation of each bounce, the
/// last bounce first:
/// `attenuations[0] * (attenuations[1] * (... * light))`.
pub struct Path {
    /// The ray to follow next.
    pub ray: Ray,
    /// How many more bounces the path may take.
    pub depth: usize,
    /// The attenuation of each bounce taken so far, in order.
    pub attenuations: Vec<Vec3>,
    /// The light at the end, once the path has ended.
    pub light: Option<Light>,
}

/// A light path as a value.
pub struct PathState {
    pub ray: Ray,
    pub depth: nat,
    pub attenuations: Seq<Vec3>,
    pub light: Option<Light>,
}

impl PathState {
    /// A path that starts along `ray` and may bounce `max_depth` times.
    /// With no bounce allowed it has ended before it began.
    pub open spec fn start(ray: Ray, max_depth: nat) -> PathState {
        PathState {
            ray,
            depth: max_depth,
            attenuations: Seq::empty(),
            light: if max_depth == 0 {
                Some(Light::Black)
            } else {
                None
            },
        }
    }

    /// Whether the path has ended.
    pub open spec fn done(self) -> bool {
        self.light is Some
    }

    /// A path that was started with a budget of `max_depth` bounces has
    /// spent one for each attenuation it holds, and has ended if none is
    /// left.
    pub open spec fn wf(self, max_depth: nat) -> bool {
        &&& self.attenuations.len() + self.depth == max_depth
        &&& self.depth == 0 ==> self.done()
    }

    /// The path after the scene has answered for its ray: `None` where the
    /// ray left the scene, else what the surface did with it. A miss ends
    /// the path in the sky, and a surface that swallows the ray ends it in
    /// black. A surface that scatters the ray adds its attenuation and
    /// spends one bounce; the path goes on along the scattered ray, or ends
    /// in black if that was its last bounce. A path that has ended stays as
    /// it is, and one without a bounce left ends in black whatever the
    /// answer.
    pub open spec fn advance(self, hit: Option<Outcome>) -> PathState {
        if self.done() {
            self
        } else if self.depth == 0 {
            PathState { light: Some(Light::Black), ..self }
        } else {
            match hit {
                None => PathState { light: Some(Light::Sky), ..self },
                Some(Outcome::Absorbed) => PathState { light: Some(Light::Black), ..self },
                Some(Outcome::Scattered { attenuation, ray }) => PathState {
                    ray,
                    depth: (self.depth - 1) as nat,
                    attenuations: self.attenuations.push(attenuation),
                    light: if self.depth == 1 {
                        Some(Light::Black)
                    } else {
                        None
                    },
                },
            }
        }
    }

    /// The path after a series of answers, taken in order.
    pub open spec fn run(self, hits: Seq<Option<Outcome>>) -> PathState
        decreases hits.len(),
    {
        if hits.len() == 0 {
            self
        } else {
            self.advance(hits[0]).run(hits.drop_first())
        }
    }
}

impl View for Path {
    type V = PathState;

    open spec fn view(&self) -> PathState {
        PathState {
            ray: self.ray,
            depth: self.depth as nat,
            attenuations: self.attenuations@,
            light: self.light,
        }
    }
}

impl Path {
    /// A path that starts along `ray` and may bounce `max_depth` times.
    /// With no bounce allowed it has ended before it began, in black and
    /// with no attenuation, whatever the scene holds.
    pub fn new(ray: &Ray, max_depth: usize) -> (path: Path)
        ensures
            path@ == PathState::start(*ray, max_depth as nat),
            path@.wf(max_depth as nat),
            max_depth == 0 ==> path.light == Some(Light::Black) && path.attenuations@.len() == 0,
    {
        Path {
            ray: *ray,
            depth: max_depth,
            attenuations: Vec::new(),
            light: if max_depth == 0 {
                Some(Light::Black)
            } else {
                None
            },
        }
    }

    /// Whether the path has ended. While it has not, its ray is to be
    /// tested against the scene and the answer passed to `advance`.
    pub fn done(&self) -> (r: bool)
        ensures
            r == self@.done(),
    {
        self.light.is_some()
    }

    /// Takes the scene's answer for the path's ray: `None` where the ray
    /// left the scene, else what the surface did with it.
    pub fn advance(&mut self, hit: Option<Outcome>)
        ensures
            final(self)@ == old(self)@.advance(hit),
    {
        if self.light.is_some() {
            return ;
        }
        if self.depth == 0 {
            self.light = Some(Light::Black);
            return ;
        }
        match hit {
            None => {
                self.light = Some(Light::Sky);
            },
            Some(Outcome::Absorbed) => {
                self.light = Some(Light::Black);
            },
            Some(Outcome::Scattered { attenuation, ray }) => {
                self.attenuations.push(attenuation);
                self.ray = ray;
                self.depth = self.depth - 1;
                if self.depth == 0 {
                    self.light = Some(Light::Black);
                }
            },
        }
    }
}

/// With no bounce allowed, a path gathers black whatever the scene answers:
/// it has ended in black from the start, holds no attenuation, and no
/// answer changes it.
pub proof fn lemma_no_depth_is_black(ray: Ray, hits: Seq<Option<Outcome>>)
    ensures
        PathState::start(ray, 0).run(hits) == PathState::start(ray, 0),
        PathState::start(ray, 0).light == Some(Light::Black),
        PathState::start(ray, 0).attenuations.len() == 0,
    decreases hits.len(),
{
    if hits.len() > 0 {
        lemma_no_depth_is_black(ray, hits.drop_first());
    }
}

/// A path that has ended stays as it is.
pub proof fn lemma_ended_path_stays(path: PathState, hits: Seq<Option<Outcome>>)
    requires
        path.done(),
    ensures
        path.run(hits) == path,
    decreases hits.len(),
{
    if hits.len() > 0 {
        lemma_ended_path_stays(path, hits.drop_first());
    }
}

/// A path never takes more bounces than it was allowed: whatever the
/// answers, the bounces taken and the bounces left add up to the budget.
/// It has ended once it was given as many answers as it had bounces left.
pub proof fn lemma_path_keeps_budget(path: PathState, max_depth: nat, hits: Seq<Option<Outcome>>)
    requires
        path.wf(max_depth),
    ensures
        path.run(hits).wf(max_depth),
        path.run(hits).attenuations.len() <= max_depth,
        hits.len() >= path.depth ==> path.run(hits).done(),
    decreases hits.len(),
{
    if hits.len() > 0 {
        let next = path.advance(hits[0]);
        assert(next.wf(max_depth));
        lemma_path_keeps_budget(next, max_depth, hits.drop_first());
        if next.done() {
            lemma_ended_path_stays(next, hits.drop_first());
        }
    }
}

} // verus!
