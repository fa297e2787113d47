//! Intersections and the selection of the nearest hit.
//!
//! An intersection records the parametric distance along a ray, the body it
//! was found on, the originating ray, and the world-space position and
//! normal at the hit — everything a shading call needs. A list of
//! intersections supports selecting the hit: the intersection with the
//! smallest nonnegative distance, ties resolved in favor of the first seen.
use vstd::prelude::*;

use crate::body::{body_normal3, Body, Scene};
use crate::point::Point;
use crate::ray::Ray;
use crate::scalar::{fx_add, fx_mul, Scalar, SCALE};
use crate::vector::Vector;

verus! {

/// A single ray-body intersection.
#[derive(Debug)]
pub struct Intersection {
    /// Parametric distance along the ray.
    pub t: Scalar,
    /// The body the hit was found on, for material and normal lookups.
    pub object: Body,
    /// The originating ray.
    pub ray: Ray,
    /// Where the hit lies in the world.
    pub world_pos: Point,
    /// The surface normal at the hit, in world space.
    pub world_normal: Vector,
    /// The outermost container the ray entered through, if any.
    pub top_level_object: Option<Scene>,
}

/// An intersection freshly derived from a distance, a body and a ray: the
/// position is the point that far along the ray and the normal is the body's
/// normal there.
pub open spec fn intersection_ok(
    i: Intersection,
    t: int,
    object: Body,
    ray: Ray,
    top: Option<Scene>,
) -> bool {
    &&& i.t@ == t
    &&& i.object == object
    &&& i.ray == ray
    &&& i.top_level_object == top
    &&& i.world_pos.x() == fx_add(ray.origin.x(), fx_mul(ray.direction.x(), t))
    &&& i.world_pos.y() == fx_add(ray.origin.y(), fx_mul(ray.direction.y(), t))
    &&& i.world_pos.z() == fx_add(ray.origin.z(), fx_mul(ray.direction.z(), t))
    &&& i.world_pos.w() == SCALE as int
    &&& (i.world_normal.x(), i.world_normal.y(), i.world_normal.z()) == body_normal3(
        object,
        i.world_pos.x(),
        i.world_pos.y(),
        i.world_pos.z(),
    )
    &&& i.world_normal.w() == 0
}

impl Intersection {
    /// A fresh intersection: the position and normal are computed from the
    /// distance, the body and the ray, and no container is recorded yet.
    pub fn new(t: Scalar, object: Body, ray: Ray) -> (r: Intersection)
        requires
            object.wf(),
            !object.is_group(),
        ensures
            intersection_ok(r, t@, object, ray, Option::None),
    {
        let world_pos = ray.at(t);
        let world_normal = object.normal(world_pos);
        Intersection { t, object, ray, world_pos, world_normal, top_level_object: None }
    }

    /// This intersection stamped with the container it was found through.
    pub fn with_top_level_object(self, scene: Scene) -> (r: Intersection)
        ensures
            r == (Intersection { top_level_object: Some(scene), ..self }),
    {
        Intersection { top_level_object: Some(scene), ..self }
    }
}

impl Clone for Intersection {
    fn clone(&self) -> (r: Self)
        ensures
            r == *self,
    {
        Intersection {
            t: self.t,
            object: self.object.clone(),
            ray: self.ray,
            world_pos: self.world_pos,
            world_normal: self.world_normal,
            top_level_object: match &self.top_level_object {
                Some(s) => Some(s.clone()),
                None => None,
            },
        }
    }
}

/// The index of the hit among the first `n` intersections: the smallest
/// nonnegative distance wins, and of two equal distances the earlier one is
/// kept.
pub open spec fn hit_upto(s: Seq<Intersection>, n: int) -> Option<int>
    decreases n,
{
    if n <= 0 {
        None
    } else {
        let prev = hit_upto(s, n - 1);
        if s[n - 1].t@ >= 0 && (prev is None || s[n - 1].t@ < s[prev->0].t@) {
            Some(n - 1)
        } else {
            prev
        }
    }
}

/// The index of the first intersection with nonnegative distance among the
/// first `n`.
pub open spec fn first_nonneg_upto(s: Seq<Intersection>, n: int) -> Option<int>
    decreases n,
{
    if n <= 0 {
        None
    } else {
        let prev = first_nonneg_upto(s, n - 1);
        if prev is Some {
            prev
        } else if s[n - 1].t@ >= 0 {
            Some(n - 1)
        } else {
            None
        }
    }
}

/// Selecting the nearest forward hit from a list of intersections.
pub trait IntersectionList {
    /// The intersections the list holds.
    spec fn ints(&self) -> Seq<Intersection>;

    /// The intersection with the smallest nonnegative distance, the first
    /// such when distances tie; nothing when every distance is negative.
    fn hit(&self) -> (r: Option<&Intersection>)
        ensures
            ({
                let sel = hit_upto(self.ints(), self.ints().len() as int);
                match r {
                    None => sel is None,
                    Some(x) => sel is Some && 0 <= sel->0 < self.ints().len() && *x
                        == self.ints()[sel->0],
                }
            }),
    ;

    /// The first intersection with nonnegative distance; the nearest forward
    /// hit when the list is already sorted by distance.
    fn hit_assume_sorted(&self) -> (r: Option<&Intersection>)
        ensures
            ({
                let sel = first_nonneg_upto(self.ints(), self.ints().len() as int);
                match r {
                    None => sel is None,
                    Some(x) => sel is Some && 0 <= sel->0 < self.ints().len() && *x
                        == self.ints()[sel->0],
                }
            }),
    ;
}

impl IntersectionList for Vec<Intersection> {
    open spec fn ints(&self) -> Seq<Intersection> {
        self@
    }

    fn hit(&self) -> (r: Option<&Intersection>) {
        let mut best: Option<usize> = None;
        let mut i: usize = 0;
        while i < self.len()
            invariant
                i <= self.len(),
                match best {
                    None => hit_upto(self@, i as int) is None,
                    Some(b) => b < i <= self@.len() && hit_upto(self@, i as int) == Some(b as int),
                },
            decreases self.len() - i,
        {
            let better = match best {
                None => !self[i].t.is_neg(),
                Some(b) => !self[i].t.is_neg() && self[i].t.lt(self[b].t),
            };
            if better {
                best = Some(i);
            }
            i = i + 1;
        }
        match best {
            None => None,
            Some(b) => Some(&self[b]),
        }
    }

    fn hit_assume_sorted(&self) -> (r: Option<&Intersection>) {
        let mut found: Option<usize> = None;
        let mut i: usize = 0;
        while i < self.len()
            invariant
                i <= self.len(),
                match found {
                    None => first_nonneg_upto(self@, i as int) is None,
                    Some(b) => b < i <= self@.len() && first_nonneg_upto(self@, i as int) == Some(
                        b as int,
                    ),
                },
            decreases self.len() - i,
        {
            let take = match found {
                None => !self[i].t.is_neg(),
                Some(_) => false,
            };
            if take {
                found = Some(i);
            }
            i = i + 1;
        }
        match found {
            None => None,
            Some(b) => Some(&self[b]),
        }
    }
}

/// Law: hit selection returns the intersection with the smallest nonnegative
/// distance and ignores every negative one; among equal smallest distances
/// the first seen is kept; a list with only negative distances yields no
/// hit.
pub proof fn lemma_hit_selection(s: Seq<Intersection>)
    ensures
        (hit_upto(s, s.len() as int) is None) <==> (forall|i: int|
            0 <= i < s.len() ==> (#[trigger] s[i]).t@ < 0),
        hit_upto(s, s.len() as int) matches Some(j) ==> 0 <= j < s.len() && s[j].t@ >= 0 && (
        forall|i: int| 0 <= i < s.len() && (#[trigger] s[i]).t@ >= 0 ==> s[j].t@ <= s[i].t@) && (
        forall|i: int| 0 <= i < j && (#[trigger] s[i]).t@ >= 0 ==> s[j].t@ < s[i].t@),
{
    lemma_hit_upto_props(s, s.len() as int);
}

proof fn lemma_hit_upto_props(s: Seq<Intersection>, n: int)
    requires
        n <= s.len(),
    ensures
        (hit_upto(s, n) is None) <==> (forall|i: int| 0 <= i < n ==> (#[trigger] s[i]).t@ < 0),
        hit_upto(s, n) matches Some(j) ==> 0 <= j < n && s[j].t@ >= 0 && (forall|i: int|
            0 <= i < n && (#[trigger] s[i]).t@ >= 0 ==> s[j].t@ <= s[i].t@) && (forall|i: int|
            0 <= i < j && (#[trigger] s[i]).t@ >= 0 ==> s[j].t@ < s[i].t@),
    decreases n,
{
    if n > 0 {
        lemma_hit_upto_props(s, n - 1);
    }
}

} // verus!
