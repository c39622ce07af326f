//! A scene: surfaces searched one after the other.

use crate::hittable::{HitRecord, Hittable};
use crate::interval::Interval;
use crate::ray::Ray;
use crate::scalar::Scalar;
use vstd::prelude::*;

verus! {

pub struct HittableList<H: Hittable> {
    pub objects: Vec<H>,
}

/// The upper end of the search after `best`: the parameter of the best hit
/// so far, or the end of the range while there is none.
pub open spec fn ceiling(best: Option<HitRecord>, ray_t: Interval) -> Scalar {
    match best {
        Some(h) => h.t,
        None => ray_t.max,
    }
}

/// The best hit among the first `n` surfaces: each surface is asked for a
/// hit closer than the best before it, and a hit it reports replaces that.
pub open spec fn closest_among<H: Hittable>(objects: Seq<H>, r: Ray, ray_t: Interval, n: nat) -> Option<
    HitRecord,
>
    decreases n,
{
    if n == 0 {
        None
    } else {
        let best = closest_among(objects, r, ray_t, (n - 1) as nat);
        let within = Interval { min: ray_t.min, max: ceiling(best, ray_t) };
        match objects[n - 1].hit_spec(r, within) {
            Some(h) => Some(h),
            None => best,
        }
    }
}

impl<H: Hittable> HittableList<H> {
    pub fn new() -> (list: HittableList<H>)
        ensures
            list.objects@.len() == 0,
    {
        HittableList { objects: Vec::new() }
    }

    pub fn from_object(object: H) -> (list: HittableList<H>)
        ensures
            list.objects@ == seq![object],
    {
        let mut list: HittableList<H> = HittableList::new();
        list.add(object);
        list
    }

    pub fn clear(&mut self)
        ensures
            final(self).objects@.len() == 0,
    {
        self.objects.clear();
    }

    pub fn add(&mut self, object: H)
        ensures
            final(self).objects@ == old(self).objects@.push(object),
    {
        self.objects.push(object);
    }

    pub fn len(&self) -> (n: usize)
        ensures
            n == self.objects@.len(),
    {
        self.objects.len()
    }
}

impl<H: Hittable> Hittable for HittableList<H> {
    open spec fn hit_spec(&self, r: Ray, ray_t: Interval) -> Option<HitRecord> {
        closest_among(self.objects@, r, ray_t, self.objects@.len())
    }

    proof fn lemma_hit_in_range(&self, r: Ray, ray_t: Interval) {
        lemma_closest_in_range(self.objects@, r, ray_t, self.objects@.len());
    }

    fn hit(&self, r: &Ray, ray_t: Interval) -> (rec: Option<HitRecord>) {
        let mut closest_hit: Option<HitRecord> = None;
        let mut closest_so_far: Scalar = ray_t.max;
        let mut i: usize = 0;
        while i < self.objects.len()
            invariant
                i <= self.objects@.len(),
                closest_hit == closest_among(self.objects@, *r, ray_t, i as nat),
                closest_so_far == ceiling(closest_hit, ray_t),
            decreases self.objects@.len() - i,
        {
            let found = self.objects[i].hit(r, Interval::new(ray_t.min, closest_so_far));
            if let Some(hit_rec) = found {
                closest_so_far = hit_rec.t;
                closest_hit = Some(hit_rec);
            }
            i += 1;
        }
        closest_hit
    }
}

/// The best hit among the first `n` surfaces lies strictly inside the range
/// of the search.
pub proof fn lemma_closest_in_range<H: Hittable>(objects: Seq<H>, r: Ray, ray_t: Interval, n: nat)
    requires
        n <= objects.len(),
    ensures
        closest_among(objects, r, ray_t, n) matches Some(h) ==> ray_t.surrounds_spec(h.t),
    decreases n,
{
    if n > 0 {
        lemma_closest_in_range(objects, r, ray_t, (n - 1) as nat);
        let best = closest_among(objects, r, ray_t, (n - 1) as nat);
        let within = Interval { min: ray_t.min, max: ceiling(best, ray_t) };
        objects[n - 1].lemma_hit_in_range(r, within);
    }
}

/// A scene without surfaces is never hit.
pub proof fn lemma_empty_scene_misses<H: Hittable>(list: HittableList<H>, r: Ray, ray_t: Interval)
    requires
        list.objects@.len() == 0,
    ensures
        list.hit_spec(r, ray_t) is None,
{
}

/// The best hit only comes closer as more surfaces are searched: a hit among
/// the first `n` surfaces is at most as far as the best among the first `k`,
/// for `k <= n`, and strictly closer where it is another hit.
pub proof fn lemma_closest_only_improves<H: Hittable>(
    objects: Seq<H>,
    r: Ray,
    ray_t: Interval,
    k: nat,
    n: nat,
)
    requires
        k <= n <= objects.len(),
    ensures
        closest_among(objects, r, ray_t, k) matches Some(early) ==> (closest_among(
            objects,
            r,
            ray_t,
            n,
        ) matches Some(late) && (late == early || late.t.lt_spec(early.t))),
    decreases n,
{
    if k < n {
        lemma_closest_only_improves(objects, r, ray_t, k, (n - 1) as nat);
        let best = closest_among(objects, r, ray_t, (n - 1) as nat);
        let within = Interval { min: ray_t.min, max: ceiling(best, ray_t) };
        objects[n - 1].lemma_hit_in_range(r, within);
    }
}

/// Every surface's own hit, asked for under the ceiling that the search had
/// reached, is at least as far as the hit that the search returns.
pub proof fn lemma_closest_is_closest<H: Hittable>(
    objects: Seq<H>,
    r: Ray,
    ray_t: Interval,
    i: nat,
)
    requires
        i < objects.len(),
    ensures
        objects[i as int].hit_spec(
            r,
            Interval { min: ray_t.min, max: ceiling(closest_among(objects, r, ray_t, i), ray_t) },
        ) matches Some(own) ==> (closest_among(objects, r, ray_t, objects.len()) matches Some(best)
            && (best == own || best.t.lt_spec(own.t))),
{
    lemma_closest_only_improves(objects, r, ray_t, i + 1, objects.len());
}

} // verus!
