//! A scene: an ordered collection of objects, hit where the nearest of them
//! is hit.
use vstd::prelude::*;
use crate::hittable::nearer_than;
use crate::hittable::HitRecord;
use crate::hittable::Hittable;
use crate::scalar::Scalar;

verus! {

/// The nearer of the best hit so far and the hit of the next object. The
/// next one wins only where it is strictly nearer: of two hits at the same
/// distance the earlier stays.
pub open spec fn closer(best: Option<HitRecord>, next: Option<HitRecord>) -> Option<HitRecord> {
    match (best, next) {
        (Some(b), Some(n)) => if n.t.below(b.t) {
            next
        } else {
            best
        },
        (None, _) => next,
        (_, None) => best,
    }
}

/// An ordered collection of objects that a ray can hit.
pub struct HittableList<H: Hittable> {
    objects: Vec<H>,
}

impl<H: Hittable> View for HittableList<H> {
    type V = Seq<H>;

    /// The objects, in the order in which they were added.
    closed spec fn view(&self) -> Seq<H> {
        self.objects@
    }
}

impl<H: Hittable> HittableList<H> {
    /// What object `i` alone reports of its own probe.
    pub open spec fn member_hit(&self, probes: Seq<H::Probe>, t_min: Scalar, t_max: Scalar, i: int) -> Option<
        HitRecord,
    > {
        self@[i].hit_at(&probes[i], t_min, t_max)
    }

    /// The nearest hit among the first `n` objects.
    pub open spec fn closest_of(&self, probes: Seq<H::Probe>, t_min: Scalar, t_max: Scalar, n: int) -> Option<
        HitRecord,
    >
        decreases n,
    {
        if n <= 0 {
            None
        } else {
            closer(self.closest_of(probes, t_min, t_max, n - 1), self.member_hit(probes, t_min, t_max, n - 1))
        }
    }

    /// One probe for each object, each of the shape its object asks for.
    pub open spec fn fits_all(&self, probes: Seq<H::Probe>) -> bool {
        &&& probes.len() == self@.len()
        &&& forall|i: int| 0 <= i < self@.len() ==> (#[trigger] self@[i]).fits(&probes[i])
    }

    /// The empty scene.
    pub fn new() -> (list: Self)
        ensures
            list@ == Seq::<H>::empty(),
    {
        HittableList { objects: Vec::new() }
    }

    /// Removes every object.
    pub fn clear(&mut self)
        ensures
            final(self)@ == Seq::<H>::empty(),
    {
        self.objects.clear()
    }

    /// Adds an object behind those already there.
    pub fn add(&mut self, object: H)
        ensures
            final(self)@ == old(self)@.push(object),
    {
        self.objects.push(object);
    }

    /// The number of objects.
    pub fn len(&self) -> (n: usize)
        ensures
            n == self@.len(),
    {
        self.objects.len()
    }

    /// Object `i`.
    pub fn get(&self, i: usize) -> (object: &H)
        requires
            i < self@.len(),
        ensures
            *object == self@[i as int],
    {
        &self.objects[i]
    }

    /// The nearest hit among the first `n` objects lies strictly inside the
    /// interval, and its record names a material.
    pub proof fn lemma_closest_inside(&self, probes: Seq<H::Probe>, t_min: Scalar, t_max: Scalar, n: int)
        requires
            self.fits_all(probes),
            n <= self@.len(),
        ensures
            self.closest_of(probes, t_min, t_max, n) matches Some(h) ==> t_min.below(h.t) && h.t.below(t_max)
                && h.material is Some,
        decreases n,
    {
        if n > 0 {
            self.lemma_closest_inside(probes, t_min, t_max, n - 1);
            self@[n - 1].lemma_hit_inside(&probes[n - 1], t_min, t_max);
        }
    }

    /// With a nearer upper bound the first `n` objects give the same hit
    /// where it lies before that bound, and nothing else.
    pub proof fn lemma_closest_narrowed(
        &self,
        probes: Seq<H::Probe>,
        t_min: Scalar,
        t_max: Scalar,
        bound: Scalar,
        n: int,
    )
        requires
            self.fits_all(probes),
            n <= self@.len(),
            bound.below(t_max),
        ensures
            self.closest_of(probes, t_min, bound, n) == nearer_than(
                self.closest_of(probes, t_min, t_max, n),
                bound,
            ),
        decreases n,
    {
        if n > 0 {
            self.lemma_closest_narrowed(probes, t_min, t_max, bound, n - 1);
            self.lemma_closest_inside(probes, t_min, t_max, n - 1);
            self@[n - 1].lemma_hit_inside(&probes[n - 1], t_min, t_max);
            self@[n - 1].lemma_hit_narrowed(&probes[n - 1], t_min, t_max, bound);
        }
    }

    /// Whether `h` is the hit of object `k`, no object among the first `n`
    /// is hit nearer, and every object before `k` is hit strictly farther.
    pub open spec fn nearest_at(
        &self,
        probes: Seq<H::Probe>,
        t_min: Scalar,
        t_max: Scalar,
        n: int,
        k: int,
        h: HitRecord,
    ) -> bool {
        &&& 0 <= k < n
        &&& self.member_hit(probes, t_min, t_max, k) == Some(h)
        &&& forall|i: int|
            0 <= i < n ==> (#[trigger] self.member_hit(probes, t_min, t_max, i) matches Some(g) ==> !g.t.below(
                h.t,
            ))
        &&& forall|i: int|
            0 <= i < k ==> (#[trigger] self.member_hit(probes, t_min, t_max, i) matches Some(g) ==> h.t.below(
                g.t,
            ))
    }

    /// The hit of a scene is the nearest hit of its objects, and of several
    /// objects hit at that distance it is that of the first: the lemma names
    /// the object. A scene without a hit has no object that is hit.
    pub proof fn lemma_closest_is_nearest(&self, probes: Seq<H::Probe>, t_min: Scalar, t_max: Scalar, n: int) -> (k:
        int)
        requires
            self.fits_all(probes),
            0 <= n <= self@.len(),
        ensures
            match self.closest_of(probes, t_min, t_max, n) {
                Some(h) => self.nearest_at(probes, t_min, t_max, n, k, h),
                None => forall|i: int|
                    0 <= i < n ==> (#[trigger] self.member_hit(probes, t_min, t_max, i)) is None,
            },
        decreases n,
    {
        if n <= 0 {
            0
        } else {
            let before: int = self.lemma_closest_is_nearest(probes, t_min, t_max, n - 1);
            let best = self.closest_of(probes, t_min, t_max, n - 1);
            let next = self.member_hit(probes, t_min, t_max, n - 1);
            assert forall|i: int| 0 <= i < n implies (#[trigger] self.member_hit(probes, t_min, t_max, i) matches Some(
                g,
            ) ==> !g.t.nan()) by {
                self@[i].lemma_hit_inside(&probes[i], t_min, t_max);
            }
            match self.closest_of(probes, t_min, t_max, n) {
                Some(h) => {
                    let k: int = if next == Some(h) && (best is None || h.t.below(best.unwrap().t)) {
                        n - 1
                    } else {
                        before
                    };
                    assert(self.nearest_at(probes, t_min, t_max, n, k, h));
                    k
                },
                None => 0,
            }
        }
    }
}

impl<H: Hittable> Hittable for HittableList<H> {
    type Probe = Vec<H::Probe>;

    /// A scene takes one probe for each of its objects.
    open spec fn fits(&self, probes: &Vec<H::Probe>) -> bool {
        self.fits_all(probes@)
    }

    /// The nearest of the hits of its objects; of several at the same
    /// distance, that of the object added first.
    open spec fn hit_at(&self, probes: &Vec<H::Probe>, t_min: Scalar, t_max: Scalar) -> Option<HitRecord> {
        self.closest_of(probes@, t_min, t_max, self@.len() as int)
    }

    fn hit(&self, probes: &Vec<H::Probe>, t_min: Scalar, t_max: Scalar, rec: &mut HitRecord) -> (r: bool) {
        let mut hit_anything = false;
        let mut closest_so_far = t_max;
        let mut i: usize = 0;
        while i < self.objects.len()
            invariant
                i <= self@.len(),
                self@ == self.objects@,
                self.fits_all(probes@),
                hit_anything == self.closest_of(probes@, t_min, t_max, i as int).is_some(),
                hit_anything ==> *rec == self.closest_of(probes@, t_min, t_max, i as int).unwrap()
                    && closest_so_far == rec.t,
                !hit_anything ==> *rec == *old(rec) && closest_so_far == t_max,
            decreases self@.len() - i,
        {
            proof {
                self.lemma_closest_inside(probes@, t_min, t_max, i as int);
                self@[i as int].lemma_hit_inside(&probes@[i as int], t_min, t_max);
                if hit_anything {
                    self@[i as int].lemma_hit_narrowed(&probes@[i as int], t_min, t_max, closest_so_far);
                }
            }
            let mut temp_rec = HitRecord::new();
            if self.objects[i].hit(&probes[i], t_min, closest_so_far, &mut temp_rec) {
                hit_anything = true;
                closest_so_far = temp_rec.t;
                *rec = temp_rec;
            }
            i += 1;
        }
        hit_anything
    }

    proof fn lemma_hit_inside(&self, probes: &Vec<H::Probe>, t_min: Scalar, t_max: Scalar) {
        self.lemma_closest_inside(probes@, t_min, t_max, self@.len() as int);
    }

    proof fn lemma_hit_narrowed(&self, probes: &Vec<H::Probe>, t_min: Scalar, t_max: Scalar, bound: Scalar) {
        self.lemma_closest_narrowed(probes@, t_min, t_max, bound, self@.len() as int);
    }
}

} // verus!
