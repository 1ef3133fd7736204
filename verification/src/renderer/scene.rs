//! The world to render: shapes in the order in which they were added, and
//! lights.
use crate::geometry::normal::Normal;
use crate::geometry::point::Point;
use crate::geometry::primitive::{law_hit_has_normal, law_hits_are_valid, Primitive};
use crate::geometry::ray::Ray;
use crate::geometry::Intersection;
use crate::renderer::light::Light;
use crate::scalar::{Scalar, ONE};
use vstd::prelude::*;

verus! {

/// The shapes and the lights of a scene, each in the order of insertion.
#[derive(Clone, Debug)]
pub struct Scene {
    pub objects: Vec<Primitive>,
    pub lights: Vec<Light>,
}

/// A shape of the scene, by its place in the order of insertion, and the
/// parameter at which a ray meets it.
#[derive(Clone, Copy, Debug, PartialEq, Eq, Structural)]
pub struct Hit {
    pub index: usize,
    pub t: Scalar,
}

/// The nearest hit among the first `n` outcomes, one per shape in the order
/// of insertion: the least parameter, and of several shapes that share it
/// the one that comes first.
pub open spec fn nearest_among(hits: Seq<Intersection>, n: nat) -> Option<Hit>
    decreases n,
{
    if n == 0 {
        None
    } else {
        let before = nearest_among(hits, (n - 1) as nat);
        match hits[n - 1] {
            Intersection::DoesNotIntersect => before,
            Intersection::Intersect(t) => match before {
                None => Some(Hit { index: (n - 1) as usize, t }),
                Some(best) => if t.lt_spec(best.t) {
                    Some(Hit { index: (n - 1) as usize, t })
                } else {
                    before
                },
            },
        }
    }
}

/// None of the first `n` outcomes is a hit.
pub open spec fn all_miss(hits: Seq<Intersection>, n: nat) -> bool {
    forall|j: int| 0 <= j < n ==> #[trigger] hits[j] is DoesNotIntersect
}

/// `hit` is the nearest among the first `n` outcomes: its shape is met at
/// its parameter, no shape is met at a smaller one, and no shape before it
/// is met at the same one.
pub open spec fn is_nearest(hits: Seq<Intersection>, n: nat, hit: Hit) -> bool {
    &&& hit.index < n
    &&& hits[hit.index as int] == Intersection::Intersect(hit.t)
    &&& forall|j: int|
        0 <= j < n ==> (#[trigger] hits[j] matches Intersection::Intersect(u) ==> hit.t.raw()
            <= u.raw() && (j < hit.index ==> hit.t.raw() < u.raw()))
}

/// The sum of what the first `n` lights add at a surface point, added from
/// the left starting at zero.
pub open spec fn illumination_among(lights: Seq<Light>, normal: Normal, point: Point, n: nat) -> Scalar
    decreases n,
{
    if n == 0 {
        Scalar::Finite(0)
    } else {
        illumination_among(lights, normal, point, (n - 1) as nat).add_spec(
            lights[n - 1].contribution_spec(normal, point),
        )
    }
}

/// `nearest_among` finds nothing exactly where every outcome is a miss, and
/// what it finds is the nearest hit.
pub proof fn lemma_nearest_among(hits: Seq<Intersection>, n: nat)
    requires
        n <= hits.len(),
        n <= usize::MAX,
        forall|j: int| 0 <= j < n ==> (#[trigger] hits[j]).is_valid(),
    ensures
        match nearest_among(hits, n) {
            None => all_miss(hits, n),
            Some(hit) => is_nearest(hits, n, hit),
        },
    decreases n,
{
    if n > 0 {
        lemma_nearest_among(hits, (n - 1) as nat);
        assert(hits[n - 1].is_valid());
        match nearest_among(hits, (n - 1) as nat) {
            None => {},
            Some(best) => {
                assert(hits[best.index as int].is_valid());
            },
        }
    }
}

/// The sum of the lights' contributions is never undefined nor negative,
/// and it is at most the number of lights as long as that number is a
/// scalar.
pub proof fn lemma_illumination_bounded(lights: Seq<Light>, normal: Normal, point: Point, n: nat)
    requires
        n <= lights.len(),
    ensures
        Scalar::Finite(0).le_spec(illumination_among(lights, normal, point, n)),
        n <= 0x7fff_ffff ==> illumination_among(lights, normal, point, n) is Finite
            && illumination_among(lights, normal, point, n).raw() <= n * ONE,
    decreases n,
{
    if n > 0 {
        lemma_illumination_bounded(lights, normal, point, (n - 1) as nat);
    }
}

/// Of two shapes that a ray meets at the same parameter, the one that
/// comes later is never the nearest hit.
pub proof fn law_first_of_equal_hits_wins(hits: Seq<Intersection>, first: int, second: int)
    requires
        hits.len() <= usize::MAX,
        forall|j: int| 0 <= j < hits.len() ==> (#[trigger] hits[j]).is_valid(),
        0 <= first < second < hits.len(),
        hits[first] is Intersect,
        hits[first] == hits[second],
    ensures
        nearest_among(hits, hits.len()) matches Some(hit) && hit.index != second,
{
    lemma_nearest_among(hits, hits.len());
}

/// Along a ray whose direction has no component beyond one in magnitude,
/// a scene always shows an intensity: the nearest point that the ray meets
/// has a surface normal.
pub proof fn law_bounded_ray_sees_intensity(scene: Scene, ray: Ray)
    requires
        ray.has_bounded_direction(),
        scene.objects@.len() <= usize::MAX,
    ensures
        scene.shade_spec(ray) is Some,
{
    let hits = scene.hits_spec(ray);
    assert forall|j: int| 0 <= j < hits.len() implies (#[trigger] hits[j]).is_valid() by {
        law_hits_are_valid(scene.objects@[j], ray);
    }
    lemma_nearest_among(hits, hits.len());
    if let Some(hit) = nearest_among(hits, hits.len()) {
        assert(hits[hit.index as int] == scene.objects@[hit.index as int].intersect_spec(ray));
        law_hit_has_normal(scene.objects@[hit.index as int], ray);
    }
}

impl Scene {
    /// What the ray does at each shape, in the order of insertion.
    pub open spec fn hits_spec(self, ray: Ray) -> Seq<Intersection> {
        Seq::new(self.objects@.len(), |i: int| self.objects@[i].intersect_spec(ray))
    }

    /// The nearest hit of the ray among all the shapes.
    pub open spec fn nearest_spec(self, ray: Ray) -> Option<Hit> {
        nearest_among(self.hits_spec(ray), self.objects@.len())
    }

    /// The sum of what all the lights add at a surface point.
    pub open spec fn illumination_spec(self, normal: Normal, point: Point) -> Scalar {
        illumination_among(self.lights@, normal, point, self.lights@.len())
    }

    /// The intensity seen along a ray: zero where it meets nothing, else
    /// the illumination of the nearest point it meets. There is none where
    /// that point has no surface normal.
    pub open spec fn shade_spec(self, ray: Ray) -> Option<Scalar> {
        match self.nearest_spec(ray) {
            None => Some(Scalar::Finite(0)),
            Some(hit) => {
                let point = ray.at_spec(hit.t);
                match self.objects@[hit.index as int].normal_spec(point) {
                    None => None,
                    Some(normal) => Some(self.illumination_spec(normal, point)),
                }
            },
        }
    }

    /// A scene without shapes or lights.
    pub fn new() -> (r: Scene)
        ensures
            r.objects@.len() == 0,
            r.lights@.len() == 0,
    {
        Scene { objects: Vec::new(), lights: Vec::new() }
    }

    /// Adds a shape after those already there.
    pub fn add_object(&mut self, object: Primitive)
        ensures
            final(self).objects@ == old(self).objects@.push(object),
            final(self).lights@ == old(self).lights@,
    {
        self.objects.push(object);
    }

    /// Adds a light after those already there.
    pub fn add_light(&mut self, light: Light)
        ensures
            final(self).lights@ == old(self).lights@.push(light),
            final(self).objects@ == old(self).objects@,
    {
        self.lights.push(light);
    }

    /// The shape the ray meets first, and where. Of shapes met at the same
    /// parameter, the one added first wins.
    pub fn nearest_hit(&self, ray: &Ray) -> (r: Option<Hit>)
        ensures
            r == self.nearest_spec(*ray),
            match r {
                None => all_miss(self.hits_spec(*ray), self.objects@.len()),
                Some(hit) => is_nearest(self.hits_spec(*ray), self.objects@.len(), hit),
            },
    {
        let ghost hits = self.hits_spec(*ray);
        let mut best: Option<Hit> = None;
        let mut i: usize = 0;
        while i < self.objects.len()
            invariant
                i <= self.objects@.len(),
                hits == self.hits_spec(*ray),
                hits.len() == self.objects@.len(),
                best == nearest_among(hits, i as nat),
                forall|j: int| 0 <= j < i ==> (#[trigger] hits[j]).is_valid(),
            decreases self.objects@.len() - i,
        {
            assert(hits[i as int] == self.objects@[i as int].intersect_spec(*ray));
            match self.objects[i].intersect(ray) {
                Intersection::DoesNotIntersect => {},
                Intersection::Intersect(t) => {
                    match best {
                        None => {
                            best = Some(Hit { index: i, t });
                        },
                        Some(found) => {
                            if t.lt(found.t) {
                                best = Some(Hit { index: i, t });
                            }
                        },
                    }
                },
            }
            i = i + 1;
        }
        proof {
            lemma_nearest_among(hits, self.objects@.len());
        }
        best
    }

    /// The sum of what all the lights add at a surface point.
    pub fn illumination(&self, normal: Normal, point: &Point) -> (r: Scalar)
        ensures
            r == self.illumination_spec(normal, *point),
            Scalar::Finite(0).le_spec(r),
    {
        let mut sum: Scalar = Scalar::Finite(0);
        let mut i: usize = 0;
        while i < self.lights.len()
            invariant
                i <= self.lights@.len(),
                sum == illumination_among(self.lights@, normal, *point, i as nat),
            decreases self.lights@.len() - i,
        {
            sum = sum.add(self.lights[i].contribution(normal, point));
            i = i + 1;
        }
        proof {
            lemma_illumination_bounded(self.lights@, normal, *point, self.lights@.len());
        }
        sum
    }

    /// The intensity seen along a ray, or nothing where the nearest point
    /// it meets has no surface normal.
    pub fn shade(&self, ray: &Ray) -> (r: Option<Scalar>)
        ensures
            r == self.shade_spec(*ray),
            r matches Some(intensity) ==> Scalar::Finite(0).le_spec(intensity),
            ray.has_bounded_direction() ==> r is Some,
    {
        match self.nearest_hit(ray) {
            None => Some(Scalar::Finite(0)),
            Some(hit) => {
                proof {
                    assert(self.hits_spec(*ray)[hit.index as int] == self.objects@[hit.index as int].intersect_spec(*ray));
                    if ray.has_bounded_direction() {
                        law_hit_has_normal(self.objects@[hit.index as int], *ray);
                    }
                }
                let point: Point = ray.at(hit.t);
                match self.objects[hit.index].try_normal_at_point(
                    &point,
                    Intersection::Intersect(hit.t),
                ) {
                    None => None,
                    Some(normal) => Some(self.illumination(normal, &point)),
                }
            },
        }
    }
}

} // verus!
