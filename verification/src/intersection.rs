//! Records of where a ray strikes a surface, their order along the ray, and
//! the choice of the nearest among several.

use vstd::prelude::*;
use std::cmp::Ordering;
use crate::scalar::Scalar;
use crate::scene::Material;
use crate::vector::Vec4;

verus! {

/// Where a ray strikes one component of a primitive (one face of a cube, the
/// body of a cone).
#[derive(Clone, Copy, Debug)]
pub struct ComponentIntersection {
    /// The ray parameter: the strike lies at `position + t * direction`.
    pub t: Scalar,
    /// The surface normal at the strike.
    pub normal: Vec4,
    /// The texture coordinate at the strike.
    pub uv: (Scalar, Scalar),
}

impl ComponentIntersection {
    /// The order of two strikes along the ray: by their parameters, and
    /// `Equal` whenever neither parameter is below the other, which covers a
    /// NaN on either side.
    pub open spec fn order(self, other: ComponentIntersection) -> Ordering {
        if self.t.below(other.t) {
            Ordering::Less
        } else if other.t.below(self.t) {
            Ordering::Greater
        } else {
            Ordering::Equal
        }
    }

    /// Compares two strikes by their ray parameters. Never fails: a
    /// comparison that involves a NaN gives `Equal`.
    pub fn cmp(&self, other: &ComponentIntersection) -> (r: Ordering)
        ensures
            r == self.order(*other),
    {
        if self.t.lt(other.t) {
            Ordering::Less
        } else if other.t.lt(self.t) {
            Ordering::Greater
        } else {
            Ordering::Equal
        }
    }

    /// Compares two strikes by their ray parameters; always `Some`.
    pub fn partial_cmp(&self, other: &ComponentIntersection) -> (r: Option<Ordering>)
        ensures
            r == Some(self.order(*other)),
    {
        Some(self.cmp(other))
    }

    /// Whether the two ray parameters are the same number.
    pub fn eq(&self, other: &ComponentIntersection) -> (r: bool)
        ensures
            r == self.t.same(other.t),
    {
        self.t.num_eq(other.t)
    }
}

/// A strike together with the material of the shape that was struck.
#[derive(Clone, Copy, Debug)]
pub struct Intersection<'a> {
    pub component_intersection: ComponentIntersection,
    pub material: &'a Material,
}

impl<'a> Intersection<'a> {
    /// The order of two strikes along the ray, which is that of their
    /// component records.
    pub open spec fn order(self, other: Intersection<'a>) -> Ordering {
        self.component_intersection.order(other.component_intersection)
    }

    /// Compares two strikes by their ray parameters. Never fails: a
    /// comparison that involves a NaN gives `Equal`.
    pub fn cmp(&self, other: &Intersection<'a>) -> (r: Ordering)
        ensures
            r == self.order(*other),
    {
        self.component_intersection.cmp(&other.component_intersection)
    }

    /// Compares two strikes by their ray parameters; always `Some`.
    pub fn partial_cmp(&self, other: &Intersection<'a>) -> (r: Option<Ordering>)
        ensures
            r == Some(self.order(*other)),
    {
        Some(self.cmp(other))
    }

    /// Whether the two ray parameters are the same number.
    pub fn eq(&self, other: &Intersection<'a>) -> (r: bool)
        ensures
            r == self.component_intersection.t.same(other.component_intersection.t),
    {
        self.component_intersection.eq(&other.component_intersection)
    }
}

/// The position of the nearest strike among the reports of several surfaces,
/// each `None` for a miss or `Some` ray parameter: the reports are taken in
/// order, and a later one replaces the one held only if its parameter is
/// below it. So the first of several equally near strikes is chosen.
pub open spec fn nearest(ts: Seq<Option<Scalar>>) -> Option<int>
    decreases ts.len(),
{
    if ts.len() == 0 {
        None
    } else {
        let before = nearest(ts.drop_last());
        match (before, ts.last()) {
            (_, None) => before,
            (None, Some(_)) => Some(ts.len() - 1),
            (Some(i), Some(t)) => if t.below(ts[i].unwrap()) {
                Some(ts.len() - 1)
            } else {
                Some(i)
            },
        }
    }
}

/// What `nearest` chooses: nothing exactly when every surface was missed;
/// otherwise a strike than which none is nearer.
pub proof fn lemma_nearest(ts: Seq<Option<Scalar>>)
    ensures
        nearest(ts).is_none() <==> (forall|j: int| 0 <= j < ts.len() ==> ts[j].is_none()),
        nearest(ts) matches Some(i) ==> {
            &&& 0 <= i < ts.len()
            &&& ts[i].is_some()
            &&& forall|j: int|
                0 <= j < ts.len() && ts[j].is_some() ==> !(#[trigger] ts[j]).unwrap().below(
                    ts[i].unwrap(),
                )
        },
    decreases ts.len(),
{
    if ts.len() > 0 {
        let front = ts.drop_last();
        lemma_nearest(front);
        assert(forall|j: int| 0 <= j < front.len() ==> front[j] == ts[j]);
        match (nearest(front), ts.last()) {
            (_, None) => {},
            (None, Some(_)) => {},
            (Some(i), Some(t)) => {
                if t.below(ts[i].unwrap()) {
                    assert forall|j: int| 0 <= j < ts.len() && ts[j].is_some() implies !(
                    #[trigger] ts[j]).unwrap().below(t) by {
                        if j < front.len() {
                            assert(!front[j].unwrap().below(front[i].unwrap()));
                        }
                    }
                }
            },
        }
    }
}

/// Where the parameters are numbers, `nearest` chooses the first strike with
/// the least parameter: every earlier strike is strictly farther.
pub proof fn lemma_nearest_is_first(ts: Seq<Option<Scalar>>)
    requires
        forall|j: int| 0 <= j < ts.len() && ts[j].is_some() ==> !(#[trigger] ts[j]).unwrap().nan(),
    ensures
        nearest(ts) matches Some(i) ==> forall|j: int|
            0 <= j < i && ts[j].is_some() ==> ts[i].unwrap().below((#[trigger] ts[j]).unwrap()),
    decreases ts.len(),
{
    if ts.len() > 0 {
        let front = ts.drop_last();
        assert(forall|j: int| 0 <= j < front.len() ==> front[j] == ts[j]);
        lemma_nearest_is_first(front);
        lemma_nearest(front);
        match (nearest(front), ts.last()) {
            (_, None) => {},
            (None, Some(_)) => {},
            (Some(i), Some(t)) => {
                if t.below(ts[i].unwrap()) {
                    assert forall|j: int| 0 <= j < ts.len() - 1 && ts[j].is_some() implies t.below(
                        (#[trigger] ts[j]).unwrap(),
                    ) by {
                        assert(!front[j].unwrap().below(front[i].unwrap()));
                    }
                }
            },
        }
    }
}

/// Finds the nearest strike among the reports of several surfaces.
pub fn nearest_index(ts: &Vec<Option<Scalar>>) -> (r: Option<usize>)
    ensures
        r.is_some() == nearest(ts@).is_some(),
        r matches Some(i) ==> nearest(ts@) == Some(i as int) && i < ts.len(),
{
    let mut best: Option<usize> = None;
    let mut k: usize = 0;
    proof {
        assert(ts@.take(0) =~= Seq::empty());
    }
    while k < ts.len()
        invariant
            k <= ts.len(),
            best.is_some() == nearest(ts@.take(k as int)).is_some(),
            best matches Some(i) ==> nearest(ts@.take(k as int)) == Some(i as int) && i < k,
        decreases ts.len() - k,
    {
        proof {
            assert(ts@.take(k + 1).drop_last() =~= ts@.take(k as int));
            assert(ts@.take(k + 1).last() == ts@[k as int]);
        }
        match ts[k] {
            None => {},
            Some(t) => {
                match best {
                    None => {
                        best = Some(k);
                    },
                    Some(i) => {
                        let held = ts[i];
                        proof {
                            lemma_nearest(ts@.take(k as int));
                        }
                        match held {
                            Some(u) => {
                                if t.lt(u) {
                                    best = Some(k);
                                }
                            },
                            None => {},
                        }
                    },
                }
            },
        }
        k = k + 1;
    }
    proof {
        assert(ts@.take(ts.len() as int) =~= ts@);
    }
    best
}

/// The ray parameters of a list of reports.
pub open spec fn parameters(hits: Seq<Option<Intersection>>) -> Seq<Option<Scalar>> {
    Seq::new(
        hits.len(),
        |k: int|
            match hits[k] {
                Some(hit) => Some(hit.component_intersection.t),
                None => None,
            },
    )
}

/// The nearest strike among the reports of the shapes of a scene, one report
/// per shape: `None` if the ray misses them all.
pub fn closest<'a>(hits: &Vec<Option<Intersection<'a>>>) -> (r: Option<Intersection<'a>>)
    ensures
        r == (match nearest(parameters(hits@)) {
            Some(i) => hits@[i],
            None => None,
        }),
        r.is_none() <==> (forall|j: int| 0 <= j < hits.len() ==> hits@[j].is_none()),
        r matches Some(hit) ==> forall|j: int|
            0 <= j < hits.len() && hits@[j].is_some() ==> !(#[trigger] hits@[j]).unwrap().component_intersection.t.below(
                hit.component_intersection.t,
            ),
{
    let mut ts: Vec<Option<Scalar>> = Vec::new();
    let mut k: usize = 0;
    while k < hits.len()
        invariant
            k <= hits.len(),
            ts@ =~= parameters(hits@).take(k as int),
        decreases hits.len() - k,
    {
        let t = match &hits[k] {
            Some(hit) => Some(hit.component_intersection.t),
            None => None,
        };
        ts.push(t);
        k = k + 1;
    }
    proof {
        assert(parameters(hits@).take(hits.len() as int) =~= parameters(hits@));
        lemma_nearest(parameters(hits@));
        assert forall|j: int| 0 <= j < hits.len() implies (hits@[j].is_none() <==> (
        #[trigger] parameters(hits@)[j]).is_none()) by {}
    }
    match nearest_index(&ts) {
        Some(i) => {
            proof {
                assert forall|j: int| 0 <= j < hits.len() && hits@[j].is_some() implies !(
                #[trigger] hits@[j]).unwrap().component_intersection.t.below(
                    hits@[i as int].unwrap().component_intersection.t,
                ) by {
                    assert(parameters(hits@)[j].is_some());
                    assert(!parameters(hits@)[j].unwrap().below(
                        parameters(hits@)[i as int].unwrap(),
                    ));
                }
            }
            proof {
                assert(parameters(hits@)[i as int].is_some());
                assert(hits@[i as int].is_some());
            }
            hits[i]
        },
        None => {
            proof {
                assert forall|j: int| 0 <= j < hits.len() implies hits@[j].is_none() by {
                    assert(parameters(hits@)[j].is_none());
                }
            }
            None
        },
    }
}

} // verus!
