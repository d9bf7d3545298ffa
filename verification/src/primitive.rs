//! The canonical shapes in object space, and the rules by which a ray is
//! found to strike them.
//!
//! A primitive is a unit-sized shape about the origin, made of components:
//! bounded planes (the faces of a cube, the caps of a cylinder or cone) and
//! quadratic bodies (a sphere, the side of a cylinder or cone). For each
//! component the caller solves the surface equation along the ray and hands
//! in what it found as a [`Probe`]; the component decides whether that is a
//! strike, and the primitive which strike is the nearest.

use vstd::prelude::*;
use crate::intersection::{ComponentIntersection, nearest, nearest_index, lemma_nearest};
use crate::scalar::{Scalar, HALF_BITS, ONE_BITS, QUARTER_BITS};
use crate::vector::Vec4;

verus! {

/// The bits of `-0.5`.
pub const NEG_HALF_BITS: u32 = 0xbf00_0000;

/// A ray: the points `position + t * direction` for `t` from zero on.
#[derive(Clone, Copy, Debug)]
pub struct Ray {
    /// Where the ray starts (`w` is one).
    pub position: Vec4,
    /// Where it heads (`w` is zero).
    pub direction: Vec4,
}

impl Ray {
    /// The ray from a position in a direction.
    pub fn new(position: Vec4, direction: Vec4) -> (r: Ray)
        ensures
            r == (Ray { position, direction }),
    {
        Ray { position, direction }
    }
}

/// One of the three coordinate axes.
#[derive(Clone, Copy, Debug, PartialEq, Eq, Structural)]
pub enum Axis {
    X,
    Y,
    Z,
}

impl Axis {
    /// The three axes, in the order X, Y, Z.
    pub fn iterator() -> (r: [Axis; 3])
        ensures
            r@ == seq![Axis::X, Axis::Y, Axis::Z],
    {
        let r = [Axis::X, Axis::Y, Axis::Z];
        assert(r@ =~= seq![Axis::X, Axis::Y, Axis::Z]);
        r
    }

    /// The position of the axis among a vector's components.
    pub fn index(self) -> (r: usize)
        ensures
            r == (match self {
                Axis::X => 0usize,
                Axis::Y => 1usize,
                Axis::Z => 2usize,
            }),
    {
        match self {
            Axis::X => 0,
            Axis::Y => 1,
            Axis::Z => 2,
        }
    }
}

/// What the caller found for a ray against the plane of a square or a circle.
#[derive(Clone, Copy, Debug)]
pub struct PlaneProbe {
    /// The ray parameter at which the ray meets the plane: the plane's
    /// elevation less the ray's position along the normal axis, divided by
    /// the ray's direction along that axis.
    pub t: Scalar,
    /// The point of the ray at `t`.
    pub point: Vec4,
    /// The texture coordinate there: what `Plane::uv_map` gives for `point`,
    /// each part raised by one half.
    pub uv: (Scalar, Scalar),
    /// The squared distance of `point` from the plane's centre: the sum of
    /// the squares of what `Plane::flatten_onto` gives for `point`.
    pub radial: Scalar,
}

/// What the caller found at one root of a quadratic body's equation.
#[derive(Clone, Copy, Debug)]
pub struct Candidate {
    /// The root.
    pub t: Scalar,
    /// The point of the ray at `t`.
    pub point: Vec4,
    /// The surface normal at `point`.
    pub normal: Vec4,
    /// The texture coordinate at `point`.
    pub uv: (Scalar, Scalar),
}

impl Candidate {
    /// The record of a strike at this root.
    pub open spec fn strike(self) -> ComponentIntersection {
        ComponentIntersection { t: self.t, normal: self.normal, uv: self.uv }
    }
}

/// What the caller found for a ray against a quadratic body, whose equation
/// along the ray is `a t^2 + b t + c = 0`.
#[derive(Clone, Copy, Debug)]
pub struct QuadraticProbe {
    /// `b^2 - 4ac`.
    pub discriminant: Scalar,
    /// At the root `(-b + sqrt(discriminant)) / 2a`.
    pub first: Candidate,
    /// At the root `(-b - sqrt(discriminant)) / 2a`.
    pub second: Candidate,
}

/// What the caller found for a ray against one component.
#[derive(Clone, Copy, Debug)]
pub enum Probe {
    Plane(PlaneProbe),
    Quadratic(QuadraticProbe),
}

/// The plane on which one coordinate has a fixed value.
#[derive(Clone, Copy, Debug)]
pub struct Plane {
    /// The axis the plane is perpendicular to.
    pub normal_axis: Axis,
    /// The value of that coordinate on the plane.
    pub elevation: Scalar,
}

/// Whether a coordinate lies within a unit-sized shape about the origin:
/// from `-0.5` to `0.5`, both included.
pub open spec fn within_half(v: Scalar) -> bool {
    (Scalar { bits: NEG_HALF_BITS }).at_most(v) && v.at_most(Scalar { bits: HALF_BITS })
}

/// Whether a coordinate lies within a unit-sized shape about the origin.
pub fn is_within_half(v: Scalar) -> (r: bool)
    ensures
        r == within_half(v),
{
    (Scalar { bits: NEG_HALF_BITS }).le(v) && v.le(Scalar { bits: HALF_BITS })
}

impl Plane {
    /// The unit vector along the normal axis.
    pub open spec fn unit_normal(self) -> Vec4 {
        let zero = Scalar { bits: 0 };
        let one = Scalar { bits: ONE_BITS };
        match self.normal_axis {
            Axis::X => Vec4 { x: one, y: zero, z: zero, w: zero },
            Axis::Y => Vec4 { x: zero, y: one, z: zero, w: zero },
            Axis::Z => Vec4 { x: zero, y: zero, z: one, w: zero },
        }
    }

    /// Whether the plane lies on the positive side of its axis.
    pub open spec fn raised(self) -> bool {
        (Scalar { bits: 0 }).below(self.elevation)
    }

    /// A point's two coordinates within the plane, each with the sign that
    /// makes the texture run the same way round on every face of a cube.
    pub open spec fn flat_uv(self, point: Vec4) -> (Scalar, Scalar) {
        match self.normal_axis {
            Axis::X => if self.raised() {
                (point.z.negated(), point.y)
            } else {
                (point.z, point.y)
            },
            Axis::Y => if self.raised() {
                (point.x, point.z.negated())
            } else {
                (point.x, point.z)
            },
            Axis::Z => if self.raised() {
                (point.x, point.y)
            } else {
                (point.x.negated(), point.y)
            },
        }
    }

    /// A point's two coordinates along the axes that span the plane.
    pub open spec fn flat(self, point: Vec4) -> Seq<Scalar> {
        match self.normal_axis {
            Axis::X => seq![point.y, point.z],
            Axis::Y => seq![point.x, point.z],
            Axis::Z => seq![point.x, point.y],
        }
    }

    /// Whether a ray meets the plane ahead of its start: it is not parallel
    /// to the plane (its direction along the normal axis is not zero), and
    /// the parameter found is zero or more (which no NaN is).
    pub open spec fn strikes(self, ray: Ray, probe: PlaneProbe) -> bool {
        !ray.direction.along(self.normal_axis).zero() && (Scalar { bits: 0 }).at_most(probe.t)
    }

    /// The strike of a ray on the plane, if there is one.
    pub open spec fn hit(self, ray: Ray, probe: PlaneProbe) -> Option<ComponentIntersection> {
        if self.strikes(ray, probe) {
            Some(ComponentIntersection { t: probe.t, normal: self.unit_normal(), uv: probe.uv })
        } else {
            None
        }
    }

    /// The strike of a ray on the plane: none if the ray runs parallel to
    /// the plane, whatever the probe holds, and none unless the parameter
    /// found is zero or more.
    pub fn intersect(&self, ray: &Ray, probe: &PlaneProbe) -> (r: Option<ComponentIntersection>)
        ensures
            r == self.hit(*ray, *probe),
            ray.direction.along(self.normal_axis).zero() ==> r.is_none(),
            r matches Some(strike) ==> (Scalar { bits: 0 }).at_most(strike.t),
    {
        if ray.direction.component(self.normal_axis).is_zero() {
            return None;
        }
        if !probe.t.ge(Scalar { bits: 0 }) {
            return None;
        }
        Some(ComponentIntersection { t: probe.t, normal: self.normal(), uv: probe.uv })
    }

    /// Maps a point of the plane to texture coordinates about the plane's
    /// centre. The caller raises each by one half to reach the range from
    /// zero to one.
    pub fn uv_map(&self, point: &Vec4) -> (r: (Scalar, Scalar))
        ensures
            r == self.flat_uv(*point),
    {
        let raised = (Scalar { bits: 0 }).lt(self.elevation);
        match self.normal_axis {
            Axis::X => if raised {
                (point.z.neg(), point.y)
            } else {
                (point.z, point.y)
            },
            Axis::Y => if raised {
                (point.x, point.z.neg())
            } else {
                (point.x, point.z)
            },
            Axis::Z => if raised {
                (point.x, point.y)
            } else {
                (point.x.neg(), point.y)
            },
        }
    }

    /// The plane's normal: the unit vector along its axis.
    pub fn normal(&self) -> (r: Vec4)
        ensures
            r == self.unit_normal(),
    {
        let zero = Scalar { bits: 0 };
        let one = Scalar { bits: ONE_BITS };
        match self.normal_axis {
            Axis::X => Vec4 { x: one, y: zero, z: zero, w: zero },
            Axis::Y => Vec4 { x: zero, y: one, z: zero, w: zero },
            Axis::Z => Vec4 { x: zero, y: zero, z: one, w: zero },
        }
    }

    /// Flattens a point in space onto the plane: its coordinates along the
    /// two axes that span the plane.
    pub fn flatten_onto(&self, point: &Vec4) -> (r: [Scalar; 2])
        ensures
            r@ == self.flat(*point),
    {
        let r = match self.normal_axis {
            Axis::X => [point.y, point.z],
            Axis::Y => [point.x, point.z],
            Axis::Z => [point.x, point.y],
        };
        assert(r@ =~= self.flat(*point));
        r
    }
}

/// A unit square in a plane, centred on the plane's axis.
#[derive(Clone, Copy, Debug)]
pub struct Square {
    pub plane: Plane,
}

impl Square {
    /// The strike of a ray on the square: that on its plane, if both
    /// coordinates of the point within the plane lie from `-0.5` to `0.5`.
    pub open spec fn hit(self, ray: Ray, probe: PlaneProbe) -> Option<ComponentIntersection> {
        let flat = self.plane.flat(probe.point);
        if self.plane.strikes(ray, probe) && within_half(flat[0]) && within_half(flat[1]) {
            self.plane.hit(ray, probe)
        } else {
            None
        }
    }

    /// The strike of a ray on the square, if there is one. A ray parallel to
    /// the square's plane strikes nothing, whatever the probe holds.
    pub fn intersect(&self, ray: &Ray, probe: &PlaneProbe) -> (r: Option<ComponentIntersection>)
        ensures
            r == self.hit(*ray, *probe),
            ray.direction.along(self.plane.normal_axis).zero() ==> r.is_none(),
            r matches Some(strike) ==> (Scalar { bits: 0 }).at_most(strike.t),
    {
        let intersection = self.plane.intersect(ray, probe);
        match intersection {
            None => None,
            Some(strike) => {
                let flat = self.plane.flatten_onto(&probe.point);
                if is_within_half(flat[0]) && is_within_half(flat[1]) {
                    Some(strike)
                } else {
                    None
                }
            },
        }
    }
}

/// A disc of radius one half in a plane, centred on the plane's axis.
#[derive(Clone, Copy, Debug)]
pub struct Circle {
    pub plane: Plane,
}

impl Circle {
    /// The strike of a ray on the disc: that on its plane, if the squared
    /// distance from the centre is at most one quarter.
    pub open spec fn hit(self, ray: Ray, probe: PlaneProbe) -> Option<ComponentIntersection> {
        if self.plane.strikes(ray, probe) && probe.radial.at_most(Scalar { bits: QUARTER_BITS }) {
            self.plane.hit(ray, probe)
        } else {
            None
        }
    }

    /// The strike of a ray on the disc, if there is one. A ray parallel to
    /// the disc's plane strikes nothing, whatever the probe holds.
    pub fn intersect(&self, ray: &Ray, probe: &PlaneProbe) -> (r: Option<ComponentIntersection>)
        ensures
            r == self.hit(*ray, *probe),
            ray.direction.along(self.plane.normal_axis).zero() ==> r.is_none(),
            r matches Some(strike) ==> (Scalar { bits: 0 }).at_most(strike.t),
    {
        let intersection = self.plane.intersect(ray, probe);
        match intersection {
            None => None,
            Some(strike) => {
                if probe.radial.le(Scalar { bits: QUARTER_BITS }) {
                    Some(strike)
                } else {
                    None
                }
            },
        }
    }
}

/// The real roots of a quadratic equation, told from its discriminant:
/// none if it is below zero (or no number), the first alone if it is zero,
/// both if it is above.
pub open spec fn roots(probe: QuadraticProbe) -> Seq<Candidate> {
    let zero = Scalar { bits: 0 };
    if !zero.at_most(probe.discriminant) {
        seq![]
    } else if probe.discriminant.same(zero) {
        seq![probe.first]
    } else {
        seq![probe.first, probe.second]
    }
}

/// Finds the real roots of a quadratic equation among the two that the
/// caller worked out.
pub fn solve_quadratic(probe: &QuadraticProbe) -> (r: Vec<Candidate>)
    ensures
        r@ == roots(*probe),
{
    let mut solutions: Vec<Candidate> = Vec::new();
    let zero = Scalar { bits: 0 };
    if probe.discriminant.ge(zero) {
        solutions.push(probe.first);
        if !probe.discriminant.num_eq(zero) {
            solutions.push(probe.second);
        }
    }
    assert(solutions@ =~= roots(*probe));
    solutions
}

/// Whether a point lies within the height of a unit-sized body: its `y` is
/// from `-0.5` to `0.5`.
pub open spec fn constrained(point: Vec4) -> bool {
    within_half(point.y)
}

/// Whether a root counts: it is not behind the ray's start, and the point
/// there lies within the body's height.
pub open spec fn admissible(candidate: Candidate) -> bool {
    (Scalar { bits: 0 }).at_most(candidate.t) && constrained(candidate.point)
}

/// The strike of a ray on a quadratic body: at the least of the real roots
/// that count, the first of the two if they are equal.
pub open spec fn quadratic_hit(probe: QuadraticProbe) -> Option<ComponentIntersection> {
    let found = roots(probe);
    let first = found.len() >= 1 && admissible(probe.first);
    let second = found.len() >= 2 && admissible(probe.second);
    if first && second {
        if probe.second.t.below(probe.first.t) {
            Some(probe.second.strike())
        } else {
            Some(probe.first.strike())
        }
    } else if first {
        Some(probe.first.strike())
    } else if second {
        Some(probe.second.strike())
    } else {
        None
    }
}

/// Whether a point lies within the height of a unit-sized body.
pub fn check_constraint(point: &Vec4) -> (r: bool)
    ensures
        r == constrained(*point),
{
    is_within_half(point.y)
}

/// The strike of a ray on a quadratic body: there is one exactly when a
/// real root counts, and it is at a root that counts, than which no root
/// that counts is less.
pub fn quadratic_intersect(probe: &QuadraticProbe) -> (r: Option<ComponentIntersection>)
    ensures
        r == quadratic_hit(*probe),
        r.is_some() <==> exists|k: int|
            0 <= k < roots(*probe).len() && admissible(#[trigger] roots(*probe)[k]),
        r matches Some(strike) ==> {
            &&& (Scalar { bits: 0 }).at_most(strike.t)
            &&& exists|k: int|
                0 <= k < roots(*probe).len() && admissible(#[trigger] roots(*probe)[k])
                    && strike == roots(*probe)[k].strike()
            &&& forall|k: int|
                0 <= k < roots(*probe).len() && admissible(#[trigger] roots(*probe)[k])
                    ==> !roots(*probe)[k].t.below(strike.t)
        },
{
    let solutions = solve_quadratic(probe);
    let zero = Scalar { bits: 0 };
    let mut best: Option<Candidate> = None;
    let mut k: usize = 0;
    while k < solutions.len()
        invariant
            k <= solutions.len() <= 2,
            solutions@ == roots(*probe),
            zero == (Scalar { bits: 0 }),
            k == 0 ==> best.is_none(),
            k == 1 ==> best == (if admissible(probe.first) {
                Some(probe.first)
            } else {
                None
            }),
            k == 2 ==> (match best {
                Some(c) => Some(c.strike()),
                None => None,
            }) == quadratic_hit(*probe),
        decreases solutions.len() - k,
    {
        let candidate = solutions[k];
        if candidate.t.ge(zero) && check_constraint(&candidate.point) {
            best = match best {
                None => Some(candidate),
                Some(held) => if candidate.t.lt(held.t) {
                    Some(candidate)
                } else {
                    Some(held)
                },
            };
        }
        k = k + 1;
    }
    proof {
        let found = roots(*probe);
        if found.len() >= 1 {
            assert(found[0] == probe.first);
        }
        if found.len() >= 2 {
            assert(found[1] == probe.second);
        }
    }
    match best {
        Some(c) => Some(ComponentIntersection { t: c.t, normal: c.normal, uv: c.uv }),
        None => None,
    }
}

/// Whether the angle of a point about the vertical axis counts backward:
/// it is below zero. The texture coordinate `u` is then the angle's share
/// of a full turn with its sign flipped, and else one less that share, so
/// that `u` runs the same way round the body as it does round a cube.
pub open spec fn backward(theta: Scalar) -> bool {
    theta.below(Scalar { bits: 0 })
}

/// Whether the angle of a point about the vertical axis counts backward.
pub fn is_backward(theta: Scalar) -> (r: bool)
    ensures
        r == backward(theta),
{
    theta.lt(Scalar { bits: 0 })
}

/// Whether a point of a sphere lies at a pole, told from its texture
/// coordinate `v`: `v` is zero or one. There the angle about the axis means
/// nothing, and `u` is one half.
pub open spec fn polar(v: Scalar) -> bool {
    v.same(Scalar { bits: 0 }) || v.same(Scalar { bits: ONE_BITS })
}

/// Whether a point of a sphere lies at a pole.
pub fn is_polar(v: Scalar) -> (r: bool)
    ensures
        r == polar(v),
{
    v.num_eq(Scalar { bits: 0 }) || v.num_eq(Scalar { bits: ONE_BITS })
}

/// The side of a cone of height one and base radius one half, its apex up.
#[derive(Clone, Copy, Debug)]
pub struct ConeBody;

/// The side of a cylinder of height one and radius one half.
#[derive(Clone, Copy, Debug)]
pub struct CylinderBody;

/// A sphere of radius one half.
#[derive(Clone, Copy, Debug)]
pub struct Sphere;

impl ConeBody {
    /// Whether a point lies within the cone's height.
    pub fn check_constraint(&self, point: &Vec4) -> (r: bool)
        ensures
            r == constrained(*point),
    {
        check_constraint(point)
    }

    /// The strike of a ray on the cone's side, if there is one.
    pub fn intersect(&self, probe: &QuadraticProbe) -> (r: Option<ComponentIntersection>)
        ensures
            r == quadratic_hit(*probe),
            r matches Some(strike) ==> (Scalar { bits: 0 }).at_most(strike.t),
    {
        quadratic_intersect(probe)
    }
}

impl CylinderBody {
    /// Whether a point lies within the cylinder's height.
    pub fn check_constraint(&self, point: &Vec4) -> (r: bool)
        ensures
            r == constrained(*point),
    {
        check_constraint(point)
    }

    /// The strike of a ray on the cylinder's side, if there is one.
    pub fn intersect(&self, probe: &QuadraticProbe) -> (r: Option<ComponentIntersection>)
        ensures
            r == quadratic_hit(*probe),
            r matches Some(strike) ==> (Scalar { bits: 0 }).at_most(strike.t),
    {
        quadratic_intersect(probe)
    }
}

impl Sphere {
    /// Whether a point lies within the sphere's height.
    pub fn check_constraint(&self, point: &Vec4) -> (r: bool)
        ensures
            r == constrained(*point),
    {
        check_constraint(point)
    }

    /// The strike of a ray on the sphere, if there is one.
    pub fn intersect(&self, probe: &QuadraticProbe) -> (r: Option<ComponentIntersection>)
        ensures
            r == quadratic_hit(*probe),
            r matches Some(strike) ==> (Scalar { bits: 0 }).at_most(strike.t),
    {
        quadratic_intersect(probe)
    }
}

/// One analytic surface piece of a primitive.
#[derive(Clone, Copy, Debug)]
pub enum PrimitiveComponent {
    Square(Square),
    Circle(Circle),
    Sphere(Sphere),
    CylinderBody(CylinderBody),
    ConeBody(ConeBody),
}

impl PrimitiveComponent {
    /// The strike of a ray on the component, told from a probe of the kind
    /// that the component takes; with a probe of the other kind, none.
    pub open spec fn hit(self, ray: Ray, probe: Probe) -> Option<ComponentIntersection> {
        match (self, probe) {
            (PrimitiveComponent::Square(square), Probe::Plane(p)) => square.hit(ray, p),
            (PrimitiveComponent::Circle(circle), Probe::Plane(p)) => circle.hit(ray, p),
            (PrimitiveComponent::Sphere(_), Probe::Quadratic(q)) => quadratic_hit(q),
            (PrimitiveComponent::CylinderBody(_), Probe::Quadratic(q)) => quadratic_hit(q),
            (PrimitiveComponent::ConeBody(_), Probe::Quadratic(q)) => quadratic_hit(q),
            _ => None,
        }
    }

    /// The strike of a ray on the component, if there is one. Its ray
    /// parameter is zero or more.
    pub fn intersect(&self, ray: &Ray, probe: &Probe) -> (r: Option<ComponentIntersection>)
        ensures
            r == self.hit(*ray, *probe),
            r matches Some(strike) ==> (Scalar { bits: 0 }).at_most(strike.t),
    {
        match (self, probe) {
            (PrimitiveComponent::Square(square), Probe::Plane(p)) => square.intersect(ray, p),
            (PrimitiveComponent::Circle(circle), Probe::Plane(p)) => circle.intersect(ray, p),
            (PrimitiveComponent::Sphere(body), Probe::Quadratic(q)) => body.intersect(q),
            (PrimitiveComponent::CylinderBody(body), Probe::Quadratic(q)) => body.intersect(q),
            (PrimitiveComponent::ConeBody(body), Probe::Quadratic(q)) => body.intersect(q),
            _ => None,
        }
    }
}

/// The geometry of one kind of shape in object space. All shapes of a kind
/// share one primitive.
#[derive(Debug)]
pub struct Primitive {
    pub components: Vec<PrimitiveComponent>,
}

impl Primitive {
    /// What the component at position `k` reports for a ray: its strike as
    /// told from the probe at the same position, and a miss if there is no
    /// such probe.
    pub open spec fn report(self, ray: Ray, probes: Seq<Probe>, k: int) -> Option<
        ComponentIntersection,
    > {
        if k < probes.len() {
            self.components@[k].hit(ray, probes[k])
        } else {
            None
        }
    }

    /// What each component reports for a ray, in the components' order.
    pub open spec fn reports(self, ray: Ray, probes: Seq<Probe>) -> Seq<
        Option<ComponentIntersection>,
    > {
        Seq::new(self.components@.len(), |k: int| self.report(ray, probes, k))
    }

    /// The ray parameters of the components' reports.
    pub open spec fn report_parameters(self, ray: Ray, probes: Seq<Probe>) -> Seq<Option<Scalar>> {
        Seq::new(
            self.components@.len(),
            |k: int|
                match self.report(ray, probes, k) {
                    Some(strike) => Some(strike.t),
                    None => None,
                },
        )
    }

    /// The nearest strike of a ray on the primitive: the nearest of its
    /// components' strikes, the first of several equally near.
    pub open spec fn hit(self, ray: Ray, probes: Seq<Probe>) -> Option<ComponentIntersection> {
        match nearest(self.report_parameters(ray, probes)) {
            Some(i) => self.reports(ray, probes)[i],
            None => None,
        }
    }

    /// The nearest strike of a ray on the primitive, given one probe for
    /// each component, in the components' order. `None` exactly when every
    /// component is missed; otherwise a strike of some component, ahead of
    /// the ray's start, than which no component's strike is nearer.
    pub fn intersect(&self, object_space_ray: &Ray, probes: &Vec<Probe>) -> (r: Option<
        ComponentIntersection,
    >)
        ensures
            r == self.hit(*object_space_ray, probes@),
            r.is_none() <==> (forall|k: int|
                0 <= k < self.components.len() ==> (#[trigger] self.report(
                    *object_space_ray,
                    probes@,
                    k,
                )).is_none()),
            r matches Some(strike) ==> {
                &&& (Scalar { bits: 0 }).at_most(strike.t)
                &&& exists|k: int|
                    0 <= k < self.components.len() && #[trigger] self.report(
                        *object_space_ray,
                        probes@,
                        k,
                    ) == Some(strike)
                &&& forall|k: int|
                    0 <= k < self.components.len() ==> (match #[trigger] self.report(
                        *object_space_ray,
                        probes@,
                        k,
                    ) {
                        Some(other) => !other.t.below(strike.t),
                        None => true,
                    })
            },
    {
        let ghost ray = *object_space_ray;
        let mut intersections: Vec<Option<ComponentIntersection>> = Vec::new();
        let mut ts: Vec<Option<Scalar>> = Vec::new();
        let mut k: usize = 0;
        while k < self.components.len()
            invariant
                k <= self.components.len(),
                ray == *object_space_ray,
                intersections@ =~= self.reports(ray, probes@).take(k as int),
                ts@ =~= self.report_parameters(ray, probes@).take(k as int),
                forall|j: int|
                    0 <= j < k ==> (match #[trigger] self.report(ray, probes@, j) {
                        Some(strike) => (Scalar { bits: 0 }).at_most(strike.t),
                        None => true,
                    }),
            decreases self.components.len() - k,
        {
            let report = if k < probes.len() {
                self.components[k].intersect(object_space_ray, &probes[k])
            } else {
                None
            };
            let t = match report {
                Some(strike) => Some(strike.t),
                None => None,
            };
            intersections.push(report);
            ts.push(t);
            k = k + 1;
        }
        proof {
            let reports = self.reports(ray, probes@);
            let parameters = self.report_parameters(ray, probes@);
            assert(reports.take(self.components.len() as int) =~= reports);
            assert(parameters.take(self.components.len() as int) =~= parameters);
            lemma_nearest(parameters);
        }
        match nearest_index(&ts) {
            Some(i) => {
                proof {
                    let reports = self.reports(ray, probes@);
                    let parameters = self.report_parameters(ray, probes@);
                    assert(parameters[i as int].is_some());
                    assert(reports[i as int].is_some());
                    let strike = reports[i as int].unwrap();
                    assert(self.report(ray, probes@, i as int) == Some(strike));
                    assert forall|j: int| 0 <= j < self.components.len() implies (
                    match #[trigger] self.report(ray, probes@, j) {
                        Some(other) => !other.t.below(strike.t),
                        None => true,
                    }) by {
                        if reports[j].is_some() {
                            assert(parameters[j].is_some());
                            assert(!parameters[j].unwrap().below(parameters[i as int].unwrap()));
                        }
                    }
                }
                intersections[i]
            },
            None => {
                proof {
                    let parameters = self.report_parameters(ray, probes@);
                    assert forall|j: int| 0 <= j < self.components.len() implies (
                    #[trigger] self.report(ray, probes@, j)).is_none() by {
                        assert(parameters[j].is_none());
                    }
                }
                None
            },
        }
    }
}

} // verus!
