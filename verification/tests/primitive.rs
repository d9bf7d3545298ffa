use rustracer::primitive::{
    check_constraint, is_backward, is_polar, is_within_half, quadratic_intersect,
    solve_quadratic, Axis, Candidate,
    Circle, ConeBody, CylinderBody, Plane, PlaneProbe, Primitive, PrimitiveComponent, Probe,
    QuadraticProbe, Ray, Sphere, Square, NEG_HALF_BITS,
};
use rustracer::scalar::Scalar;
use rustracer::vector::Vec4;

fn s(x: f32) -> Scalar {
    Scalar::from_bits(x.to_bits())
}

fn f(x: Scalar) -> f32 {
    f32::from_bits(x.bits)
}

fn v(p: [f32; 4]) -> Vec4 {
    Vec4::new(s(p[0]), s(p[1]), s(p[2]), s(p[3]))
}

fn at(position: [f32; 4], direction: [f32; 4], t: f32) -> [f32; 4] {
    [
        position[0] + direction[0] * t,
        position[1] + direction[1] * t,
        position[2] + direction[2] * t,
        position[3] + direction[3] * t,
    ]
}

fn ray(position: [f32; 4], direction: [f32; 4]) -> Ray {
    Ray::new(v(position), v(direction))
}

fn plane_probe(plane: &Plane, position: [f32; 4], direction: [f32; 4]) -> PlaneProbe {
    let axis = plane.normal_axis.index();
    let t = (f(plane.elevation) - position[axis]) / direction[axis];
    let point = at(position, direction, t);
    let flat = plane.flatten_onto(&v(point));
    let (u, w) = plane.uv_map(&v(point));
    PlaneProbe {
        t: s(t),
        point: v(point),
        uv: (s(f(u) + 0.5), s(f(w) + 0.5)),
        radial: s(f(flat[0]).powi(2) + f(flat[1]).powi(2)),
    }
}

fn sphere_probe(position: [f32; 4], direction: [f32; 4]) -> QuadraticProbe {
    let a = direction[0].powi(2) + direction[1].powi(2) + direction[2].powi(2);
    let b = 2.0
        * (position[0] * direction[0] + position[1] * direction[1] + position[2] * direction[2]);
    let c = position[0].powi(2) + position[1].powi(2) + position[2].powi(2) - 0.5f32.powi(2);
    let discriminant = b.powi(2) - 4.0 * a * c;
    let root = discriminant.sqrt();
    let candidate = |t: f32| {
        let point = at(position, direction, t);
        Candidate {
            t: s(t),
            point: v(point),
            normal: v([2.0 * point[0], 2.0 * point[1], 2.0 * point[2], 0.0]),
            uv: (s(0.5), s(0.5)),
        }
    };
    QuadraticProbe {
        discriminant: s(discriminant),
        first: candidate((-b + root) / (2.0 * a)),
        second: candidate((-b - root) / (2.0 * a)),
    }
}

fn candidate(t: f32, y: f32) -> Candidate {
    Candidate { t: s(t), point: v([0.0, y, 0.0, 1.0]), normal: v([t, 0.0, 0.0, 0.0]), uv: (s(t), s(y)) }
}

fn cube() -> Primitive {
    let mut components = Vec::new();
    for normal_axis in Axis::iterator() {
        for elevation in [-0.5f32, 0.5] {
            components.push(PrimitiveComponent::Square(Square {
                plane: Plane { normal_axis, elevation: s(elevation) },
            }));
        }
    }
    Primitive { components }
}

fn cube_probes(cube: &Primitive, position: [f32; 4], direction: [f32; 4]) -> Vec<Probe> {
    cube.components
        .iter()
        .map(|component| match component {
            PrimitiveComponent::Square(square) => {
                Probe::Plane(plane_probe(&square.plane, position, direction))
            }
            _ => unreachable!(),
        })
        .collect()
}

#[test]
fn axes_come_in_order() {
    let axes = Axis::iterator();
    assert_eq!(axes, [Axis::X, Axis::Y, Axis::Z]);
    assert_eq!(Axis::X.index(), 0);
    assert_eq!(Axis::Y.index(), 1);
    assert_eq!(Axis::Z.index(), 2);
}

#[test]
fn neg_half_is_the_bits_of_its_number() {
    assert_eq!(NEG_HALF_BITS, (-0.5f32).to_bits());
}

#[test]
fn ray_new_keeps_its_parts() {
    let r = ray([1.0, 2.0, 3.0, 1.0], [0.0, 0.0, -1.0, 0.0]);
    assert_eq!(f(r.position.y), 2.0);
    assert_eq!(f(r.direction.z), -1.0);
    assert_eq!(f(r.position.component(Axis::Z)), 3.0);
}

#[test]
fn within_half_includes_both_ends() {
    assert!(is_within_half(s(0.5)));
    assert!(is_within_half(s(-0.5)));
    assert!(is_within_half(s(0.0)));
    assert!(!is_within_half(s(0.50000006)));
    assert!(!is_within_half(s(-0.50000006)));
    assert!(!is_within_half(s(f32::NAN)));
    assert!(check_constraint(&v([9.0, 0.5, 9.0, 1.0])));
    assert!(!check_constraint(&v([0.0, 0.6, 0.0, 1.0])));
}

#[test]
fn plane_normal_is_the_unit_vector_of_its_axis() {
    for (axis, expected) in
        [(Axis::X, [1.0, 0.0, 0.0, 0.0]), (Axis::Y, [0.0, 1.0, 0.0, 0.0]), (Axis::Z, [0.0, 0.0, 1.0, 0.0])]
    {
        let n = Plane { normal_axis: axis, elevation: s(-0.5) }.normal();
        assert_eq!([f(n.x), f(n.y), f(n.z), f(n.w)], expected);
    }
}

#[test]
fn plane_flattens_onto_the_other_two_axes() {
    let p = v([1.0, 2.0, 3.0, 1.0]);
    let flat = |axis| {
        let r = Plane { normal_axis: axis, elevation: s(0.5) }.flatten_onto(&p);
        [f(r[0]), f(r[1])]
    };
    assert_eq!(flat(Axis::X), [2.0, 3.0]);
    assert_eq!(flat(Axis::Y), [1.0, 3.0]);
    assert_eq!(flat(Axis::Z), [1.0, 2.0]);
}

#[test]
fn plane_uv_map_follows_the_sign_convention() {
    let p = v([1.0, 2.0, 3.0, 1.0]);
    let uv = |axis, elevation: f32| {
        let r = Plane { normal_axis: axis, elevation: s(elevation) }.uv_map(&p);
        (f(r.0), f(r.1))
    };
    assert_eq!(uv(Axis::X, 0.5), (-3.0, 2.0));
    assert_eq!(uv(Axis::X, -0.5), (3.0, 2.0));
    assert_eq!(uv(Axis::Y, 0.5), (1.0, -3.0));
    assert_eq!(uv(Axis::Y, -0.5), (1.0, 3.0));
    assert_eq!(uv(Axis::Z, 0.5), (1.0, 2.0));
    assert_eq!(uv(Axis::Z, -0.5), (-1.0, 2.0));
    assert_eq!(uv(Axis::X, 0.0), (3.0, 2.0));
}

#[test]
fn plane_is_struck_ahead_of_the_ray() {
    let plane = Plane { normal_axis: Axis::Z, elevation: s(0.5) };
    let position = [0.1, 0.2, 5.0, 1.0];
    let direction = [0.0, 0.0, -1.0, 0.0];
    let hit = plane.intersect(&ray(position, direction), &plane_probe(&plane, position, direction)).unwrap();
    assert_eq!(f(hit.t), 4.5);
    assert_eq!([f(hit.normal.x), f(hit.normal.y), f(hit.normal.z)], [0.0, 0.0, 1.0]);
    assert_eq!((f(hit.uv.0), f(hit.uv.1)), (0.6, 0.7));
}

#[test]
fn plane_behind_the_ray_is_missed() {
    let plane = Plane { normal_axis: Axis::Z, elevation: s(0.5) };
    let position = [0.0, 0.0, 5.0, 1.0];
    let direction = [0.0, 0.0, 1.0, 0.0];
    assert!(plane.intersect(&ray(position, direction), &plane_probe(&plane, position, direction)).is_none());
}

#[test]
fn plane_parallel_to_the_ray_is_missed() {
    let plane = Plane { normal_axis: Axis::Y, elevation: s(0.5) };
    for direction in [[1.0, 0.0, 0.0, 0.0], [1.0, -0.0, 0.0, 0.0]] {
        for position in [[0.0, 0.0, 0.0, 1.0], [0.0, 0.5, 0.0, 1.0], [0.0, 2.0, 0.0, 1.0]] {
            let probe = plane_probe(&plane, position, direction);
            assert!(plane.intersect(&ray(position, direction), &probe).is_none());
        }
    }
}

#[test]
fn square_is_bounded_by_half_on_each_side() {
    let square = Square { plane: Plane { normal_axis: Axis::Z, elevation: s(0.5) } };
    let direction = [0.0, 0.0, -1.0, 0.0];
    let hit = |x: f32, y: f32| {
        let position = [x, y, 5.0, 1.0];
        square.intersect(&ray(position, direction), &plane_probe(&square.plane, position, direction))
    };
    assert!(hit(0.0, 0.0).is_some());
    assert!(hit(0.5, -0.5).is_some());
    assert!(hit(0.51, 0.0).is_none());
    assert!(hit(0.0, -0.51).is_none());
    assert_eq!(f(hit(0.25, 0.25).unwrap().t), 4.5);
}

#[test]
fn circle_is_bounded_by_its_radius() {
    let circle = Circle { plane: Plane { normal_axis: Axis::Y, elevation: s(-0.5) } };
    let direction = [0.0, 1.0, 0.0, 0.0];
    let hit = |x: f32, z: f32| {
        let position = [x, -3.0, z, 1.0];
        circle.intersect(&ray(position, direction), &plane_probe(&circle.plane, position, direction))
    };
    assert!(hit(0.0, 0.0).is_some());
    assert!(hit(0.5, 0.0).is_some());
    assert!(hit(0.3, 0.4).is_some());
    assert!(hit(0.4, 0.4).is_none());
    assert!(hit(0.45, 0.45).is_none());
    assert_eq!(f(hit(0.1, 0.1).unwrap().t), 2.5);
    assert_eq!(f(hit(0.1, 0.1).unwrap().normal.y), 1.0);
}

#[test]
fn solve_quadratic_counts_roots_by_the_discriminant() {
    let probe = |discriminant: f32| QuadraticProbe {
        discriminant: s(discriminant),
        first: candidate(1.0, 0.0),
        second: candidate(2.0, 0.0),
    };
    assert_eq!(solve_quadratic(&probe(-1.0)).len(), 0);
    assert_eq!(solve_quadratic(&probe(f32::NAN)).len(), 0);
    let one = solve_quadratic(&probe(0.0));
    assert_eq!(one.len(), 1);
    assert_eq!(f(one[0].t), 1.0);
    assert_eq!(solve_quadratic(&probe(-0.0)).len(), 1);
    let two = solve_quadratic(&probe(4.0));
    assert_eq!(two.len(), 2);
    assert_eq!((f(two[0].t), f(two[1].t)), (1.0, 2.0));
}

#[test]
fn quadratic_body_takes_the_least_root_that_counts() {
    let probe = |first: Candidate, second: Candidate| QuadraticProbe { discriminant: s(1.0), first, second };
    let t = |p: QuadraticProbe| quadratic_intersect(&p).map(|hit| f(hit.t));
    assert_eq!(t(probe(candidate(5.5, 0.0), candidate(4.5, 0.0))), Some(4.5));
    assert_eq!(t(probe(candidate(4.5, 0.0), candidate(5.5, 0.0))), Some(4.5));
    assert_eq!(t(probe(candidate(5.5, 0.0), candidate(-4.5, 0.0))), Some(5.5));
    assert_eq!(t(probe(candidate(-5.5, 0.0), candidate(4.5, 0.0))), Some(4.5));
    assert_eq!(t(probe(candidate(-5.5, 0.0), candidate(-4.5, 0.0))), None);
    assert_eq!(t(probe(candidate(5.5, 0.0), candidate(4.5, 0.7))), Some(5.5));
    assert_eq!(t(probe(candidate(5.5, -0.7), candidate(4.5, 0.7))), None);
    assert_eq!(t(probe(candidate(f32::NAN, 0.0), candidate(4.5, 0.0))), Some(4.5));
    assert_eq!(t(probe(candidate(0.0, 0.5), candidate(3.0, 0.0))), Some(0.0));
}

#[test]
fn quadratic_body_carries_normal_and_uv_of_the_root_chosen() {
    let p = QuadraticProbe { discriminant: s(1.0), first: candidate(5.5, 0.1), second: candidate(4.5, 0.2) };
    let hit = quadratic_intersect(&p).unwrap();
    assert_eq!(f(hit.normal.x), 4.5);
    assert_eq!((f(hit.uv.0), f(hit.uv.1)), (4.5, 0.2));
}

#[test]
fn quadratic_body_with_negative_discriminant_is_missed() {
    let p = QuadraticProbe { discriminant: s(-0.5), first: candidate(1.0, 0.0), second: candidate(2.0, 0.0) };
    assert!(quadratic_intersect(&p).is_none());
    assert!(Sphere.intersect(&p).is_none());
    assert!(CylinderBody.intersect(&p).is_none());
    assert!(ConeBody.intersect(&p).is_none());
}

#[test]
fn bodies_share_the_height_constraint() {
    let inside = v([3.0, -0.5, 3.0, 1.0]);
    let outside = v([0.0, 0.75, 0.0, 1.0]);
    assert!(Sphere.check_constraint(&inside) && !Sphere.check_constraint(&outside));
    assert!(CylinderBody.check_constraint(&inside) && !CylinderBody.check_constraint(&outside));
    assert!(ConeBody.check_constraint(&inside) && !ConeBody.check_constraint(&outside));
}

#[test]
fn unit_sphere_is_struck_from_the_front() {
    let position = [0.0, 0.0, 5.0, 1.0];
    let direction = [0.0, 0.0, -1.0, 0.0];
    let hit = Sphere.intersect(&sphere_probe(position, direction)).unwrap();
    assert_eq!(f(hit.t), 4.5);
    assert_eq!(f(hit.normal.x), 0.0);
    assert_eq!(f(hit.normal.y), 0.0);
    assert!(f(hit.normal.z) > 0.0);
}

#[test]
fn unit_sphere_is_missed_by_a_ray_that_passes_it() {
    assert!(Sphere.intersect(&sphere_probe([2.0, 0.0, 5.0, 1.0], [0.0, 0.0, -1.0, 0.0])).is_none());
    assert!(Sphere.intersect(&sphere_probe([0.0, 0.0, 5.0, 1.0], [0.0, 0.0, 1.0, 0.0])).is_none());
}

#[test]
fn component_with_a_probe_of_the_other_kind_is_missed() {
    let square = PrimitiveComponent::Square(Square { plane: Plane { normal_axis: Axis::Z, elevation: s(0.5) } });
    let sphere = PrimitiveComponent::Sphere(Sphere);
    let position = [0.0, 0.0, 5.0, 1.0];
    let direction = [0.0, 0.0, -1.0, 0.0];
    let r = ray(position, direction);
    let quadratic = Probe::Quadratic(sphere_probe(position, direction));
    let planar = Probe::Plane(plane_probe(&Plane { normal_axis: Axis::Z, elevation: s(0.5) }, position, direction));
    assert!(square.intersect(&r, &quadratic).is_none());
    assert!(sphere.intersect(&r, &planar).is_none());
    assert!(square.intersect(&r, &planar).is_some());
    assert!(sphere.intersect(&r, &quadratic).is_some());
}

#[test]
fn unit_cube_is_struck_on_its_nearest_face() {
    let cube = cube();
    let position = [0.1, 0.2, 5.0, 1.0];
    let direction = [0.0, 0.0, -1.0, 0.0];
    let hit = cube.intersect(&ray(position, direction), &cube_probes(&cube, position, direction)).unwrap();
    assert_eq!(f(hit.t), 4.5);
    assert_eq!([f(hit.normal.x), f(hit.normal.y), f(hit.normal.z)], [0.0, 0.0, 1.0]);
}

#[test]
fn unit_cube_ignores_faces_parallel_to_the_ray() {
    let cube = cube();
    let position = [0.0, 0.0, 5.0, 1.0];
    let direction = [0.0, 0.0, -1.0, 0.0];
    let probes = cube_probes(&cube, position, direction);
    let r = ray(position, direction);
    for k in 0..4 {
        assert!(cube.components[k].intersect(&r, &probes[k]).is_none(), "face {k}");
    }
    assert!(cube.components[4].intersect(&r, &probes[4]).is_some());
    assert!(cube.components[5].intersect(&r, &probes[5]).is_some());
    let inside = [0.0, 0.5, 0.0, 1.0];
    let along = [1.0, 0.0, 0.0, 0.0];
    let probes = cube_probes(&cube, inside, along);
    let r = ray(inside, along);
    for k in 2..6 {
        assert!(cube.components[k].intersect(&r, &probes[k]).is_none(), "face {k}");
    }
    assert_eq!(f(cube.intersect(&r, &probes).unwrap().t), 0.5);
}

#[test]
fn unit_cube_is_missed_by_a_ray_that_passes_it() {
    let cube = cube();
    let position = [2.0, 0.0, 5.0, 1.0];
    let direction = [0.0, 0.0, -1.0, 0.0];
    assert!(cube.intersect(&ray(position, direction), &cube_probes(&cube, position, direction)).is_none());
}

#[test]
fn primitive_without_components_is_missed() {
    let empty = Primitive { components: Vec::new() };
    assert!(empty.intersect(&ray([0.0; 4], [1.0, 0.0, 0.0, 0.0]), &Vec::new()).is_none());
}

#[test]
fn plane_with_no_number_for_a_parameter_is_missed() {
    let plane = Plane { normal_axis: Axis::Z, elevation: s(0.5) };
    let r = ray([0.0, 0.0, 5.0, 1.0], [0.0, 0.0, -1.0, 0.0]);
    let probe = PlaneProbe {
        t: s(f32::NAN),
        point: v([0.0, 0.0, 0.5, 1.0]),
        uv: (s(0.5), s(0.5)),
        radial: s(0.0),
    };
    assert!(plane.intersect(&r, &probe).is_none());
    assert!(Square { plane }.intersect(&r, &probe).is_none());
    assert!(Circle { plane }.intersect(&r, &probe).is_none());
    let at_start = PlaneProbe { t: s(0.0), ..probe };
    assert!(plane.intersect(&r, &at_start).is_some());
    let behind = PlaneProbe { t: s(-0.0), ..probe };
    assert!(plane.intersect(&r, &behind).is_some());
}

#[test]
fn component_without_a_probe_is_missed() {
    let cube = cube();
    let position = [0.0, 0.0, 5.0, 1.0];
    let direction = [0.0, 0.0, -1.0, 0.0];
    let mut probes = cube_probes(&cube, position, direction);
    probes.truncate(5);
    let hit = cube.intersect(&ray(position, direction), &probes).unwrap();
    assert_eq!(f(hit.t), 5.5);
    probes.truncate(4);
    assert!(cube.intersect(&ray(position, direction), &probes).is_none());
    assert!(cube.intersect(&ray(position, direction), &Vec::new()).is_none());
}

#[test]
fn angles_below_zero_count_backward() {
    assert!(is_backward(s(-0.5)));
    assert!(is_backward(s(-std::f32::consts::PI)));
    assert!(!is_backward(s(0.0)));
    assert!(!is_backward(s(-0.0)));
    assert!(!is_backward(s(2.0)));
    assert!(!is_backward(s(f32::NAN)));
    for (z, x) in [(1.0f32, 1.0f32), (-1.0, 1.0), (-1.0, -1.0), (1.0, -1.0), (0.0, -1.0), (-0.0, -1.0)] {
        let theta = z.atan2(x);
        assert_eq!(is_backward(s(theta)), theta < 0.0);
    }
}

#[test]
fn poles_are_where_v_is_zero_or_one() {
    assert!(is_polar(s(0.0)));
    assert!(is_polar(s(-0.0)));
    assert!(is_polar(s(1.0)));
    assert!(!is_polar(s(0.5)));
    assert!(!is_polar(s(0.99999994)));
    assert!(!is_polar(s(f32::NAN)));
    for y in [-0.5f32, 0.5, 0.0, 0.25] {
        let v = (y / 0.5).asin() / std::f32::consts::PI + 0.5;
        assert_eq!(is_polar(s(v)), v == 0.0 || v == 1.0);
    }
}
