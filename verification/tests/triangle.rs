use math::round;
use planar::{
    Corner, Corners, InteriorAngles, Leg, Legs, Point, Reading, SideLegs, Sides, Triangle,
    TriangleOutcome, TriangleTask,
};

fn vertex(x: f32, y: f32) -> Point {
    Point { x: x.to_bits(), y: y.to_bits() }
}

fn difference(leg: Leg) -> f32 {
    f32::from_bits(leg.minuend) - f32::from_bits(leg.subtrahend)
}

fn side(legs: Legs) -> u32 {
    (difference(legs.opposite).powf(2.0) + difference(legs.adjacent).powf(2.0)).sqrt().to_bits()
}

fn get_angle(corner: Corner) -> u32 {
    let adj1 = f32::from_bits(corner.adjacent_1);
    let adj2 = f32::from_bits(corner.adjacent_2);
    let opp = f32::from_bits(corner.opposite);
    (((adj1.powf(2.0) + adj2.powf(2.0) - opp.powf(2.0)) / (2.0 * adj1 * adj2)).acos() * 180.0
        / std::f32::consts::PI)
        .to_bits()
}

fn sides_of(legs: SideLegs) -> Sides {
    Sides { ab: side(legs.ab), bc: side(legs.bc), ca: side(legs.ca) }
}

fn angles_of(corners: Corners) -> InteriorAngles {
    InteriorAngles {
        alpha: get_angle(corners.alpha),
        beta: get_angle(corners.beta),
        gamma: get_angle(corners.gamma),
    }
}

fn arithmetic(task: TriangleTask) -> TriangleOutcome {
    match task {
        TriangleTask::Sides(legs) => TriangleOutcome::Sides(sides_of(legs)),
        TriangleTask::Angles(corners) => TriangleOutcome::Angles(angles_of(corners)),
    }
}

fn forced(triangle: &mut Triangle, read: fn(&Triangle) -> Reading<TriangleTask>) -> f32 {
    let mut rounds = 0;
    loop {
        match read(triangle) {
            Reading::Known(bits) => return f32::from_bits(bits),
            Reading::Missing(task) => {
                assert!(rounds < 2);
                assert!(triangle.supply(arithmetic(task)));
                rounds += 1;
            }
        }
    }
}

fn initialized(point_a: Point, point_b: Point, point_c: Point) -> Triangle {
    let sides = sides_of(SideLegs {
        ab: point_a.legs_to(&point_b),
        bc: point_b.legs_to(&point_c),
        ca: point_c.legs_to(&point_a),
    });
    Triangle::new_initialized(point_a, point_b, point_c, sides, angles_of(sides.corners()))
}

fn bits(a: f32, b: f32, c: f32) -> (u32, u32, u32) {
    (a.to_bits(), b.to_bits(), c.to_bits())
}

#[test]
fn test_triangle_from_three_points() {
    let point_a = vertex(4.0, 7.0);
    let point_b = vertex(12.0, 9.0);
    let point_c = vertex(8.0, 12.0);
    let expected_alpha = 37.3;
    let expected_beta = 50.9;
    let expected_gamma = 91.8;
    let mut result = initialized(point_a, point_b, point_c);
    println!("{:?}", result);
    assert_eq!(
        expected_alpha,
        round::half_away_from_zero(forced(&mut result, Triangle::alpha).into(), 1)
    );
    assert_eq!(
        expected_beta,
        round::half_away_from_zero(forced(&mut result, Triangle::beta).into(), 1)
    );
    assert_eq!(
        expected_gamma,
        round::half_away_from_zero(forced(&mut result, Triangle::gamma).into(), 1)
    );
}

#[test]
fn lazy_triangle_gives_the_same_angles() {
    let mut t = Triangle::new(vertex(4.0, 7.0), vertex(12.0, 9.0), vertex(8.0, 12.0));
    assert_eq!(round::half_away_from_zero(forced(&mut t, Triangle::gamma).into(), 1), 91.8);
    assert_eq!(round::half_away_from_zero(forced(&mut t, Triangle::alpha).into(), 1), 37.3);
    assert_eq!(round::half_away_from_zero(forced(&mut t, Triangle::beta).into(), 1), 50.9);
    assert_eq!(forced(&mut t, Triangle::ab), 68f32.sqrt());
    assert_eq!(forced(&mut t, Triangle::bc), 5.0);
    assert_eq!(forced(&mut t, Triangle::ca), 41f32.sqrt());
}

#[test]
fn fresh_triangle_asks_for_its_sides() {
    let a = vertex(4.0, 7.0);
    let b = vertex(12.0, 9.0);
    let c = vertex(8.0, 12.0);
    let t = Triangle::new(a, b, c);
    let leg = |minuend: f32, subtrahend: f32| Leg {
        minuend: minuend.to_bits(),
        subtrahend: subtrahend.to_bits(),
    };
    let task = TriangleTask::Sides(SideLegs {
        ab: Legs { opposite: leg(4.0, 12.0), adjacent: leg(7.0, 9.0) },
        bc: Legs { opposite: leg(12.0, 8.0), adjacent: leg(9.0, 12.0) },
        ca: Legs { opposite: leg(8.0, 4.0), adjacent: leg(12.0, 7.0) },
    });
    assert_eq!(t.point_a(), a);
    assert_eq!(t.point_b(), b);
    assert_eq!(t.point_c(), c);
    assert_eq!(t.ab(), Reading::Missing(task));
    assert_eq!(t.bc(), Reading::Missing(task));
    assert_eq!(t.ca(), Reading::Missing(task));
    assert_eq!(t.alpha(), Reading::Missing(task));
    assert_eq!(t.beta(), Reading::Missing(task));
    assert_eq!(t.gamma(), Reading::Missing(task));
    assert_eq!(t.init(), Some(task));
}

#[test]
fn corners_put_each_side_in_its_place() {
    let (ab, bc, ca) = bits(3.0, 4.0, 5.0);
    let corners = Sides { ab, bc, ca }.corners();
    assert_eq!(corners.alpha, Corner { adjacent_1: ab, adjacent_2: ca, opposite: bc });
    assert_eq!(corners.beta, Corner { adjacent_1: bc, adjacent_2: ab, opposite: ca });
    assert_eq!(corners.gamma, Corner { adjacent_1: ca, adjacent_2: bc, opposite: ab });
}

#[test]
fn angles_are_asked_for_on_the_cached_sides() {
    let mut t = Triangle::new(vertex(0.0, 0.0), vertex(3.0, 0.0), vertex(3.0, 4.0));
    let (ab, bc, ca) = bits(3.0, 4.0, 5.0);
    assert!(t.supply(TriangleOutcome::Sides(Sides { ab, bc, ca })));
    assert_eq!(t.ab(), Reading::Known(ab));
    assert_eq!(t.bc(), Reading::Known(bc));
    assert_eq!(t.ca(), Reading::Known(ca));
    let task = TriangleTask::Angles(Corners {
        alpha: Corner { adjacent_1: ab, adjacent_2: ca, opposite: bc },
        beta: Corner { adjacent_1: bc, adjacent_2: ab, opposite: ca },
        gamma: Corner { adjacent_1: ca, adjacent_2: bc, opposite: ab },
    });
    assert_eq!(t.alpha(), Reading::Missing(task));
    assert_eq!(t.beta(), Reading::Missing(task));
    assert_eq!(t.gamma(), Reading::Missing(task));
    assert_eq!(t.init(), Some(task));
    let (alpha, beta, gamma) = bits(53.0, 90.0, 37.0);
    assert!(t.supply(TriangleOutcome::Angles(InteriorAngles { alpha, beta, gamma })));
    assert_eq!(t.alpha(), Reading::Known(alpha));
    assert_eq!(t.beta(), Reading::Known(beta));
    assert_eq!(t.gamma(), Reading::Known(gamma));
    assert_eq!(t.init(), None);
}

#[test]
fn angles_are_refused_before_the_sides() {
    let fresh = Triangle::new(vertex(0.0, 0.0), vertex(3.0, 0.0), vertex(3.0, 4.0));
    let mut t = fresh;
    let (alpha, beta, gamma) = bits(53.0, 90.0, 37.0);
    assert!(!t.supply(TriangleOutcome::Angles(InteriorAngles { alpha, beta, gamma })));
    assert_eq!(t, fresh);
    assert_eq!(t.alpha(), fresh.alpha());
}

#[test]
fn cached_sides_and_angles_are_never_replaced() {
    let mut t = Triangle::new(vertex(4.0, 7.0), vertex(12.0, 9.0), vertex(8.0, 12.0));
    let ab = forced(&mut t, Triangle::ab);
    let after_sides = t;
    assert_eq!(forced(&mut t, Triangle::ab).to_bits(), ab.to_bits());
    assert_eq!(t, after_sides);
    assert!(!t.supply(TriangleOutcome::Sides(Sides { ab: 1, bc: 2, ca: 3 })));
    assert_eq!(t, after_sides);

    let alpha = forced(&mut t, Triangle::alpha);
    let complete = t;
    assert_eq!(forced(&mut t, Triangle::alpha).to_bits(), alpha.to_bits());
    assert!(!t.supply(TriangleOutcome::Angles(InteriorAngles { alpha: 1, beta: 2, gamma: 3 })));
    assert!(!t.supply(TriangleOutcome::Sides(Sides { ab: 1, bc: 2, ca: 3 })));
    assert_eq!(t, complete);
    assert_eq!(forced(&mut t, Triangle::ab).to_bits(), ab.to_bits());
}

#[test]
fn eager_triangle_equals_forced_lazy_triangle() {
    let a = vertex(4.0, 7.0);
    let b = vertex(12.0, 9.0);
    let c = vertex(8.0, 12.0);
    let eager = initialized(a, b, c);

    let mut lazy = Triangle::new(a, b, c);
    let _ = forced(&mut lazy, Triangle::beta);
    let _ = forced(&mut lazy, Triangle::ca);
    assert_eq!(eager, lazy);

    let mut stepped = Triangle::new(a, b, c);
    let mut rounds = 0;
    while let Some(task) = stepped.init() {
        assert!(stepped.supply(arithmetic(task)));
        rounds += 1;
    }
    assert_eq!(rounds, 2);
    assert_eq!(eager, stepped);
    assert_eq!(eager.init(), None);
    assert_ne!(eager, Triangle::new(a, b, c));
}

#[test]
fn initialized_triangle_reads_what_it_was_given() {
    let sides = Sides { ab: 1, bc: 2, ca: 3 };
    let angles = InteriorAngles { alpha: 4, beta: 5, gamma: 6 };
    let t = Triangle::new_initialized(
        vertex(0.0, 0.0),
        vertex(1.0, 0.0),
        vertex(0.0, 1.0),
        sides,
        angles,
    );
    assert_eq!(t.ab(), Reading::Known(1));
    assert_eq!(t.bc(), Reading::Known(2));
    assert_eq!(t.ca(), Reading::Known(3));
    assert_eq!(t.alpha(), Reading::Known(4));
    assert_eq!(t.beta(), Reading::Known(5));
    assert_eq!(t.gamma(), Reading::Known(6));
    assert_eq!(t.init(), None);
}

#[test]
fn interior_angles_sum_to_a_straight_angle() {
    let mut t = Triangle::new(vertex(4.0, 7.0), vertex(12.0, 9.0), vertex(8.0, 12.0));
    let sum = forced(&mut t, Triangle::alpha)
        + forced(&mut t, Triangle::beta)
        + forced(&mut t, Triangle::gamma);
    assert!((sum - 180.0).abs() <= 1e-3);
    let mut u = Triangle::new(vertex(-1.0, -1.0), vertex(5.0, 0.5), vertex(0.0, 6.0));
    let sum = forced(&mut u, Triangle::alpha)
        + forced(&mut u, Triangle::beta)
        + forced(&mut u, Triangle::gamma);
    assert!((sum - 180.0).abs() <= 1e-3);
}

#[test]
fn right_triangle_has_a_right_angle() {
    let mut t = Triangle::new(vertex(0.0, 0.0), vertex(3.0, 0.0), vertex(3.0, 4.0));
    assert_eq!(forced(&mut t, Triangle::ab), 3.0);
    assert_eq!(forced(&mut t, Triangle::bc), 4.0);
    assert_eq!(forced(&mut t, Triangle::ca), 5.0);
    assert_eq!(forced(&mut t, Triangle::beta), 90.0);
    assert_eq!(round::half_away_from_zero(forced(&mut t, Triangle::alpha).into(), 1), 53.1);
    assert_eq!(round::half_away_from_zero(forced(&mut t, Triangle::gamma).into(), 1), 36.9);
}

#[test]
fn sides_that_form_no_triangle_give_nan() {
    let (adjacent_1, adjacent_2, opposite) = bits(1.0, 1.0, 3.0);
    assert!(f32::from_bits(get_angle(Corner { adjacent_1, adjacent_2, opposite })).is_nan());
    let mut t = Triangle::new(vertex(0.0, 0.0), vertex(1.0, 0.0), vertex(2.0, 0.0));
    let (ab, bc, ca) = bits(1.0, 1.0, 3.0);
    assert!(t.supply(TriangleOutcome::Sides(Sides { ab, bc, ca })));
    assert!(forced(&mut t, Triangle::alpha).is_nan());
    assert!(forced(&mut t, Triangle::gamma).is_nan());
}

#[test]
fn coincident_vertices_give_nan_angles() {
    let a = vertex(1.0, 1.0);
    let mut t = Triangle::new(a, a, vertex(4.0, 5.0));
    assert_eq!(forced(&mut t, Triangle::ab), 0.0);
    assert_eq!(forced(&mut t, Triangle::bc), 5.0);
    assert_eq!(forced(&mut t, Triangle::ca), 5.0);
    assert!(forced(&mut t, Triangle::alpha).is_nan());
    assert!(forced(&mut t, Triangle::beta).is_nan());
    assert_eq!(forced(&mut t, Triangle::gamma), 0.0);
}
