use raytracer::color::Color;
use raytracer::figure::FigureKind;
use raytracer::material::Material;
use raytracer::math::{Ray, Vector3};
use raytracer::num::{fx_div, fx_mul, fx_powi, fx_sqrt, EPSILON};

const S: i64 = 1_000_000;

#[test]
fn fixed_point_products_truncate() {
    assert_eq!(fx_mul(3, 500_000), 1);
    assert_eq!(fx_mul(5 * S, 300_000), 1_500_000);
    assert_eq!(fx_mul(-5 * S, 300_000), -1_500_000);
    assert_eq!(fx_mul(S, S), S);
    assert_eq!(fx_mul(0, 123_456), 0);
    assert_eq!(EPSILON, 1);
}

#[test]
fn fixed_point_division() {
    assert_eq!(fx_div(S, 2 * S), 500_000);
    assert_eq!(fx_div(-S, 2 * S), -500_000);
    assert_eq!(fx_div(S, -2 * S), -500_000);
    assert_eq!(fx_div(1, 3 * S), 0);
}

#[test]
fn fixed_point_sqrt() {
    assert_eq!(fx_sqrt(4 * S), 2 * S);
    assert_eq!(fx_sqrt(0), 0);
    assert_eq!(fx_sqrt(-5), 0);
    assert_eq!(fx_sqrt(2 * S), 1_414_213);
    assert_eq!(fx_sqrt(S), S);
}

#[test]
fn fixed_point_power() {
    assert_eq!(fx_powi(500_000, 0), S);
    assert_eq!(fx_powi(500_000, 1), 500_000);
    assert_eq!(fx_powi(500_000, 3), 125_000);
}

#[test]
fn vector_algebra() {
    let a = Vector3::new(S, 2 * S, 3 * S);
    let b = Vector3::new(4 * S, 5 * S, 6 * S);
    assert_eq!(a.add(&b), Vector3::new(5 * S, 7 * S, 9 * S));
    assert_eq!(b.sub(&a), Vector3::new(3 * S, 3 * S, 3 * S));
    assert_eq!(a.neg(), Vector3::new(-S, -2 * S, -3 * S));
    assert_eq!(a.scalar_product(&b), 32 * S);
    assert_eq!(a.mult(2 * S), Vector3::new(2 * S, 4 * S, 6 * S));
    assert_eq!(a.div(2 * S), Vector3::new(500_000, S, 1_500_000));
    assert_eq!(a.mult_per_element(&b), Vector3::new(4 * S, 10 * S, 18 * S));
    let ex = Vector3::new(S, 0, 0);
    let ey = Vector3::new(0, S, 0);
    assert_eq!(ex.cross_product(&ey), Vector3::new(0, 0, S));
}

#[test]
fn vector_normalize() {
    let v = Vector3::new(3 * S, 4 * S, 0);
    assert_eq!(v.len_sq(), 25 * S);
    assert_eq!(v.len(), 5 * S);
    assert_eq!(v.normalize(), Vector3::new(600_000, 800_000, 0));
    let zero = Vector3::new(0, 0, 0);
    assert_eq!(zero.normalize(), zero);
}

#[test]
fn vector_lerp_and_inverse() {
    let a = Vector3::new(0, 0, 0);
    let b = Vector3::new(2 * S, 4 * S, -2 * S);
    assert_eq!(a.lerp(&b, 500_000), Vector3::new(S, 2 * S, -S));
    let c = Vector3::new(2 * S, 4 * S, -2 * S);
    assert_eq!(c.inverse(), Vector3::new(500_000, 250_000, -500_000));
}

#[test]
fn vector_rotations() {
    // thirty degrees about the y axis
    let cos_a: i64 = 866_025;
    let sin_a: i64 = 500_000;
    let v = Vector3::new(S, 0, 0);
    assert_eq!(v.rotate_y_axis(cos_a, sin_a), Vector3::new(866_025, 0, -500_000));
    let w = Vector3::new(0, S, 0);
    assert_eq!(w.rotate_x_axis(cos_a, sin_a), Vector3::new(0, 866_025, 500_000));
    let u = Vector3::new(S, 0, 0);
    assert_eq!(u.rotate_z_axis(cos_a, sin_a), Vector3::new(866_025, 500_000, 0));
}

#[test]
fn ray_operations() {
    let r = Ray { pos: Vector3::new(0, 0, 0), dir: Vector3::new(0, 0, S) };
    assert_eq!(r.point_from_t(5 * S), Vector3::new(0, 0, 5 * S));
    let moved = r.move_forward(2 * S);
    assert_eq!(moved.pos, Vector3::new(0, 0, 2 * S));
    assert_eq!(moved.dir, r.dir);
    let n = Ray::new_normalize(Vector3::new(0, 0, 0), &Vector3::new(0, 3 * S, 4 * S));
    assert_eq!(n.dir, Vector3::new(0, 600_000, 800_000));
}

#[test]
fn reflection_flips_normal_component() {
    let r = Ray { pos: Vector3::new(0, 0, 0), dir: Vector3::new(300_000, -400_000, 500_000) };
    let p = Vector3::new(0, 0, 5 * S);
    let n = Vector3::new(0, 0, -S);
    let refl = r.reflect(&p, &n);
    assert_eq!(refl.pos, p);
    assert_eq!(refl.dir, Vector3::new(300_000, -400_000, -500_000));
}

#[test]
fn reflection_twice_restores_direction() {
    let dir = Vector3::new(300_000, -400_000, 500_000);
    let r = Ray { pos: Vector3::new(0, 0, 0), dir };
    let n = Vector3::new(0, 0, S);
    let p1 = Vector3::new(0, 0, 5 * S);
    let p2 = Vector3::new(0, 0, -5 * S);
    let once = r.reflect(&p1, &n);
    let twice = once.reflect(&p2, &n.neg());
    assert_eq!(twice.dir, dir);
}

#[test]
fn sphere_hit_straight_at_center() {
    // A ray aimed at the center from distance 10 of a radius-2 sphere
    // hits at distance 10 - 2 = 8, exactly.
    let r = Ray { pos: Vector3::new(0, 0, 0), dir: Vector3::new(0, 0, S) };
    let hit = FigureKind::sphere_intersect(&r, 2 * S, &Vector3::new(0, 0, 10 * S));
    assert_eq!(hit, Some(Vector3::new(0, 0, 8 * S)));
}

#[test]
fn sphere_missed_when_closest_approach_exceeds_radius() {
    let r = Ray { pos: Vector3::new(0, 0, 0), dir: Vector3::new(0, S, 0) };
    let miss = FigureKind::sphere_intersect(&r, 2 * S, &Vector3::new(0, 0, 10 * S));
    assert_eq!(miss, None);
    // Behind the origin: the sphere sits on the negative side of the ray.
    let behind = FigureKind::sphere_intersect(
        &Ray { pos: Vector3::new(0, 0, 0), dir: Vector3::new(0, 0, S) },
        2 * S,
        &Vector3::new(0, 0, -10 * S),
    );
    assert_eq!(behind, None);
}

#[test]
fn small_radius_sphere_near_miss() {
    // Closest approach 0.5 beyond a radius-0.2 sphere: a miss, also for
    // radii below one where the squared-radius guard matters.
    let r = Ray { pos: Vector3::new(500_000, 0, 0), dir: Vector3::new(0, 0, S) };
    let miss = FigureKind::sphere_intersect(&r, 200_000, &Vector3::new(0, 0, 10 * S));
    assert_eq!(miss, None);
}

#[test]
fn rectangle_hit_at_center_and_miss_beyond_edge() {
    let tl = Vector3::new(-S, -S, 5 * S);
    let tr = Vector3::new(S, -S, 5 * S);
    let dl = Vector3::new(-S, S, 5 * S);
    let normal = Vector3::new(0, 0, -S);
    let center_ray = Ray { pos: Vector3::new(0, 0, 0), dir: Vector3::new(0, 0, S) };
    let hit = FigureKind::rectangle_intersect(&center_ray, &tl, &tr, &dl, &normal);
    assert_eq!(hit, Some(Vector3::new(0, 0, 5 * S)));
    let off_ray = Ray { pos: Vector3::new(1_500_000, 0, 0), dir: Vector3::new(0, 0, S) };
    let miss = FigureKind::rectangle_intersect(&off_ray, &tl, &tr, &dl, &normal);
    assert_eq!(miss, None);
}

#[test]
fn plane_rejects_parallel_and_backward_rays() {
    let pp1 = Vector3::new(0, 0, 5 * S);
    let normal = Vector3::new(0, 0, -S);
    let parallel = Ray { pos: Vector3::new(0, 0, 0), dir: Vector3::new(S, 0, 0) };
    assert_eq!(FigureKind::plane_intersect(&parallel, &pp1, &normal), None);
    let backward = Ray { pos: Vector3::new(0, 0, 0), dir: Vector3::new(0, 0, -S) };
    assert_eq!(FigureKind::plane_intersect(&backward, &pp1, &normal), None);
}

#[test]
fn side_constructor_orients_normal() {
    let f = FigureKind::new_side(
        &Vector3::new(-S, -S, 5 * S),
        &Vector3::new(S, -S, 5 * S),
        &Vector3::new(-S, S, 5 * S),
        Material::frontwalls(),
    );
    match &f {
        FigureKind::Side { normal, .. } => {
            assert_eq!(*normal, Vector3::new(0, 0, S));
        },
        _ => panic!("expected a rectangle"),
    }
}

#[test]
fn cube_intersection_picks_nearest_face() {
    let cube = FigureKind::new_cube(
        &Vector3::new(-S, -S, 7 * S),
        &Vector3::new(S, -S, 7 * S),
        &Vector3::new(-S, S, 7 * S),
        &Vector3::new(-S, -S, 5 * S),
        Material::cube_material(),
    );
    let r = Ray { pos: Vector3::new(0, 0, 0), dir: Vector3::new(0, 0, S) };
    let hit = cube.intersect(&r).expect("front face hit");
    assert_eq!(hit, Vector3::new(0, 0, 5 * S));
    let hit_n = cube.intersect_with_normal(&r).expect("front face hit");
    assert_eq!(hit_n.0, Vector3::new(0, 0, 5 * S));
    assert_eq!(hit_n.1, Vector3::new(0, 0, -S));
}

#[test]
fn color_conversions_round() {
    assert_eq!(Color::white().to_vector3(), Vector3::new(S, S, S));
    assert_eq!(Color::black().to_vector3(), Vector3::new(0, 0, 0));
    let c = Color::from_vector3(&Vector3::new(2 * S, -5, 500_000));
    assert_eq!(c, Color::new(255, 0, 127));
    assert_eq!(Color::from_vector3(&Vector3::new(S, 0, S)), Color::new(255, 0, 255));
}
