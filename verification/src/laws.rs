//! Laws of the renderer, proved against the spec-level mirrors: what
//! missing rays, unlit diffuse surfaces, opaque occluders, flat mirrors
//! and empty scenes yield.

use vstd::prelude::*;
use crate::color::Color;
use crate::figure::{figure_intersect_spec, figure_material_spec, FigureKind};
use crate::math::{
    ray_reflect_spec, v_div_spec, v_dot_spec, v_len_spec, v_mult_spec, v_neg_spec, v_sub_spec,
    v_zero_spec, Ray, Vector3,
};
use crate::num::{
    fx_mul_spec, fx_sub_spec, iabs, lemma_fx_mul_double, lemma_fx_mul_neg_unit, lemma_fx_mul_unit,
    lemma_fx_mul_zero, SCALE,
};
use crate::raytracer::{
    nearest_hit_spec, pixel_color_spec, raytrace_spec, shadow_part_spec, shadow_scan_spec,
    lemma_shadow_scan_none,
};
use crate::scene::{LightSource, Scene};

verus! {

proof fn lemma_nearest_none(figures: Seq<FigureKind>, r: Ray, n: int)
    requires
        0 <= n <= figures.len(),
        forall|i: int| 0 <= i < n ==> figure_intersect_spec(#[trigger] figures[i], r) is None,
    ensures
        nearest_hit_spec(figures, r, n) == (i64::MAX, -1int),
    decreases n,
{
    if n > 0 {
        lemma_nearest_none(figures, r, n - 1);
    }
}

/// Law: a ray that misses every figure of the scene traces to pure black,
/// at any depth and for any energy portion.
pub proof fn lemma_trace_miss_black(iter: u32, scene: Scene, r: Ray, portion: i64)
    requires
        forall|i: int|
            0 <= i < scene.figures@.len() ==> figure_intersect_spec(
                #[trigger] scene.figures@[i],
                r,
            ) is None,
    ensures
        raytrace_spec(iter, scene, r, portion) == v_zero_spec(),
{
    lemma_nearest_none(scene.figures@, r, scene.figures@.len() as int);
}

/// Law: when the nearest figure hit by a ray is fully diffuse and opaque
/// (no reflectivity, no transparency) and the scene holds no light, the
/// traced color is exactly the material color scaled by its base
/// illumination and by the energy portion.
pub proof fn lemma_diffuse_opaque_unlit(iter: u32, scene: Scene, r: Ray, portion: i64)
    requires
        iter <= 10,
        scene.lights@.len() == 0,
        nearest_hit_spec(scene.figures@, r, scene.figures@.len() as int).1 >= 0,
        figure_material_spec(
            scene.figures@[nearest_hit_spec(scene.figures@, r, scene.figures@.len() as int).1],
        ).refl == 0,
        figure_material_spec(
            scene.figures@[nearest_hit_spec(scene.figures@, r, scene.figures@.len() as int).1],
        ).transparency == 0,
    ensures
        ({
            let m = figure_material_spec(
                scene.figures@[nearest_hit_spec(scene.figures@, r, scene.figures@.len() as int).1],
            );
            raytrace_spec(iter, scene, r, portion) == v_mult_spec(
                v_mult_spec(m.color, m.base_illumination),
                portion,
            )
        }),
{
}

/// Whether a vector is a unit vector along one of the coordinate axes.
pub open spec fn is_axis_unit_spec(n: Vector3) -> bool {
    ||| n == (Vector3 { x: SCALE, y: 0i64, z: 0i64 })
    ||| n == (Vector3 { x: (-1_000_000) as i64, y: 0i64, z: 0i64 })
    ||| n == (Vector3 { x: 0i64, y: SCALE, z: 0i64 })
    ||| n == (Vector3 { x: 0i64, y: (-1_000_000) as i64, z: 0i64 })
    ||| n == (Vector3 { x: 0i64, y: 0i64, z: SCALE })
    ||| n == (Vector3 { x: 0i64, y: 0i64, z: (-1_000_000) as i64 })
}

/// How mirror reflection acts on an axis-aligned unit normal: it flips
/// exactly the component along that axis, and every product involved is
/// exact in fixed point.
proof fn lemma_reflect_axis(rr: Ray, p: Vector3, n: Vector3)
    requires
        is_axis_unit_spec(n),
        iabs(rr.dir.x as int) <= 0x2000000000000000,
        iabs(rr.dir.y as int) <= 0x2000000000000000,
        iabs(rr.dir.z as int) <= 0x2000000000000000,
    ensures
        n.x != 0 ==> ray_reflect_spec(rr, p, n).dir == (Vector3 {
            x: crate::num::fx_neg_spec(rr.dir.x),
            y: rr.dir.y,
            z: rr.dir.z,
        }),
        n.y != 0 ==> ray_reflect_spec(rr, p, n).dir == (Vector3 {
            x: rr.dir.x,
            y: crate::num::fx_neg_spec(rr.dir.y),
            z: rr.dir.z,
        }),
        n.z != 0 ==> ray_reflect_spec(rr, p, n).dir == (Vector3 {
            x: rr.dir.x,
            y: rr.dir.y,
            z: crate::num::fx_neg_spec(rr.dir.z),
        }),
{
    let d = rr.dir;
    lemma_fx_mul_zero(d.x);
    lemma_fx_mul_zero(d.y);
    lemma_fx_mul_zero(d.z);
    if n == (Vector3 { x: SCALE, y: 0i64, z: 0i64 }) {
        lemma_fx_mul_unit(d.x);
        lemma_fx_mul_double(d.x);
        let t2 = fx_mul_spec(crate::math::TWO_FX, v_dot_spec(d, n));
        lemma_fx_mul_unit(t2);
        lemma_fx_mul_zero(t2);
    } else if n == (Vector3 { x: (-1_000_000) as i64, y: 0i64, z: 0i64 }) {
        lemma_fx_mul_neg_unit(d.x);
        lemma_fx_mul_double(crate::num::fx_neg_spec(d.x));
        let t2 = fx_mul_spec(crate::math::TWO_FX, v_dot_spec(d, n));
        lemma_fx_mul_neg_unit(t2);
        lemma_fx_mul_zero(t2);
    } else if n == (Vector3 { x: 0i64, y: SCALE, z: 0i64 }) {
        lemma_fx_mul_unit(d.y);
        lemma_fx_mul_double(d.y);
        let t2 = fx_mul_spec(crate::math::TWO_FX, v_dot_spec(d, n));
        lemma_fx_mul_unit(t2);
        lemma_fx_mul_zero(t2);
    } else if n == (Vector3 { x: 0i64, y: (-1_000_000) as i64, z: 0i64 }) {
        lemma_fx_mul_neg_unit(d.y);
        lemma_fx_mul_double(crate::num::fx_neg_spec(d.y));
        let t2 = fx_mul_spec(crate::math::TWO_FX, v_dot_spec(d, n));
        lemma_fx_mul_neg_unit(t2);
        lemma_fx_mul_zero(t2);
    } else if n == (Vector3 { x: 0i64, y: 0i64, z: SCALE }) {
        lemma_fx_mul_unit(d.z);
        lemma_fx_mul_double(d.z);
        let t2 = fx_mul_spec(crate::math::TWO_FX, v_dot_spec(d, n));
        lemma_fx_mul_unit(t2);
        lemma_fx_mul_zero(t2);
    } else {
        lemma_fx_mul_neg_unit(d.z);
        lemma_fx_mul_double(crate::num::fx_neg_spec(d.z));
        let t2 = fx_mul_spec(crate::math::TWO_FX, v_dot_spec(d, n));
        lemma_fx_mul_neg_unit(t2);
        lemma_fx_mul_zero(t2);
    }
}

/// Law: mirror reflection is involutive. A ray reflected off a flat
/// mirror and then off a parallel, oppositely-facing mirror regains its
/// original direction. Stated for unit normals along a coordinate axis,
/// where every fixed-point product involved is exact; a general normal
/// may perturb the direction by truncation.
pub proof fn lemma_reflect_involutive(r: Ray, p1: Vector3, p2: Vector3, n: Vector3)
    requires
        is_axis_unit_spec(n),
        iabs(r.dir.x as int) <= 0x2000000000000000,
        iabs(r.dir.y as int) <= 0x2000000000000000,
        iabs(r.dir.z as int) <= 0x2000000000000000,
    ensures
        ray_reflect_spec(ray_reflect_spec(r, p1, n), p2, v_neg_spec(n)).dir == r.dir,
{
    lemma_reflect_axis(r, p1, n);
    let r1 = ray_reflect_spec(r, p1, n);
    assert(is_axis_unit_spec(v_neg_spec(n)));
    lemma_reflect_axis(r1, p2, v_neg_spec(n));
}

proof fn lemma_shadow_scan_opaque(
    figures: Seq<FigureKind>,
    light_ray: Ray,
    point: Vector3,
    d_len: i64,
    n: int,
    intensity0: i64,
    color0: Vector3,
    k: int,
)
    requires
        0 <= k < n <= figures.len(),
        figure_intersect_spec(figures[k], light_ray) is Some,
        v_len_spec(
            v_sub_spec(figure_intersect_spec(figures[k], light_ray)->Some_0, point),
        ) < d_len,
        figure_material_spec(figures[k]).transparency == 0,
    ensures
        shadow_scan_spec(figures, light_ray, point, d_len, n, intensity0, color0) is None,
    decreases n,
{
    let before = shadow_scan_spec(figures, light_ray, point, d_len, k, intensity0, color0);
    if before is None {
        lemma_shadow_scan_none(figures, light_ray, point, d_len, k, n, intensity0, color0);
    } else {
        lemma_fx_mul_zero(before->Some_0.0);
        assert(shadow_scan_spec(figures, light_ray, point, d_len, k + 1, intensity0, color0)
            is None);
        lemma_shadow_scan_none(figures, light_ray, point, d_len, k + 1, n, intensity0, color0);
    }
}

/// Law: an opaque, non-transparent occluder standing strictly between a
/// surface point and a light extinguishes that light's whole local
/// contribution: one occlusion step drives the intensity to zero.
pub proof fn lemma_opaque_occluder_shadows(
    scene: Scene,
    t: Ray,
    point: Vector3,
    side_normal: Vector3,
    l: LightSource,
    m: crate::material::Material,
    k: int,
)
    requires
        0 <= k < scene.figures@.len(),
        ({
            let d = v_sub_spec(l.pos, point);
            let d_len = v_len_spec(d);
            let light_ray = Ray { pos: point, dir: v_div_spec(d, d_len) };
            &&& figure_intersect_spec(scene.figures@[k], light_ray) is Some
            &&& v_len_spec(
                v_sub_spec(figure_intersect_spec(scene.figures@[k], light_ray)->Some_0, point),
            ) < d_len
            &&& figure_material_spec(scene.figures@[k]).transparency == 0
        }),
    ensures
        shadow_part_spec(scene, t, point, side_normal, l, m) is None,
{
    reveal(shadow_part_spec);
    let d = v_sub_spec(l.pos, point);
    let d_len = v_len_spec(d);
    if d_len != 0 {
        let d_norm = v_div_spec(d, d_len);
        let diff = v_dot_spec(d_norm, side_normal);
        if diff > 0 {
            let light_ray = Ray { pos: point, dir: d_norm };
            lemma_shadow_scan_opaque(
                scene.figures@,
                light_ray,
                point,
                d_len,
                scene.figures@.len() as int,
                l.intencity,
                l.color,
                k,
            );
        }
    }
}

/// Law: what survives of energy-portion linearity under truncation: on a
/// ray that misses every figure, scaling the portion by any factor scales
/// the (black) result exactly.
pub proof fn lemma_portion_scaling_on_miss(
    iter: u32,
    scene: Scene,
    r: Ray,
    portion: i64,
    k: i64,
)
    requires
        forall|i: int|
            0 <= i < scene.figures@.len() ==> figure_intersect_spec(
                #[trigger] scene.figures@[i],
                r,
            ) is None,
    ensures
        raytrace_spec(iter, scene, r, fx_mul_spec(k, portion)) == v_mult_spec(
            raytrace_spec(iter, scene, r, portion),
            k,
        ),
{
    lemma_trace_miss_black(iter, scene, r, fx_mul_spec(k, portion));
    lemma_trace_miss_black(iter, scene, r, portion);
    lemma_fx_mul_zero(k);
}

/// Law: an empty scene traces every ray to black, so a rendered
/// framebuffer of any resolution is all black.
pub proof fn lemma_empty_scene_black(scene: Scene, r: Ray, iter: u32, portion: i64)
    requires
        scene.figures@.len() == 0,
    ensures
        raytrace_spec(iter, scene, r, portion) == v_zero_spec(),
        pixel_color_spec(scene, r) == (Color { r: 0u8, g: 0u8, b: 0u8 }),
{
    lemma_trace_miss_black(iter, scene, r, portion);
    lemma_trace_miss_black(0, scene, r, SCALE);
    assert(0int / 1000000int == 0) by {
        vstd::arithmetic::div_mod::lemma_div_of0(1000000int);
    };
}

/// Law: a ray aimed exactly at a sphere's center from outside hits at
/// distance `center_distance - radius`, exactly. Stated along an axis
/// with a squared radius that the fixed-point grid represents without
/// truncation; otherwise truncation can shift the hit by about a unit.
pub proof fn lemma_sphere_center_hit(rr: Ray, radius: i64, center: Vector3)
    requires
        rr.pos == (Vector3 { x: 0i64, y: 0i64, z: 0i64 }),
        rr.dir == (Vector3 { x: 0i64, y: 0i64, z: SCALE }),
        center.x == 0,
        center.y == 0,
        0 < radius < center.z,
        radius < 3_000_000_000_000,
        (radius * radius) % (SCALE as int) == 0,
    ensures
        crate::figure::sphere_intersect_spec(rr, radius, center) == Some(
            Vector3 { x: 0i64, y: 0i64, z: (center.z - radius) as i64 },
        ),
{
    reveal(crate::figure::sphere_intersect_spec);
    let c = center.z;
    let t0: i64 = (c - radius) as i64;
    lemma_fx_mul_zero(0);
    lemma_fx_mul_zero(t0);
    lemma_fx_mul_unit(c);
    lemma_fx_mul_unit(t0);
    // The squared radius is exact and positive on the grid.
    assert(0 < radius * radius < 9_000_000_000_000_000_000_000_000int) by (nonlinear_arith)
        requires
            0 < radius,
            radius < 3_000_000_000_000,
    ;
    vstd::arithmetic::div_mod::lemma_div_pos_is_pos(radius * radius, SCALE as int);
    vstd::arithmetic::div_mod::lemma_fundamental_div_mod(radius * radius, SCALE as int);
    let q = (radius * radius) / (SCALE as int);
    assert(0 <= q <= 9_000_000_000_000_000_000int) by (nonlinear_arith)
        requires
            radius * radius == (SCALE as int) * q + (radius * radius) % (SCALE as int),
            (radius * radius) % (SCALE as int) == 0,
            0 < radius * radius < 9_000_000_000_000_000_000_000_000int,
            0 <= q,
            SCALE as int == 1000000,
    ;
    let rsq = fx_mul_spec(radius, radius);
    assert(rsq == q);
    assert((rsq as int) * (SCALE as int) == radius * radius) by (nonlinear_arith)
        requires
            radius * radius == (SCALE as int) * q + (radius * radius) % (SCALE as int),
            (radius * radius) % (SCALE as int) == 0,
            rsq as int == q,
    ;
    assert(rsq > 0) by (nonlinear_arith)
        requires
            (rsq as int) * (SCALE as int) == radius * radius,
            0 < radius * radius,
            SCALE as int == 1000000,
    ;
    // Its square root is the radius itself.
    assert((radius as nat) * (radius as nat) == (radius * radius) as nat) by (nonlinear_arith)
        requires
            radius > 0,
    ;
    assert(((radius * radius) as nat) < ((radius as nat) + 1) * ((radius as nat) + 1))
        by (nonlinear_arith)
        requires
            radius > 0,
    ;
    crate::num::lemma_isqrt_unique((radius * radius) as nat, radius as nat);
    assert((rsq as int) * (SCALE as int) == radius * radius);
    assert(crate::num::fx_sqrt_spec(rsq) == radius);
}

/// Law: a ray through the geometric center of a finite rectangle hits it
/// there. Stated for an axis-aligned rectangle faced head-on, where the
/// center is expressible exactly on the fixed-point grid.
pub proof fn lemma_rectangle_center_hit(rr: Ray, w: i64, h: i64, z: i64)
    requires
        rr.pos == (Vector3 { x: 0i64, y: 0i64, z: 0i64 }),
        rr.dir == (Vector3 { x: 0i64, y: 0i64, z: SCALE }),
        w >= 0,
        h >= 0,
        z > 10,
    ensures
        crate::figure::rectangle_intersect_spec(
            rr,
            Vector3 { x: (-w) as i64, y: (-h) as i64, z },
            Vector3 { x: w, y: (-h) as i64, z },
            Vector3 { x: (-w) as i64, y: h, z },
            Vector3 { x: 0i64, y: 0i64, z: (-1_000_000) as i64 },
        ) == Some(Vector3 { x: 0i64, y: 0i64, z }),
{
    reveal(crate::figure::rectangle_intersect_spec);
    reveal(crate::figure::plane_intersect_spec);
    let tl = Vector3 { x: (-w) as i64, y: (-h) as i64, z };
    let tr = Vector3 { x: w, y: (-h) as i64, z };
    let dl = Vector3 { x: (-w) as i64, y: h, z };
    let normal = Vector3 { x: 0i64, y: 0i64, z: (-1_000_000) as i64 };
    lemma_fx_mul_zero(0);
    lemma_fx_mul_unit((-1_000_000) as i64);
    lemma_fx_mul_neg_unit(z);
    // The plane is met head-on, at parameter z exactly.
    assert(v_dot_spec(normal, rr.dir) == -1_000_000i64);
    assert(v_dot_spec(v_sub_spec(tl, rr.pos), normal) == crate::num::fx_neg_spec(z));
    crate::num::lemma_fx_div_neg_unit(z);
    lemma_fx_mul_unit(z);
    lemma_fx_mul_zero(z);
    let a = Vector3 { x: 0i64, y: 0i64, z };
    assert(crate::figure::plane_intersect_spec(rr, tl, normal) == Some(a));
    // The center projects to zero on both edge vectors, inside both
    // edges' projected ranges.
    let c_b = v_sub_spec(tr, tl);
    let e_b = v_sub_spec(dl, tl);
    lemma_fx_mul_zero(c_b.x);
    lemma_fx_mul_zero(e_b.y);
    assert(v_dot_spec(a, c_b) == 0);
    assert(v_dot_spec(a, e_b) == 0);
    crate::num::lemma_fx_mul_sign((-w) as i64, c_b.x);
    crate::num::lemma_fx_mul_sign(w, c_b.x);
    crate::num::lemma_fx_mul_sign((-h) as i64, e_b.y);
    crate::num::lemma_fx_mul_sign(h, e_b.y);
}

/// Law: a sphere misses a ray whose closest approach to the center is
/// farther than the radius, and any ray whose closest approach lies
/// behind its origin.
pub proof fn lemma_sphere_wide_miss(r: Ray, radius: i64, pos: Vector3)
    requires
        ({
            let l = v_sub_spec(pos, r.pos);
            let tca = v_dot_spec(l, r.dir);
            tca >= 0 ==> fx_sub_spec(v_dot_spec(l, l), fx_mul_spec(tca, tca)) > fx_mul_spec(
                radius,
                radius,
            )
        }),
    ensures
        crate::figure::sphere_intersect_spec(r, radius, pos) is None,
{
    reveal(crate::figure::sphere_intersect_spec);
}

} // verus!
