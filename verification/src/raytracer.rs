//! The shading / light-transport engine and the render driver.
//!
//! `raytrace` finds the nearest figure hit by a ray and combines ambient
//! light, per-light diffuse and specular contributions behind a shadow
//! test, recursive mirror reflection and recursive dielectric refraction,
//! bounded by a fixed recursion depth. Every routine is specified exactly
//! by a spec-level mirror of the fixed-point algorithm.

use vstd::prelude::*;
use crate::color::{color_from_vector3_spec, Color};
use crate::figure::{
    figure_intersect_normal_spec, figure_intersect_spec, figure_material_spec,
    lemma_intersect_consistent, FigureKind,
};
use crate::material::{Material, AIR_REFRACTION};
use crate::math::{
    ray_forward_spec, ray_new_normalize_spec, ray_reflect_spec, v_add_spec, v_div_spec,
    v_dot_spec, v_elem_mult_spec, v_len_spec, v_len_sq_spec, v_mult_spec, v_neg_spec, v_norm_spec,
    v_sub_spec, v_zero_spec, Ray, Vector3,
};
use rayon::iter::{IndexedParallelIterator, IntoParallelRefIterator, ParallelIterator};
use crate::num::{
    fx_add, fx_add_spec, fx_div, fx_div_spec, fx_max, fx_max_spec, fx_mul, fx_mul_spec, fx_neg,
    fx_neg_spec, fx_powi, fx_powi_spec, fx_sqrt, fx_sqrt_spec, fx_sub, fx_sub_spec, EPSILON, SCALE,
};
use crate::scene::{ray_for_pixel_spec, scene_wf, LightSource, Scene};

verus! {

/// Inverse-distance light falloff `intensity / (dist^2 * 0.3 + dist * 0.5)`.
/// A denominator that truncates to zero saturates toward the sign of the
/// intensity.
pub open spec fn intencity_distance_spec(intensity: i64, dist: i64) -> i64 {
    let denom = fx_add_spec(
        fx_mul_spec(fx_mul_spec(dist, dist), 300_000),
        fx_mul_spec(dist, 500_000),
    );
    if denom == 0 {
        if intensity >= 0 {
            i64::MAX
        } else {
            i64::MIN
        }
    } else {
        fx_div_spec(intensity, denom)
    }
}

pub fn intencity_distance(intensity: i64, dist: i64) -> (r: i64)
    ensures
        r == intencity_distance_spec(intensity, dist),
{
    let denom = fx_add(fx_mul(fx_mul(dist, dist), 300_000), fx_mul(dist, 500_000));
    if denom == 0 {
        if intensity >= 0 {
            i64::MAX
        } else {
            i64::MIN
        }
    } else {
        fx_div(intensity, denom)
    }
}

/// The nearest hit among the first `n` figures: smallest squared distance
/// from the ray origin, earlier figures winning exact ties. Yields the
/// distance and the figure index, or `-1` when nothing was hit.
pub open spec fn nearest_hit_spec(figures: Seq<FigureKind>, r: Ray, n: int) -> (i64, int)
    decreases n,
{
    if n <= 0 {
        (i64::MAX, -1)
    } else {
        let prev = nearest_hit_spec(figures, r, n - 1);
        match figure_intersect_spec(figures[n - 1], r) {
            None => prev,
            Some(p) => {
                let d_new = v_len_sq_spec(v_sub_spec(p, r.pos));
                if d_new < prev.0 {
                    (d_new, n - 1)
                } else {
                    prev
                }
            },
        }
    }
}

pub proof fn lemma_nearest_hit_props(figures: Seq<FigureKind>, r: Ray, n: int)
    requires
        0 <= n <= figures.len(),
    ensures
        -1 <= nearest_hit_spec(figures, r, n).1 < n,
        nearest_hit_spec(figures, r, n).1 >= 0 ==> figure_intersect_spec(
            figures[nearest_hit_spec(figures, r, n).1],
            r,
        ) is Some,
    decreases n,
{
    if n > 0 {
        lemma_nearest_hit_props(figures, r, n - 1);
    }
}

/// The shadow scan over the first `n` figures: every figure the shadow ray
/// hits strictly closer than the light attenuates the running intensity by
/// its transparency and tints the running color by its color; when the
/// intensity falls below EPSILON the light is fully occluded (`None`).
pub open spec fn shadow_scan_spec(
    figures: Seq<FigureKind>,
    light_ray: Ray,
    point: Vector3,
    d_len: i64,
    n: int,
    intensity0: i64,
    color0: Vector3,
) -> Option<(i64, Vector3)>
    decreases n,
{
    if n <= 0 {
        Some((intensity0, color0))
    } else {
        match shadow_scan_spec(figures, light_ray, point, d_len, n - 1, intensity0, color0) {
            None => None,
            Some(st) => match figure_intersect_spec(figures[n - 1], light_ray) {
                None => Some(st),
                Some(p) => {
                    if v_len_spec(v_sub_spec(p, point)) < d_len {
                        let m = figure_material_spec(figures[n - 1]);
                        let ni = fx_mul_spec(st.0, m.transparency);
                        if ni < EPSILON {
                            None
                        } else {
                            Some((ni, v_elem_mult_spec(st.1, m.color)))
                        }
                    } else {
                        Some(st)
                    }
                },
            },
        }
    }
}

pub proof fn lemma_shadow_scan_none(
    figures: Seq<FigureKind>,
    light_ray: Ray,
    point: Vector3,
    d_len: i64,
    k: int,
    n: int,
    intensity0: i64,
    color0: Vector3,
)
    requires
        0 <= k <= n,
        shadow_scan_spec(figures, light_ray, point, d_len, k, intensity0, color0) is None,
    ensures
        shadow_scan_spec(figures, light_ray, point, d_len, n, intensity0, color0) is None,
    decreases n,
{
    if n > k {
        lemma_shadow_scan_none(figures, light_ray, point, d_len, k, n - 1, intensity0, color0);
    }
}

/// One light's local contribution at a surface point: nothing when the
/// light is behind the surface or fully occluded; otherwise the diffuse
/// and specular terms scaled by the attenuated, tinted light.
#[verifier::opaque]
pub open spec fn shadow_part_spec(
    scene: Scene,
    t: Ray,
    point: Vector3,
    side_normal: Vector3,
    l: LightSource,
    m: Material,
) -> Option<Vector3> {
    let d = v_sub_spec(l.pos, point);
    let d_len = v_len_spec(d);
    if d_len == 0 {
        None
    } else {
        let d_norm = v_div_spec(d, d_len);
        let diff = v_dot_spec(d_norm, side_normal);
        if diff > 0 {
            let light_ray = Ray { pos: point, dir: d_norm };
            match shadow_scan_spec(
                scene.figures@,
                light_ray,
                point,
                d_len,
                scene.figures@.len() as int,
                l.intencity,
                l.color,
            ) {
                None => None,
                Some(st) => {
                    let refl = ray_reflect_spec(light_ray, point, side_normal);
                    let diff_part = fx_mul_spec(m.diff, diff);
                    let spec_part = fx_mul_spec(
                        m.specular,
                        fx_powi_spec(
                            fx_max_spec(v_dot_spec(refl.dir, t.dir), 0),
                            m.shininess as nat,
                        ),
                    );
                    let local = intencity_distance_spec(st.0, d_len);
                    Some(v_mult_spec(st.1, fx_mul_spec(fx_add_spec(diff_part, spec_part), local)))
                },
            }
        } else {
            None
        }
    }
}

#[verifier::rlimit(100)]
pub fn shadow_part(
    scene: &Scene,
    t: &Ray,
    point: &Vector3,
    side_normal: &Vector3,
    l: &LightSource,
    m: &Material,
) -> (res: Option<Vector3>)
    ensures
        res == shadow_part_spec(*scene, *t, *point, *side_normal, *l, *m),
{
    reveal(shadow_part_spec);
    let d = l.pos.sub(point);
    let d_len = d.len();
    if d_len == 0 {
        return None;
    }
    let d_norm = d.div(d_len);
    let diff = d_norm.scalar_product(side_normal);
    if diff > 0 {
        let light_ray = Ray { pos: *point, dir: d_norm };
        let mut intensity: i64 = l.intencity;
        let mut color: Vector3 = l.color;
        let mut i: usize = 0;
        while i < scene.figures.len()
            invariant
                i <= scene.figures@.len(),
                d_len == v_len_spec(v_sub_spec(l.pos, *point)),
                d_len != 0,
                light_ray == (Ray { pos: *point, dir: v_div_spec(
                    v_sub_spec(l.pos, *point),
                    d_len,
                ) }),
                shadow_scan_spec(
                    scene.figures@,
                    light_ray,
                    *point,
                    d_len,
                    i as int,
                    l.intencity,
                    l.color,
                ) == Some((intensity, color)),
            decreases scene.figures@.len() - i,
        {
            reveal(shadow_part_spec);
            let fig = &scene.figures[i];
            if let Some(p) = fig.intersect(&light_ray) {
                if p.sub(point).len() < d_len {
                    let fm = fig.get_material();
                    intensity = fx_mul(intensity, fm.transparency);
                    if intensity < EPSILON {
                        proof {
                            lemma_shadow_scan_none(
                                scene.figures@,
                                light_ray,
                                *point,
                                d_len,
                                i + 1,
                                scene.figures@.len() as int,
                                l.intencity,
                                l.color,
                            );
                        }
                        return None;
                    }
                    color = color.mult_per_element(&fm.color);
                }
            }
            i = i + 1;
        }
        let refl = light_ray.reflect(point, side_normal);
        let diff_part = fx_mul(m.diff, diff);
        let spec_part = fx_mul(
            m.specular,
            fx_powi(fx_max(refl.dir.scalar_product(&t.dir), 0), m.shininess),
        );
        let local = intencity_distance(intensity, d_len);
        Some(color.mult(fx_mul(fx_add(diff_part, spec_part), local)))
    } else {
        None
    }
}

/// The accumulated color after the ambient term and the local
/// contributions of the first `n` lights, each tinted by the surface's
/// own color.
pub open spec fn lights_fold_spec(
    scene: Scene,
    r: Ray,
    t: Vector3,
    normal: Vector3,
    m: Material,
    n: int,
) -> Vector3
    decreases n,
{
    if n <= 0 {
        v_mult_spec(m.color, m.base_illumination)
    } else {
        let prev = lights_fold_spec(scene, r, t, normal, m, n - 1);
        match shadow_part_spec(scene, r, t, normal, scene.lights@[n - 1], m) {
            None => prev,
            Some(c) => v_add_spec(prev, v_elem_mult_spec(c, m.color)),
        }
    }
}

/// The color carried by a ray: black past the depth bound or on a miss;
/// otherwise ambient plus per-light local shading plus recursive mirror
/// and refraction parts, all scaled by the branch's energy portion.
pub open spec fn raytrace_spec(iter: u32, scene: Scene, r: Ray, portion: i64) -> Vector3
    decreases 11 - iter, 2int,
{
    if iter > 10 {
        v_zero_spec()
    } else {
        let h = nearest_hit_spec(scene.figures@, r, scene.figures@.len() as int);
        if h.1 >= 0 {
            let f = scene.figures@[h.1];
            let hit = figure_intersect_normal_spec(f, r);
            let t = hit->Some_0.0;
            let normal = hit->Some_0.1;
            let m = figure_material_spec(f);
            let with_lights = lights_fold_spec(scene, r, t, normal, m, scene.lights@.len() as int);
            let with_mirror = if m.refl > EPSILON {
                v_add_spec(
                    with_lights,
                    mirror_part_spec(iter, scene, t, r, normal, fx_mul_spec(portion, m.refl)),
                )
            } else {
                with_lights
            };
            let with_refr = if m.transparency > EPSILON {
                v_add_spec(
                    with_mirror,
                    refraction_part_spec(
                        iter,
                        scene,
                        t,
                        r,
                        normal,
                        f,
                        fx_mul_spec(portion, m.transparency),
                        m,
                    ),
                )
            } else {
                with_mirror
            };
            v_mult_spec(with_refr, portion)
        } else {
            v_zero_spec()
        }
    }
}

/// The mirror branch: black when the branch's energy portion has fallen
/// below EPSILON or the depth bound is passed; otherwise the reflected
/// ray traced one level deeper.
pub open spec fn mirror_part_spec(
    iter: u32,
    scene: Scene,
    point: Vector3,
    r: Ray,
    side_normal: Vector3,
    portion: i64,
) -> Vector3
    decreases 11 - iter, 0int,
{
    if portion < EPSILON {
        v_zero_spec()
    } else if iter > 10 {
        v_zero_spec()
    } else {
        raytrace_spec((iter + 1) as u32, scene, ray_reflect_spec(r, point, side_normal), portion)
    }
}

/// The refraction branch, by Snell's law in vector form. Entering or
/// exiting the medium swaps the index ratio and flips the normal; a
/// negative discriminant (total internal reflection) falls back to a blend
/// of an internal reflection and an undeviated pass-through; a refracted
/// ray that re-hits the same figure recurses on the exit surface directly.
pub open spec fn refraction_part_spec(
    iter: u32,
    scene: Scene,
    point: Vector3,
    r: Ray,
    side_normal: Vector3,
    f: FigureKind,
    portion: i64,
    m: Material,
) -> Vector3
    decreases 11 - iter, 1int,
{
    if iter > 10 {
        v_zero_spec()
    } else {
        let normal_product = v_dot_spec(r.dir, side_normal);
        let entering = normal_product < 0;
        let n1 = if entering {
            AIR_REFRACTION
        } else {
            m.refraction
        };
        let n2 = if entering {
            m.refraction
        } else {
            AIR_REFRACTION
        };
        let norm = if entering {
            normal_product
        } else {
            fx_neg_spec(normal_product)
        };
        let normal_vec = if entering {
            side_normal
        } else {
            v_neg_spec(side_normal)
        };
        let n1n2 = fx_div_spec(n1, n2);
        let under_root = fx_sub_spec(
            SCALE,
            fx_mul_spec(fx_mul_spec(n1n2, n1n2), fx_sub_spec(SCALE, fx_mul_spec(norm, norm))),
        );
        if under_root < 0 {
            let t = ray_reflect_spec(r, point, normal_vec);
            let internal = v_mult_spec(
                raytrace_spec((iter + 1) as u32, scene, t, portion),
                m.refl,
            );
            let outside = v_mult_spec(
                raytrace_spec(
                    (iter + 1) as u32,
                    scene,
                    ray_new_normalize_spec(point, r.dir),
                    portion,
                ),
                m.transparency,
            );
            v_add_spec(internal, outside)
        } else {
            let cos_fita = fx_sqrt_spec(under_root);
            let tdir = v_norm_spec(
                v_sub_spec(
                    v_mult_spec(r.dir, n1n2),
                    v_mult_spec(normal_vec, fx_add_spec(cos_fita, fx_mul_spec(n1n2, norm))),
                ),
            );
            let new_r = ray_forward_spec(Ray { pos: point, dir: tdir }, 1000);
            match figure_intersect_normal_spec(f, new_r) {
                Some(pn) => refraction_part_spec(
                    (iter + 1) as u32,
                    scene,
                    pn.0,
                    new_r,
                    pn.1,
                    f,
                    portion,
                    m,
                ),
                None => v_elem_mult_spec(
                    raytrace_spec((iter + 1) as u32, scene, new_r, portion),
                    m.color,
                ),
            }
        }
    }
}

#[verifier::rlimit(100)]
pub fn raytrace(iter: u32, scene: &Scene, r: &Ray, portion: i64) -> (c: Vector3)
    requires
        scene_wf(*scene),
    ensures
        c == raytrace_spec(iter, *scene, *r, portion),
    decreases 11 - iter, 2int,
{
    if iter > 10 {
        return Vector3::new(0, 0, 0);
    }
    let mut d: i64 = i64::MAX;
    let mut f_i: usize = usize::MAX;
    let mut i: usize = 0;
    while i < scene.figures.len()
        invariant
            i <= scene.figures@.len(),
            ({
                let h = nearest_hit_spec(scene.figures@, *r, i as int);
                d == h.0 && (h.1 == -1 ==> f_i == usize::MAX) && (h.1 >= 0 ==> f_i == h.1)
            }),
        decreases scene.figures@.len() - i,
    {
        proof {
            lemma_nearest_hit_props(scene.figures@, *r, i as int);
        }
        let f = &scene.figures[i];
        if let Some(p) = f.intersect(r) {
            let d_new = p.sub(&r.pos).len_sq();
            if d_new < d {
                d = d_new;
                f_i = i;
            }
        }
        i = i + 1;
    }
    proof {
        lemma_nearest_hit_props(scene.figures@, *r, scene.figures@.len() as int);
    }
    if f_i != usize::MAX {
        let f = &scene.figures[f_i];
        proof {
            lemma_intersect_consistent(scene.figures@[f_i as int], *r);
        }
        let pn = f.intersect_with_normal(r).unwrap();
        let t = pn.0;
        let normal = pn.1;
        let m = f.get_material();
        let mut color = m.color.mult(m.base_illumination);
        let mut li: usize = 0;
        while li < scene.lights.len()
            invariant
                scene_wf(*scene),
                li <= scene.lights@.len(),
                f_i < scene.figures@.len(),
                *m == figure_material_spec(scene.figures@[f_i as int]),
                (t, normal) == figure_intersect_normal_spec(
                    scene.figures@[f_i as int],
                    *r,
                )->Some_0,
                color == lights_fold_spec(*scene, *r, t, normal, *m, li as int),
            decreases scene.lights@.len() - li,
        {
            let l = &scene.lights[li];
            if let Some(c) = shadow_part(scene, r, &t, &normal, l, m) {
                let c_res = c.mult_per_element(&m.color);
                color = color.add(&c_res);
            }
            li = li + 1;
        }
        if m.refl > EPSILON {
            let c = mirror_part(iter, scene, &t, r, &normal, fx_mul(portion, m.refl));
            color = color.add(&c);
        }
        if m.transparency > EPSILON {
            proof {
                assert(figure_material_spec(scene.figures@[f_i as int]).refraction > 0);
            }
            let c = refraction_part(
                iter,
                scene,
                &t,
                r,
                &normal,
                f,
                fx_mul(portion, m.transparency),
                m,
            );
            color = color.add(&c);
        }
        color.mult(portion)
    } else {
        Vector3::new(0, 0, 0)
    }
}

pub fn mirror_part(
    iter: u32,
    scene: &Scene,
    point: &Vector3,
    r: &Ray,
    side_normal: &Vector3,
    portion: i64,
) -> (c: Vector3)
    requires
        scene_wf(*scene),
    ensures
        c == mirror_part_spec(iter, *scene, *point, *r, *side_normal, portion),
    decreases 11 - iter, 0int,
{
    if portion < EPSILON {
        return Vector3::new(0, 0, 0);
    }
    if iter > 10 {
        return Vector3::new(0, 0, 0);
    }
    let t = r.reflect(point, side_normal);
    let c = raytrace(iter + 1, scene, &t, portion);
    proof {
            assert(t == ray_reflect_spec(*r, *point, *side_normal));
        assert(c == raytrace_spec((iter + 1) as u32, *scene, t, portion));
        assert(mirror_part_spec(iter, *scene, *point, *r, *side_normal, portion)
            == raytrace_spec(
            (iter + 1) as u32,
            *scene,
            ray_reflect_spec(*r, *point, *side_normal),
            portion,
        ));
    }
    c
}

#[verifier::rlimit(100)]
pub fn refraction_part(
    iter: u32,
    scene: &Scene,
    point: &Vector3,
    r: &Ray,
    side_normal: &Vector3,
    f: &FigureKind,
    portion: i64,
    m: &Material,
) -> (c: Vector3)
    requires
        scene_wf(*scene),
        m.refraction > 0,
    ensures
        c == refraction_part_spec(iter, *scene, *point, *r, *side_normal, *f, portion, *m),
    decreases 11 - iter, 1int,
{
    if iter > 10 {
        return Vector3::new(0, 0, 0);
    }
    let normal_product = r.dir.scalar_product(side_normal);
    let entering = normal_product < 0;
    let n1: i64 = if entering {
        AIR_REFRACTION
    } else {
        m.refraction
    };
    let n2: i64 = if entering {
        m.refraction
    } else {
        AIR_REFRACTION
    };
    let norm: i64 = if entering {
        normal_product
    } else {
        fx_neg(normal_product)
    };
    let normal_vec: Vector3 = if entering {
        *side_normal
    } else {
        side_normal.neg()
    };
    let n1n2 = fx_div(n1, n2);
    let under_root = fx_sub(SCALE, fx_mul(fx_mul(n1n2, n1n2), fx_sub(SCALE, fx_mul(norm, norm))));
    if under_root < 0 {
        let t = r.reflect(point, &normal_vec);
        let internal_reflect = raytrace(iter + 1, scene, &t, portion).mult(m.refl);
        let outside = raytrace(
            iter + 1,
            scene,
            &Ray::new_normalize(*point, &r.dir),
            portion,
        ).mult(m.transparency);
        return internal_reflect.add(&outside);
    }
    let cos_fita = fx_sqrt(under_root);
    let tdir = r.dir.mult(n1n2).sub(&normal_vec.mult(fx_add(cos_fita, fx_mul(n1n2, norm))))
        .normalize();
    let new_r = Ray { pos: *point, dir: tdir }.move_forward(1000);
    if let Some(pn) = f.intersect_with_normal(&new_r) {
        return refraction_part(iter + 1, scene, &pn.0, &new_r, &pn.1, f, portion, m);
    }
    raytrace(iter + 1, scene, &new_r, portion).mult_per_element(&m.color)
}

/// The color of one pixel: its primary ray traced from depth zero with the
/// whole energy portion, quantized to bytes.
pub open spec fn pixel_color_spec(scene: Scene, r: Ray) -> Color {
    color_from_vector3_spec(raytrace_spec(0, scene, r, SCALE))
}

pub fn trace_pixel(scene: &Scene, r: &Ray) -> (c: Color)
    requires
        scene_wf(*scene),
    ensures
        c == pixel_color_spec(*scene, *r),
{
    let v = raytrace(0, scene, r, SCALE);
    Color::from_vector3(&v)
}

/// Relies on rayon's `par_iter`, `map` and
/// `IndexedParallelIterator::collect_into_vec`: the parallel map of an
/// indexed iterator fills the vector with one result per input, each at
/// its input's position. The closure only calls the verified
/// `trace_pixel`.
#[verifier::external_body]
fn par_trace(scene: &Scene, rays: &Vec<Ray>) -> (out: Vec<Color>)
    requires
        scene_wf(*scene),
    ensures
        out@.len() == rays@.len(),
        forall|i: int| 0 <= i < rays@.len() ==> out@[i] == pixel_color_spec(*scene, rays@[i]),
{
    let mut out: Vec<Color> = Vec::new();
    rays.par_iter().map(|r| trace_pixel(scene, r)).collect_into_vec(&mut out);
    out
}

/// Render the scene to a row-major framebuffer of `x * y` colors, one per
/// pixel, each the traced color of that pixel's primary ray. The per-pixel
/// work runs on a parallel worker pool; the result does not depend on the
/// scheduling.
pub fn render(scene: &Scene, x: usize, y: usize) -> (out: Vec<Color>)
    requires
        scene_wf(*scene),
        1 <= x,
        1 <= y,
        x * y <= usize::MAX,
    ensures
        out@.len() == x * y,
        forall|j: int, i: int|
            0 <= j < y && 0 <= i < x ==> out@[j * (x as int) + i] == pixel_color_spec(
                *scene,
                ray_for_pixel_spec(scene.image, x as int, y as int, i, j),
            ),
{
    let rays = scene.image.get_rays(x, y);
    let out = par_trace(scene, &rays);
    proof {
        assert forall|j: int, i: int| 0 <= j < y && 0 <= i < x implies #[trigger] out@[j * (
        x as int) + i] == pixel_color_spec(
            *scene,
            ray_for_pixel_spec(scene.image, x as int, y as int, i, j),
        ) by {
            assert(0 <= j * (x as int) + i < rays@.len()) by (nonlinear_arith)
                requires
                    0 <= j,
                    j < (y as int),
                    0 <= i,
                    i < (x as int),
                    rays@.len() == (x as int) * (y as int),
            ;
        }
    }
    out
}

} // verus!
