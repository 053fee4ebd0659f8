//! Scene primitives and their closed-form ray intersections.
//!
//! A figure is one of a finite rectangle (three defining corners and a
//! precomputed outward normal), a box of eight corners with six face
//! normals in the order top, back, right, front, left, down, or a sphere.
//! Every intersection routine is specified exactly by a spec-level mirror.

use vstd::prelude::*;
use crate::material::Material;
use crate::math::{
    ray_point_spec, v_add_spec, v_cross_spec, v_dot_spec, v_len_sq_spec, v_neg_spec, v_norm_spec,
    v_sub_spec, v_zero_spec, Ray, Vector3,
};
use crate::num::{
    fx_abs_spec, fx_add, fx_add_spec, fx_div, fx_div_spec, fx_mul, fx_mul_spec, fx_sqrt,
    fx_sqrt_spec, fx_sub, fx_sub_spec, EPSILON,
};

verus! {

#[derive(Debug, Clone)]
pub enum FigureKind {
    /// A finite rectangle: top-left, top-right and down-left corners, and
    /// the outward unit normal of its plane.
    Side { pos: [Vector3; 3], normal: Vector3, m: Material },
    /// A box: corners in the order back-top-left, back-top-right,
    /// back-down-right, back-down-left, front-top-left, front-top-right,
    /// front-down-right, front-down-left; normals in the order top, back,
    /// right, front, left, down.
    Cube { pos: [Vector3; 8], normals: [Vector3; 6], m: Material },
    /// A sphere of radius `r` around `pos`.
    Sphere { r: i64, pos: Vector3, m: Material },
}

/// Unit normal of the plane through three points: `(p1 - p2) x (p1 - p3)`,
/// normalized.
pub open spec fn plane_normal_spec(pp1: Vector3, pp2: Vector3, pp3: Vector3) -> Vector3 {
    v_norm_spec(v_cross_spec(v_sub_spec(pp1, pp2), v_sub_spec(pp1, pp3)))
}

/// Ray/plane intersection. Rays nearly parallel to the plane
/// (`|normal . dir| <= EPSILON`) and intersections at or behind the origin
/// (`t <= 10 EPSILON`) yield nothing.
#[verifier::opaque]
pub open spec fn plane_intersect_spec(r: Ray, pp1: Vector3, normal: Vector3) -> Option<Vector3> {
    let denom = v_dot_spec(normal, r.dir);
    if fx_abs_spec(denom) > EPSILON {
        let p010 = v_sub_spec(pp1, r.pos);
        let t = fx_div_spec(v_dot_spec(p010, normal), denom);
        if t <= EPSILON * 10 {
            None
        } else {
            Some(ray_point_spec(r, t))
        }
    } else {
        None
    }
}

/// Ray/rectangle intersection: the plane hit point, accepted only when its
/// projections onto the two edge vectors fall inside the edges' projected
/// ranges, inclusively with an EPSILON tolerance on both ends.
#[verifier::opaque]
pub open spec fn rectangle_intersect_spec(
    r: Ray,
    top_left: Vector3,
    top_right: Vector3,
    down_left: Vector3,
    normal: Vector3,
) -> Option<Vector3> {
    let c_b = v_sub_spec(top_right, top_left);
    let e_b = v_sub_spec(down_left, top_left);
    match plane_intersect_spec(r, top_left, normal) {
        None => None,
        Some(a) => {
            let t1 = v_dot_spec(a, c_b);
            let t2 = v_dot_spec(a, e_b);
            if fx_sub_spec(v_dot_spec(top_left, c_b), EPSILON) <= t1
                && t1 <= fx_add_spec(v_dot_spec(top_right, c_b), EPSILON)
                && fx_sub_spec(v_dot_spec(top_left, e_b), EPSILON) <= t2
                && t2 <= fx_add_spec(v_dot_spec(down_left, e_b), EPSILON) {
                Some(a)
            } else {
                None
            }
        },
    }
}

/// One step of the nearest-face scan: keep the candidate hit when it is
/// strictly closer (by squared distance from the ray origin) than the
/// best seen so far.
pub open spec fn cube_step_spec(
    r: Ray,
    st: (i64, Vector3, usize),
    hit: Option<Vector3>,
    idx: usize,
) -> (i64, Vector3, usize) {
    match hit {
        None => st,
        Some(p) => {
            let tmp = v_len_sq_spec(v_sub_spec(p, r.pos));
            if tmp < st.0 {
                (tmp, p, idx)
            } else {
                st
            }
        },
    }
}

/// Ray/box intersection: test all six faces as rectangles and keep the
/// nearest valid hit together with the index of the winning face.
#[verifier::opaque]
pub open spec fn cube_intersect_spec(
    r: Ray,
    dots: [Vector3; 8],
    normals: [Vector3; 6],
) -> Option<(Vector3, usize)> {
    let s0 = (i64::MAX, v_zero_spec(), usize::MAX);
    let s1 = cube_step_spec(
        r,
        s0,
        rectangle_intersect_spec(r, dots[0], dots[1], dots[4], normals[0]),
        0,
    );
    let s2 = cube_step_spec(
        r,
        s1,
        rectangle_intersect_spec(r, dots[0], dots[1], dots[3], normals[1]),
        1,
    );
    let s3 = cube_step_spec(
        r,
        s2,
        rectangle_intersect_spec(r, dots[1], dots[5], dots[2], normals[2]),
        2,
    );
    let s4 = cube_step_spec(
        r,
        s3,
        rectangle_intersect_spec(r, dots[4], dots[5], dots[7], normals[3]),
        3,
    );
    let s5 = cube_step_spec(
        r,
        s4,
        rectangle_intersect_spec(r, dots[4], dots[0], dots[7], normals[4]),
        4,
    );
    let s6 = cube_step_spec(
        r,
        s5,
        rectangle_intersect_spec(r, dots[3], dots[2], dots[7], normals[5]),
        5,
    );
    if s6.2 != usize::MAX {
        Some((s6.1, s6.2))
    } else {
        None
    }
}

/// Analytic ray/sphere intersection. No hit when the closest approach lies
/// behind the origin or farther from the center than the radius; of the
/// two roots the smaller nonnegative one wins.
#[verifier::opaque]
pub open spec fn sphere_intersect_spec(r: Ray, radius: i64, pos: Vector3) -> Option<Vector3> {
    let l = v_sub_spec(pos, r.pos);
    let tca = v_dot_spec(l, r.dir);
    if tca < 0 {
        None
    } else {
        let d2 = fx_sub_spec(v_dot_spec(l, l), fx_mul_spec(tca, tca));
        if d2 > fx_mul_spec(radius, radius) {
            None
        } else {
            let thc = fx_sqrt_spec(fx_sub_spec(fx_mul_spec(radius, radius), d2));
            let t0 = fx_sub_spec(tca, thc);
            let t1 = fx_add_spec(tca, thc);
            let tmin = if t0 > t1 { t1 } else { t0 };
            let tmax = if t0 > t1 { t0 } else { t1 };
            if tmin < 0 {
                if tmax < 0 {
                    None
                } else {
                    Some(ray_point_spec(r, tmax))
                }
            } else {
                Some(ray_point_spec(r, tmin))
            }
        }
    }
}

/// Intersection point of a ray with a figure, if any.
#[verifier::opaque]
pub open spec fn figure_intersect_spec(f: FigureKind, r: Ray) -> Option<Vector3> {
    match f {
        FigureKind::Side { pos, normal, .. } => rectangle_intersect_spec(
            r,
            pos[0],
            pos[1],
            pos[2],
            normal,
        ),
        FigureKind::Cube { pos, normals, .. } => match cube_intersect_spec(r, pos, normals) {
            None => None,
            Some(x) => Some(x.0),
        },
        FigureKind::Sphere { r: rad, pos, .. } => sphere_intersect_spec(r, rad, pos),
    }
}

/// Intersection point and surface normal at it, if any.
#[verifier::opaque]
pub open spec fn figure_intersect_normal_spec(f: FigureKind, r: Ray) -> Option<
    (Vector3, Vector3),
> {
    match f {
        FigureKind::Side { pos, normal, .. } => match rectangle_intersect_spec(
            r,
            pos[0],
            pos[1],
            pos[2],
            normal,
        ) {
            None => None,
            Some(x) => Some((x, normal)),
        },
        FigureKind::Cube { pos, normals, .. } => match cube_intersect_spec(r, pos, normals) {
            None => None,
            Some(x) => Some((x.0, normals[x.1 as int])),
        },
        FigureKind::Sphere { r: rad, pos, .. } => match sphere_intersect_spec(r, rad, pos) {
            None => None,
            Some(x) => Some((x, v_norm_spec(v_sub_spec(x, pos)))),
        },
    }
}

pub open spec fn figure_material_spec(f: FigureKind) -> Material {
    match f {
        FigureKind::Side { m, .. } => m,
        FigureKind::Cube { m, .. } => m,
        FigureKind::Sphere { m, .. } => m,
    }
}

/// The two intersection queries agree: they hit for the same rays, and on
/// a hit the point returned is the same.
pub proof fn lemma_intersect_consistent(f: FigureKind, r: Ray)
    ensures
        figure_intersect_spec(f, r) is Some <==> figure_intersect_normal_spec(f, r) is Some,
        figure_intersect_spec(f, r) is Some ==> figure_intersect_spec(f, r)->Some_0
            == figure_intersect_normal_spec(f, r)->Some_0.0,
{
    reveal(figure_intersect_spec);
    reveal(figure_intersect_normal_spec);
}

pub open spec fn new_side_spec(
    top_left: Vector3,
    top_right: Vector3,
    down_left: Vector3,
    m: Material,
) -> FigureKind {
    FigureKind::Side {
        pos: [top_left, top_right, down_left],
        normal: plane_normal_spec(top_left, top_right, down_left),
        m,
    }
}

pub open spec fn new_cube_spec(
    back_top_left: Vector3,
    back_top_right: Vector3,
    back_down_left: Vector3,
    front_top_left: Vector3,
    m: Material,
) -> FigureKind {
    let h_v = v_sub_spec(back_down_left, back_top_left);
    let w_v = v_sub_spec(back_top_right, back_top_left);
    let front_top_right = v_add_spec(front_top_left, w_v);
    let front_down_left = v_add_spec(front_top_left, h_v);
    let back_down_right = v_add_spec(back_down_left, w_v);
    let front_down_right = v_add_spec(front_down_left, h_v);
    let top_normal = v_neg_spec(plane_normal_spec(back_top_left, back_top_right, front_top_left));
    let down_normal = v_neg_spec(top_normal);
    let back_normal = plane_normal_spec(back_top_left, back_top_right, back_down_left);
    let front_normal = v_neg_spec(back_normal);
    let left_normal = plane_normal_spec(front_top_left, back_top_left, front_down_left);
    let right_normal = v_neg_spec(left_normal);
    FigureKind::Cube {
        pos: [
            back_top_left,
            back_top_right,
            back_down_right,
            back_down_left,
            front_top_left,
            front_top_right,
            front_down_right,
            front_down_left,
        ],
        normals: [top_normal, back_normal, right_normal, front_normal, left_normal, down_normal],
        m,
    }
}

pub open spec fn new_cube_from_d_spec(
    back_top_left: Vector3,
    dw: Vector3,
    dh: Vector3,
    dd: Vector3,
    m: Material,
) -> FigureKind {
    new_cube_spec(
        back_top_left,
        v_add_spec(back_top_left, dw),
        v_add_spec(back_top_left, dh),
        v_add_spec(back_top_left, dd),
        m,
    )
}

impl FigureKind {
    /// A rectangle from three corners; the normal faces the viewer who
    /// sees the corners in the given order.
    pub fn new_side(
        top_left: &Vector3,
        top_right: &Vector3,
        down_left: &Vector3,
        m: Material,
    ) -> (f: Self)
        ensures
            f == new_side_spec(*top_left, *top_right, *down_left, m),
    {
        let normal = Self::plane_normal(top_left, top_right, down_left);
        let f = Self::Side { pos: [*top_left, *top_right, *down_left], normal, m };
        proof {
            assert(f->Side_pos@ =~= new_side_spec(*top_left, *top_right, *down_left, m)->Side_pos@);
        }
        f
    }

    /// A box from its back-top-left corner and three edge vectors.
    pub fn new_cube_from_d(
        back_top_left: &Vector3,
        dw: &Vector3,
        dh: &Vector3,
        dd: &Vector3,
        m: Material,
    ) -> (f: Self)
        ensures
            f == new_cube_from_d_spec(*back_top_left, *dw, *dh, *dd, m),
    {
        Self::new_cube(
            back_top_left,
            &back_top_left.add(dw),
            &back_top_left.add(dh),
            &back_top_left.add(dd),
            m,
        )
    }

    /// A box from four corners: the remaining corners and the six face
    /// normals are derived from the edge vectors.
    pub fn new_cube(
        back_top_left: &Vector3,
        back_top_right: &Vector3,
        back_down_left: &Vector3,
        front_top_left: &Vector3,
        m: Material,
    ) -> (f: Self)
        ensures
            f == new_cube_spec(*back_top_left, *back_top_right, *back_down_left, *front_top_left, m),
    {
        let h_v = back_down_left.sub(back_top_left);
        let w_v = back_top_right.sub(back_top_left);
        let front_top_right = front_top_left.add(&w_v);
        let front_down_left = front_top_left.add(&h_v);
        let back_down_right = back_down_left.add(&w_v);
        let front_down_right = front_down_left.add(&h_v);
        let top_normal = Self::plane_normal(back_top_left, back_top_right, front_top_left).neg();
        let down_normal = top_normal.neg();
        let back_normal = Self::plane_normal(back_top_left, back_top_right, back_down_left);
        let front_normal = back_normal.neg();
        let left_normal = Self::plane_normal(front_top_left, back_top_left, &front_down_left);
        let right_normal = left_normal.neg();
        let f = Self::Cube {
            pos: [
                *back_top_left,
                *back_top_right,
                back_down_right,
                *back_down_left,
                *front_top_left,
                front_top_right,
                front_down_right,
                front_down_left,
            ],
            normals: [
                top_normal,
                back_normal,
                right_normal,
                front_normal,
                left_normal,
                down_normal,
            ],
            m,
        };
        proof {
            let g = new_cube_spec(
                *back_top_left,
                *back_top_right,
                *back_down_left,
                *front_top_left,
                m,
            );
            assert(f->Cube_pos@ =~= g->Cube_pos@);
            assert(f->Cube_normals@ =~= g->Cube_normals@);
        }
        f
    }

    pub fn get_material(&self) -> (m: &Material)
        ensures
            *m == figure_material_spec(*self),
    {
        match self {
            FigureKind::Side { m, .. } => m,
            FigureKind::Cube { m, .. } => m,
            FigureKind::Sphere { m, .. } => m,
        }
    }

    pub fn intersect(&self, ray: &Ray) -> (res: Option<Vector3>)
        ensures
            res == figure_intersect_spec(*self, *ray),
    {
        reveal(figure_intersect_spec);
        match self {
            FigureKind::Side { pos, normal, .. } => Self::rectangle_intersect(
                ray,
                &pos[0],
                &pos[1],
                &pos[2],
                normal,
            ),
            FigureKind::Cube { pos, normals, .. } => match Self::cube_intersect(
                ray,
                pos,
                normals,
            ) {
                None => None,
                Some(x) => Some(x.0),
            },
            FigureKind::Sphere { r, pos, .. } => Self::sphere_intersect(ray, *r, pos),
        }
    }

    /// Intersection point and the surface normal at it.
    pub fn intersect_with_normal(&self, ray: &Ray) -> (res: Option<(Vector3, Vector3)>)
        ensures
            res == figure_intersect_normal_spec(*self, *ray),
    {
        reveal(figure_intersect_normal_spec);
        reveal(cube_intersect_spec);
        match self {
            FigureKind::Side { pos, normal, .. } => match Self::rectangle_intersect(
                ray,
                &pos[0],
                &pos[1],
                &pos[2],
                normal,
            ) {
                None => None,
                Some(x) => Some((x, *normal)),
            },
            FigureKind::Cube { pos, normals, .. } => match Self::cube_intersect(
                ray,
                pos,
                normals,
            ) {
                None => None,
                Some(x) => Some((x.0, normals[x.1])),
            },
            FigureKind::Sphere { r, pos, .. } => match Self::sphere_intersect(ray, *r, pos) {
                None => None,
                Some(x) => Some((x, x.sub(pos).normalize())),
            },
        }
    }

    pub fn plane_normal(pp1: &Vector3, pp2: &Vector3, pp3: &Vector3) -> (n: Vector3)
        ensures
            n == plane_normal_spec(*pp1, *pp2, *pp3),
    {
        let v1 = pp1.sub(pp2);
        let v2 = pp1.sub(pp3);
        v1.cross_product(&v2).normalize()
    }

    pub fn cube_intersect(r: &Ray, dots: &[Vector3; 8], normals: &[Vector3; 6]) -> (res: Option<
        (Vector3, usize),
    >)
        ensures
            res == cube_intersect_spec(*r, *dots, *normals),
    {
        reveal(cube_intersect_spec);
        let mut d: i64 = i64::MAX;
        let mut t_point: Vector3 = Vector3::new(0, 0, 0);
        let mut t_idx: usize = usize::MAX;
        if let Some(p) = Self::rectangle_intersect(r, &dots[0], &dots[1], &dots[4], &normals[0]) {
            let tmp = p.sub(&r.pos).len_sq();
            if tmp < d {
                d = tmp;
                t_point = p;
                t_idx = 0;
            }
        }
        if let Some(p) = Self::rectangle_intersect(r, &dots[0], &dots[1], &dots[3], &normals[1]) {
            let tmp = p.sub(&r.pos).len_sq();
            if tmp < d {
                d = tmp;
                t_point = p;
                t_idx = 1;
            }
        }
        if let Some(p) = Self::rectangle_intersect(r, &dots[1], &dots[5], &dots[2], &normals[2]) {
            let tmp = p.sub(&r.pos).len_sq();
            if tmp < d {
                d = tmp;
                t_point = p;
                t_idx = 2;
            }
        }
        if let Some(p) = Self::rectangle_intersect(r, &dots[4], &dots[5], &dots[7], &normals[3]) {
            let tmp = p.sub(&r.pos).len_sq();
            if tmp < d {
                d = tmp;
                t_point = p;
                t_idx = 3;
            }
        }
        if let Some(p) = Self::rectangle_intersect(r, &dots[4], &dots[0], &dots[7], &normals[4]) {
            let tmp = p.sub(&r.pos).len_sq();
            if tmp < d {
                d = tmp;
                t_point = p;
                t_idx = 4;
            }
        }
        if let Some(p) = Self::rectangle_intersect(r, &dots[3], &dots[2], &dots[7], &normals[5]) {
            let tmp = p.sub(&r.pos).len_sq();
            if tmp < d {
                d = tmp;
                t_point = p;
                t_idx = 5;
            }
        }
        if t_idx != usize::MAX {
            Some((t_point, t_idx))
        } else {
            None
        }
    }

    pub fn sphere_intersect(r: &Ray, radius: i64, pos: &Vector3) -> (res: Option<Vector3>)
        ensures
            res == sphere_intersect_spec(*r, radius, *pos),
    {
        reveal(sphere_intersect_spec);
        let l = pos.sub(&r.pos);
        let tca = l.scalar_product(&r.dir);
        if tca < 0 {
            return None;
        }
        let d2 = fx_sub(l.scalar_product(&l), fx_mul(tca, tca));
        let r_sq = fx_mul(radius, radius);
        if d2 > r_sq {
            return None;
        }
        let thc = fx_sqrt(fx_sub(r_sq, d2));
        let mut t0 = fx_sub(tca, thc);
        let mut t1 = fx_add(tca, thc);
        if t0 > t1 {
            let tmp = t0;
            t0 = t1;
            t1 = tmp;
        }
        if t0 < 0 {
            t0 = t1;
            if t0 < 0 {
                return None;
            }
        }
        Some(r.point_from_t(t0))
    }

    /// Parametric plane intersection, returning the hit point of the ray
    /// equation `pos + dir * t`.
    pub fn plane_intersect(r: &Ray, pp1: &Vector3, normal: &Vector3) -> (res: Option<Vector3>)
        ensures
            res == plane_intersect_spec(*r, *pp1, *normal),
    {
        reveal(plane_intersect_spec);
        let denom = normal.scalar_product(&r.dir);
        let denom_abs = crate::num::fx_abs(denom);
        if denom_abs > EPSILON {
            let p010 = pp1.sub(&r.pos);
            let t = fx_div(p010.scalar_product(normal), denom);
            if t <= EPSILON * 10 {
                None
            } else {
                Some(r.point_from_t(t))
            }
        } else {
            None
        }
    }

    pub fn rectangle_intersect(
        r: &Ray,
        top_left: &Vector3,
        top_right: &Vector3,
        down_left: &Vector3,
        normal: &Vector3,
    ) -> (res: Option<Vector3>)
        ensures
            res == rectangle_intersect_spec(*r, *top_left, *top_right, *down_left, *normal),
    {
        reveal(rectangle_intersect_spec);
        let b = top_left;
        let c = top_right;
        let e = down_left;
        let c_b = c.sub(b);
        let e_b = e.sub(b);
        let a = match Self::plane_intersect(r, top_left, normal) {
            None => {
                return None;
            },
            Some(a) => a,
        };
        let t1 = a.scalar_product(&c_b);
        let t2 = a.scalar_product(&e_b);
        if fx_sub(b.scalar_product(&c_b), EPSILON) <= t1 && t1 <= fx_add(
            c.scalar_product(&c_b),
            EPSILON,
        ) && fx_sub(b.scalar_product(&e_b), EPSILON) <= t2 && t2 <= fx_add(
            e.scalar_product(&e_b),
            EPSILON,
        ) {
            Some(a)
        } else {
            None
        }
    }
}

} // verus!
