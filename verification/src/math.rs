//! 3D vector algebra and rays over fixed-point scalars.
//!
//! Every executable operation is specified exactly by a spec-level mirror
//! written with the fixed-point spec functions of [`crate::num`].

use vstd::prelude::*;
use crate::num::{
    fx_add, fx_add_spec, fx_div, fx_div_spec, fx_mul, fx_mul_spec, fx_neg, fx_neg_spec, fx_sqrt,
    fx_sqrt_spec, fx_sub, fx_sub_spec, SCALE,
};

verus! {

/// Raw representation of `2.0`.
pub const TWO_FX: i64 = 2_000_000;

#[derive(Debug, Clone, Copy, PartialEq, Eq, Structural)]
pub struct Vector3 {
    pub x: i64,
    pub y: i64,
    pub z: i64,
}

#[derive(Debug, Clone, Copy, PartialEq, Eq, Structural)]
pub struct Ray {
    pub pos: Vector3,
    pub dir: Vector3,
}

pub open spec fn v_add_spec(a: Vector3, b: Vector3) -> Vector3 {
    Vector3 { x: fx_add_spec(a.x, b.x), y: fx_add_spec(a.y, b.y), z: fx_add_spec(a.z, b.z) }
}

pub open spec fn v_sub_spec(a: Vector3, b: Vector3) -> Vector3 {
    Vector3 { x: fx_sub_spec(a.x, b.x), y: fx_sub_spec(a.y, b.y), z: fx_sub_spec(a.z, b.z) }
}

pub open spec fn v_neg_spec(a: Vector3) -> Vector3 {
    Vector3 { x: fx_neg_spec(a.x), y: fx_neg_spec(a.y), z: fx_neg_spec(a.z) }
}

pub open spec fn v_mult_spec(a: Vector3, n: i64) -> Vector3 {
    Vector3 { x: fx_mul_spec(a.x, n), y: fx_mul_spec(a.y, n), z: fx_mul_spec(a.z, n) }
}

pub open spec fn v_div_spec(a: Vector3, n: i64) -> Vector3 {
    Vector3 { x: fx_div_spec(a.x, n), y: fx_div_spec(a.y, n), z: fx_div_spec(a.z, n) }
}

pub open spec fn v_dot_spec(a: Vector3, b: Vector3) -> i64 {
    fx_add_spec(
        fx_add_spec(fx_mul_spec(a.x, b.x), fx_mul_spec(a.y, b.y)),
        fx_mul_spec(a.z, b.z),
    )
}

pub open spec fn v_cross_spec(a: Vector3, b: Vector3) -> Vector3 {
    Vector3 {
        x: fx_sub_spec(fx_mul_spec(a.y, b.z), fx_mul_spec(a.z, b.y)),
        y: fx_sub_spec(fx_mul_spec(a.z, b.x), fx_mul_spec(a.x, b.z)),
        z: fx_sub_spec(fx_mul_spec(a.x, b.y), fx_mul_spec(a.y, b.x)),
    }
}

pub open spec fn v_elem_mult_spec(a: Vector3, b: Vector3) -> Vector3 {
    Vector3 { x: fx_mul_spec(a.x, b.x), y: fx_mul_spec(a.y, b.y), z: fx_mul_spec(a.z, b.z) }
}

pub open spec fn v_len_sq_spec(a: Vector3) -> i64 {
    fx_add_spec(
        fx_add_spec(fx_mul_spec(a.x, a.x), fx_mul_spec(a.y, a.y)),
        fx_mul_spec(a.z, a.z),
    )
}

pub open spec fn v_len_spec(a: Vector3) -> i64 {
    fx_sqrt_spec(v_len_sq_spec(a))
}

/// Normalization: a vector whose fixed-point length is zero is returned
/// unchanged, since no direction can be recovered from it.
pub open spec fn v_norm_spec(a: Vector3) -> Vector3 {
    if v_len_spec(a) == 0 {
        a
    } else {
        v_div_spec(a, v_len_spec(a))
    }
}

pub open spec fn v_inverse_spec(a: Vector3) -> Vector3 {
    Vector3 {
        x: fx_div_spec(SCALE, a.x),
        y: fx_div_spec(SCALE, a.y),
        z: fx_div_spec(SCALE, a.z),
    }
}

pub open spec fn v_lerp_spec(a: Vector3, b: Vector3, portion: i64) -> Vector3 {
    v_add_spec(a, v_mult_spec(v_sub_spec(b, a), portion))
}

pub open spec fn v_rot_x_spec(a: Vector3, cos_a: i64, sin_a: i64) -> Vector3 {
    Vector3 {
        x: a.x,
        y: fx_sub_spec(fx_mul_spec(a.y, cos_a), fx_mul_spec(a.z, sin_a)),
        z: fx_add_spec(fx_mul_spec(a.y, sin_a), fx_mul_spec(a.z, cos_a)),
    }
}

pub open spec fn v_rot_y_spec(a: Vector3, cos_a: i64, sin_a: i64) -> Vector3 {
    Vector3 {
        x: fx_add_spec(fx_mul_spec(a.x, cos_a), fx_mul_spec(a.z, sin_a)),
        y: a.y,
        z: fx_add_spec(fx_mul_spec(fx_neg_spec(a.x), sin_a), fx_mul_spec(a.z, cos_a)),
    }
}

pub open spec fn v_rot_z_spec(a: Vector3, cos_a: i64, sin_a: i64) -> Vector3 {
    Vector3 {
        x: fx_sub_spec(fx_mul_spec(a.x, cos_a), fx_mul_spec(a.y, sin_a)),
        y: fx_add_spec(fx_mul_spec(a.x, sin_a), fx_mul_spec(a.y, cos_a)),
        z: a.z,
    }
}

pub open spec fn v_zero_spec() -> Vector3 {
    Vector3 { x: 0, y: 0, z: 0 }
}

impl Vector3 {
    pub fn new(x: i64, y: i64, z: i64) -> (v: Self)
        ensures
            v == (Vector3 { x, y, z }),
    {
        Self { x, y, z }
    }

    pub fn add(&self, rhs: &Self) -> (v: Self)
        ensures
            v == v_add_spec(*self, *rhs),
    {
        Vector3 { x: fx_add(self.x, rhs.x), y: fx_add(self.y, rhs.y), z: fx_add(self.z, rhs.z) }
    }

    pub fn sub(&self, rhs: &Self) -> (v: Self)
        ensures
            v == v_sub_spec(*self, *rhs),
    {
        Vector3 { x: fx_sub(self.x, rhs.x), y: fx_sub(self.y, rhs.y), z: fx_sub(self.z, rhs.z) }
    }

    pub fn neg(&self) -> (v: Self)
        ensures
            v == v_neg_spec(*self),
    {
        Vector3 { x: fx_neg(self.x), y: fx_neg(self.y), z: fx_neg(self.z) }
    }

    pub fn len_sq(&self) -> (r: i64)
        ensures
            r == v_len_sq_spec(*self),
    {
        fx_add(fx_add(fx_mul(self.x, self.x), fx_mul(self.y, self.y)), fx_mul(self.z, self.z))
    }

    pub fn len(&self) -> (r: i64)
        ensures
            r == v_len_spec(*self),
            r >= 0,
    {
        fx_sqrt(self.len_sq())
    }

    pub fn normalize(&self) -> (v: Self)
        ensures
            v == v_norm_spec(*self),
    {
        let l: i64 = self.len();
        if l == 0 {
            *self
        } else {
            self.div(l)
        }
    }

    pub fn cross_product(&self, other: &Self) -> (v: Self)
        ensures
            v == v_cross_spec(*self, *other),
    {
        Vector3 {
            x: fx_sub(fx_mul(self.y, other.z), fx_mul(self.z, other.y)),
            y: fx_sub(fx_mul(self.z, other.x), fx_mul(self.x, other.z)),
            z: fx_sub(fx_mul(self.x, other.y), fx_mul(self.y, other.x)),
        }
    }

    pub fn scalar_product(&self, other: &Self) -> (r: i64)
        ensures
            r == v_dot_spec(*self, *other),
    {
        fx_add(
            fx_add(fx_mul(self.x, other.x), fx_mul(self.y, other.y)),
            fx_mul(self.z, other.z),
        )
    }

    pub fn mult(&self, n: i64) -> (v: Self)
        ensures
            v == v_mult_spec(*self, n),
    {
        Vector3 { x: fx_mul(self.x, n), y: fx_mul(self.y, n), z: fx_mul(self.z, n) }
    }

    pub fn div(&self, n: i64) -> (v: Self)
        requires
            n != 0,
        ensures
            v == v_div_spec(*self, n),
    {
        Vector3 { x: fx_div(self.x, n), y: fx_div(self.y, n), z: fx_div(self.z, n) }
    }

    pub fn inverse(&self) -> (v: Self)
        requires
            self.x != 0,
            self.y != 0,
            self.z != 0,
        ensures
            v == v_inverse_spec(*self),
    {
        Vector3 {
            x: fx_div(SCALE, self.x),
            y: fx_div(SCALE, self.y),
            z: fx_div(SCALE, self.z),
        }
    }

    pub fn mult_per_element(&self, other: &Self) -> (v: Self)
        ensures
            v == v_elem_mult_spec(*self, *other),
    {
        Vector3 {
            x: fx_mul(self.x, other.x),
            y: fx_mul(self.y, other.y),
            z: fx_mul(self.z, other.z),
        }
    }

    pub fn lerp(&self, other: &Self, portion: i64) -> (v: Self)
        ensures
            v == v_lerp_spec(*self, *other, portion),
    {
        self.add(&other.sub(self).mult(portion))
    }

    /// Right-handed rotation about the x axis, by an angle given through
    /// its fixed-point cosine and sine.
    pub fn rotate_x_axis(&self, cos_a: i64, sin_a: i64) -> (v: Self)
        ensures
            v == v_rot_x_spec(*self, cos_a, sin_a),
    {
        Self {
            x: self.x,
            y: fx_sub(fx_mul(self.y, cos_a), fx_mul(self.z, sin_a)),
            z: fx_add(fx_mul(self.y, sin_a), fx_mul(self.z, cos_a)),
        }
    }

    /// Right-handed rotation about the y axis.
    pub fn rotate_y_axis(&self, cos_a: i64, sin_a: i64) -> (v: Self)
        ensures
            v == v_rot_y_spec(*self, cos_a, sin_a),
    {
        Self {
            x: fx_add(fx_mul(self.x, cos_a), fx_mul(self.z, sin_a)),
            y: self.y,
            z: fx_add(fx_mul(fx_neg(self.x), sin_a), fx_mul(self.z, cos_a)),
        }
    }

    /// Right-handed rotation about the z axis.
    pub fn rotate_z_axis(&self, cos_a: i64, sin_a: i64) -> (v: Self)
        ensures
            v == v_rot_z_spec(*self, cos_a, sin_a),
    {
        Self {
            x: fx_sub(fx_mul(self.x, cos_a), fx_mul(self.y, sin_a)),
            y: fx_add(fx_mul(self.x, sin_a), fx_mul(self.y, cos_a)),
            z: self.z,
        }
    }
}

pub open spec fn ray_reflect_spec(r: Ray, hit_point: Vector3, normal: Vector3) -> Ray {
    Ray {
        pos: hit_point,
        dir: v_sub_spec(r.dir, v_mult_spec(normal, fx_mul_spec(TWO_FX, v_dot_spec(r.dir, normal)))),
    }
}

pub open spec fn ray_point_spec(r: Ray, t: i64) -> Vector3 {
    v_add_spec(r.pos, v_mult_spec(r.dir, t))
}

pub open spec fn ray_forward_spec(r: Ray, len: i64) -> Ray {
    Ray { pos: v_add_spec(r.pos, v_mult_spec(r.dir, len)), dir: r.dir }
}

pub open spec fn ray_new_normalize_spec(pos: Vector3, dir: Vector3) -> Ray {
    Ray { pos, dir: v_norm_spec(dir) }
}

impl Ray {
    /// The mirror ray at `hit_point`: direction `d - 2 (d . n) n`.
    pub fn reflect(&self, hit_point: &Vector3, normal: &Vector3) -> (r: Self)
        ensures
            r == ray_reflect_spec(*self, *hit_point, *normal),
    {
        let refl_dir = self.dir.sub(&normal.mult(fx_mul(TWO_FX, self.dir.scalar_product(normal))));
        Self { pos: *hit_point, dir: refl_dir }
    }

    pub fn new_normalize(pos: Vector3, dir: &Vector3) -> (r: Self)
        ensures
            r == ray_new_normalize_spec(pos, *dir),
    {
        Ray { pos, dir: dir.normalize() }
    }

    /// The point at parametric distance `t` along the ray.
    pub fn point_from_t(&self, t: i64) -> (v: Vector3)
        ensures
            v == ray_point_spec(*self, t),
    {
        self.pos.add(&self.dir.mult(t))
    }

    /// The same ray advanced by `len` along its direction.
    pub fn move_forward(&self, len: i64) -> (r: Ray)
        ensures
            r == ray_forward_spec(*self, len),
    {
        Ray { pos: self.pos.add(&self.dir.mult(len)), dir: self.dir }
    }
}

} // verus!

