//! The scene model: an ordered collection of figures, point light sources,
//! and the camera surface that generates one primary ray per pixel.

use vstd::prelude::*;
use crate::color::{color_to_vector3_spec, Color};
use crate::figure::{
    figure_material_spec, new_cube_from_d_spec, new_cube_spec, new_side_spec, FigureKind,
};
use crate::material::Material;
use crate::math::{
    v_add_spec, v_div_spec, v_mult_spec, v_norm_spec, v_rot_y_spec, v_sub_spec, Ray, Vector3,
};
use crate::num::{fx_from_int_spec, fx_from_usize};

verus! {

#[derive(Debug, Clone)]
pub struct Scene {
    pub figures: Vec<FigureKind>,
    pub image: RenderSurface,
    pub lights: Vec<LightSource>,
}

/// Four points describing a rectangular image plane in space, and the
/// focal point behind it from which every primary ray starts.
#[derive(Debug, Clone, Copy, PartialEq, Eq, Structural)]
pub struct RenderSurface {
    pub top_left: Vector3,
    pub top_right: Vector3,
    pub down_left: Vector3,
    pub foci_point: Vector3,
}

#[derive(Debug, Clone, Copy, PartialEq, Eq, Structural)]
pub struct LightSource {
    pub pos: Vector3,
    pub color: Vector3,
    pub intencity: i64,
}

/// A scene the renderer can work on: every material's refractive index is
/// positive, so refraction ratios are always defined.
pub open spec fn scene_wf(s: Scene) -> bool {
    forall|i: int|
        0 <= i < s.figures@.len() ==> (#[trigger] figure_material_spec(
            s.figures@[i],
        )).refraction > 0
}

/// The primary ray of pixel `(i, j)` on an `x` by `y` surface: from the
/// focal point through the center of the pixel's cell on the image plane.
pub open spec fn ray_for_pixel_spec(s: RenderSurface, x: int, y: int, i: int, j: int) -> Ray {
    let delta_x = v_div_spec(v_sub_spec(s.top_right, s.top_left), fx_from_int_spec(x));
    let delta_y = v_div_spec(v_sub_spec(s.down_left, s.top_left), fx_from_int_spec(y));
    let begin = v_add_spec(
        v_add_spec(s.top_left, v_mult_spec(delta_x, 500_000)),
        v_mult_spec(delta_y, 500_000),
    );
    let pos = v_add_spec(
        v_add_spec(begin, v_mult_spec(delta_x, fx_from_int_spec(i))),
        v_mult_spec(delta_y, fx_from_int_spec(j)),
    );
    Ray { pos: s.foci_point, dir: v_norm_spec(v_sub_spec(pos, s.foci_point)) }
}

impl RenderSurface {
    /// One ray per pixel, row-major with the column index varying fastest.
    pub fn get_rays(&self, x: usize, y: usize) -> (r: Vec<Ray>)
        requires
            1 <= x,
            1 <= y,
            x * y <= usize::MAX,
        ensures
            r@.len() == x * y,
            forall|j: int, i: int|
                0 <= j < y && 0 <= i < x ==> r@[j * (x as int) + i] == ray_for_pixel_spec(
                    *self,
                    x as int,
                    y as int,
                    i,
                    j,
                ),
    {
        let mut r: Vec<Ray> = Vec::new();
        let delta_x = self.top_right.sub(&self.top_left).div(fx_from_usize(x));
        let delta_y = self.down_left.sub(&self.top_left).div(fx_from_usize(y));
        let begin = self.top_left.add(&delta_x.mult(500_000)).add(&delta_y.mult(500_000));
        let origin = self.foci_point;
        let mut j: usize = 0;
        while j < y
            invariant
                1 <= x,
                1 <= y,
                j <= y,
                x * y <= usize::MAX,
                delta_x == v_div_spec(
                    v_sub_spec(self.top_right, self.top_left),
                    fx_from_int_spec(x as int),
                ),
                delta_y == v_div_spec(
                    v_sub_spec(self.down_left, self.top_left),
                    fx_from_int_spec(y as int),
                ),
                begin == v_add_spec(
                    v_add_spec(self.top_left, v_mult_spec(delta_x, 500_000)),
                    v_mult_spec(delta_y, 500_000),
                ),
                origin == self.foci_point,
                r@.len() == j * x,
                forall|j2: int, i2: int|
                    0 <= j2 < j && 0 <= i2 < x ==> r@[j2 * (x as int) + i2] == ray_for_pixel_spec(
                        *self,
                        x as int,
                        y as int,
                        i2,
                        j2,
                    ),
            decreases y - j,
        {
            proof {
                assert((j as int) * (x as int) + (x as int) <= (y as int) * (x as int))
                    by (nonlinear_arith)
                    requires
                        j as int >= 0,
                        (j as int) < (y as int),
                        1 <= x as int,
                ;
                assert((y as int) * (x as int) == (x as int) * (y as int)) by (nonlinear_arith);
            }
            let mut i: usize = 0;
            while i < x
                invariant
                    1 <= x,
                    1 <= y,
                    j < y,
                    i <= x,
                    x * y <= usize::MAX,
                    (j as int) * (x as int) + (x as int) <= (x as int) * (y as int),
                    delta_x == v_div_spec(
                        v_sub_spec(self.top_right, self.top_left),
                        fx_from_int_spec(x as int),
                    ),
                    delta_y == v_div_spec(
                        v_sub_spec(self.down_left, self.top_left),
                        fx_from_int_spec(y as int),
                    ),
                    begin == v_add_spec(
                        v_add_spec(self.top_left, v_mult_spec(delta_x, 500_000)),
                        v_mult_spec(delta_y, 500_000),
                    ),
                    origin == self.foci_point,
                    r@.len() == j * x + i,
                    forall|j2: int, i2: int|
                        0 <= j2 < j && 0 <= i2 < x ==> r@[j2 * (x as int) + i2]
                            == ray_for_pixel_spec(*self, x as int, y as int, i2, j2),
                    forall|i2: int|
                        0 <= i2 < i ==> r@[(j as int) * (x as int) + i2] == ray_for_pixel_spec(
                            *self,
                            x as int,
                            y as int,
                            i2,
                            j as int,
                        ),
                decreases x - i,
            {
                let pos = begin.add(&delta_x.mult(fx_from_usize(i))).add(
                    &delta_y.mult(fx_from_usize(j)),
                );
                let dir = pos.sub(&origin).normalize();
                let ray = Ray { pos: origin, dir };
                r.push(ray);
                proof {
                    assert forall|j2: int, i2: int|
                        0 <= j2 < j && 0 <= i2 < x implies #[trigger] r@[j2 * (x as int) + i2]
                        == ray_for_pixel_spec(*self, x as int, y as int, i2, j2) by {
                        assert(j2 * (x as int) + (x as int) <= (j as int) * (x as int))
                            by (nonlinear_arith)
                            requires
                                j2 >= 0,
                                j2 < (j as int),
                                1 <= x as int,
                        ;
                    }
                }
                i = i + 1;
            }
            j = j + 1;
            proof {
                assert(((j - 1) as int) * (x as int) + (x as int) == (j as int) * (x as int))
                    by (nonlinear_arith);
            }
        }
        proof {
            assert((y as int) * (x as int) == (x as int) * (y as int)) by (nonlinear_arith);
        }
        r
    }
}

impl Scene {
    /// The fixed demonstration room: six walls, a matte block, a partly
    /// mirroring rotated block, a glass sphere and two white lights.
    pub fn get_room() -> (s: Self)
        ensures
            s.image == (RenderSurface {
                top_left: Vector3 { x: -1_500_000i64, y: -1_500_000i64, z: -1_950_000i64 },
                top_right: Vector3 { x: 1_500_000i64, y: -1_500_000i64, z: -1_950_000i64 },
                down_left: Vector3 { x: -1_500_000i64, y: 1_500_000i64, z: -1_950_000i64 },
                foci_point: Vector3 { x: 0i64, y: 0i64, z: -4_950_000i64 },
            }),
            s.lights@ == seq![
                LightSource {
                    pos: Vector3 { x: 1_600_000i64, y: -1_600_000i64, z: -100_000i64 },
                    color: color_to_vector3_spec(Color { r: 255u8, g: 255u8, b: 255u8 }),
                    intencity: 1_500_000,
                },
                LightSource {
                    pos: Vector3 { x: -1_600_000i64, y: -1_600_000i64, z: -100_000i64 },
                    color: color_to_vector3_spec(Color { r: 255u8, g: 255u8, b: 255u8 }),
                    intencity: 1_500_000,
                },
            ],
            s.figures@ == room_figures_spec(),
            scene_wf(s),
    {
        let r = RenderSurface {
            top_left: Vector3::new(-1_500_000, -1_500_000, -1_950_000),
            top_right: Vector3::new(1_500_000, -1_500_000, -1_950_000),
            down_left: Vector3::new(-1_500_000, 1_500_000, -1_950_000),
            foci_point: Vector3::new(0, 0, -4_950_000),
        };
        let top = FigureKind::new_side(
            &Vector3::new(-2_000_000, -2_000_000, -2_000_000),
            &Vector3::new(-2_000_000, -2_000_000, 2_000_000),
            &Vector3::new(2_000_000, -2_000_000, -2_000_000),
            Material::frontwalls(),
        );
        let front = FigureKind::new_side(
            &Vector3::new(-2_000_000, -2_000_000, 2_000_000),
            &Vector3::new(-2_000_000, 2_000_000, 2_000_000),
            &Vector3::new(2_000_000, -2_000_000, 2_000_000),
            Material::frontwalls(),
        );
        let down = FigureKind::new_side(
            &Vector3::new(-2_000_000, 2_000_000, -2_000_000),
            &Vector3::new(2_000_000, 2_000_000, -2_000_000),
            &Vector3::new(-2_000_000, 2_000_000, 2_000_000),
            Material::frontwalls(),
        );
        let left = FigureKind::new_side(
            &Vector3::new(-2_000_000, -2_000_000, 2_000_000),
            &Vector3::new(-2_000_000, -2_000_000, -2_000_000),
            &Vector3::new(-2_000_000, 2_000_000, 2_000_000),
            Material::leftwall(),
        );
        let right = FigureKind::new_side(
            &Vector3::new(2_000_000, 2_000_000, 2_000_000),
            &Vector3::new(2_000_000, 2_000_000, -2_000_000),
            &Vector3::new(2_000_000, -2_000_000, 2_000_000),
            Material::rightwall(),
        );
        let back = FigureKind::new_side(
            &Vector3::new(-2_000_000, -2_000_000, -2_000_000),
            &Vector3::new(2_000_000, -2_000_000, -2_000_000),
            &Vector3::new(-2_000_000, 2_000_000, -2_000_000),
            Material::backwalls(),
        );
        let cube = FigureKind::new_cube(
            &Vector3::new(-1_500_000, 1_000_000, 1_500_000),
            &Vector3::new(-500_000, 1_000_000, 1_500_000),
            &Vector3::new(-1_500_000, 2_000_000, 1_500_000),
            &Vector3::new(-1_500_000, 1_000_000, 500_000),
            Material::cube_material(),
        );
        let cube2 = FigureKind::new_cube_from_d(
            &Vector3::new(500_000, 500_000, 1_000_000),
            &Vector3::new(1_000_000, 0, 0).rotate_y_axis(COS_PI_6, SIN_PI_6),
            &Vector3::new(0, 1_499_000, 0).rotate_y_axis(COS_PI_6, SIN_PI_6),
            &Vector3::new(0, 0, -1_000_000).rotate_y_axis(COS_PI_6, SIN_PI_6),
            Material::cube_metalic(),
        );
        let sphere = FigureKind::Sphere {
            r: 200_000,
            pos: Vector3 { x: -1_000_000i64, y: 1_500_000i64, z: -500_000i64 },
            m: Material::cube_transparent(),
        };
        let v = vec![top, front, down, left, right, back, cube, cube2, sphere];
        let l1 = LightSource {
            pos: Vector3::new(1_600_000, -1_600_000, -100_000),
            color: Color::white().to_vector3(),
            intencity: 1_500_000,
        };
        let l2 = LightSource {
            pos: Vector3::new(-1_600_000, -1_600_000, -100_000),
            color: Color::white().to_vector3(),
            intencity: 1_500_000,
        };
        let s = Scene { figures: v, image: r, lights: vec![l1, l2] };
        proof {
            assert(s.figures@ =~= room_figures_spec());
            assert(s.lights@ =~= seq![
                LightSource {
                    pos: Vector3 { x: 1_600_000i64, y: -1_600_000i64, z: -100_000i64 },
                    color: color_to_vector3_spec(Color { r: 255u8, g: 255u8, b: 255u8 }),
                    intencity: 1_500_000,
                },
                LightSource {
                    pos: Vector3 { x: -1_600_000i64, y: -1_600_000i64, z: -100_000i64 },
                    color: color_to_vector3_spec(Color { r: 255u8, g: 255u8, b: 255u8 }),
                    intencity: 1_500_000,
                },
            ]);
        }
        s
    }
}

/// Fixed-point cosine of thirty degrees.
pub const COS_PI_6: i64 = 866_025;

/// Fixed-point sine of thirty degrees.
pub const SIN_PI_6: i64 = 500_000;

/// The figures of the demonstration room, in scan order.
pub open spec fn room_figures_spec() -> Seq<FigureKind> {
    seq![
        new_side_spec(
            Vector3 { x: -2_000_000i64, y: -2_000_000i64, z: -2_000_000i64 },
            Vector3 { x: -2_000_000i64, y: -2_000_000i64, z: 2_000_000i64 },
            Vector3 { x: 2_000_000i64, y: -2_000_000i64, z: -2_000_000i64 },
            crate::material::frontwalls_spec(),
        ),
        new_side_spec(
            Vector3 { x: -2_000_000i64, y: -2_000_000i64, z: 2_000_000i64 },
            Vector3 { x: -2_000_000i64, y: 2_000_000i64, z: 2_000_000i64 },
            Vector3 { x: 2_000_000i64, y: -2_000_000i64, z: 2_000_000i64 },
            crate::material::frontwalls_spec(),
        ),
        new_side_spec(
            Vector3 { x: -2_000_000i64, y: 2_000_000i64, z: -2_000_000i64 },
            Vector3 { x: 2_000_000i64, y: 2_000_000i64, z: -2_000_000i64 },
            Vector3 { x: -2_000_000i64, y: 2_000_000i64, z: 2_000_000i64 },
            crate::material::frontwalls_spec(),
        ),
        new_side_spec(
            Vector3 { x: -2_000_000i64, y: -2_000_000i64, z: 2_000_000i64 },
            Vector3 { x: -2_000_000i64, y: -2_000_000i64, z: -2_000_000i64 },
            Vector3 { x: -2_000_000i64, y: 2_000_000i64, z: 2_000_000i64 },
            crate::material::leftwall_spec(),
        ),
        new_side_spec(
            Vector3 { x: 2_000_000i64, y: 2_000_000i64, z: 2_000_000i64 },
            Vector3 { x: 2_000_000i64, y: 2_000_000i64, z: -2_000_000i64 },
            Vector3 { x: 2_000_000i64, y: -2_000_000i64, z: 2_000_000i64 },
            crate::material::rightwall_spec(),
        ),
        new_side_spec(
            Vector3 { x: -2_000_000i64, y: -2_000_000i64, z: -2_000_000i64 },
            Vector3 { x: 2_000_000i64, y: -2_000_000i64, z: -2_000_000i64 },
            Vector3 { x: -2_000_000i64, y: 2_000_000i64, z: -2_000_000i64 },
            crate::material::backwalls_spec(),
        ),
        new_cube_spec(
            Vector3 { x: -1_500_000i64, y: 1_000_000i64, z: 1_500_000i64 },
            Vector3 { x: -500_000i64, y: 1_000_000i64, z: 1_500_000i64 },
            Vector3 { x: -1_500_000i64, y: 2_000_000i64, z: 1_500_000i64 },
            Vector3 { x: -1_500_000i64, y: 1_000_000i64, z: 500_000i64 },
            crate::material::cube_material_spec(),
        ),
        new_cube_from_d_spec(
            Vector3 { x: 500_000i64, y: 500_000i64, z: 1_000_000i64 },
            v_rot_y_spec(Vector3 { x: 1_000_000i64, y: 0i64, z: 0i64 }, COS_PI_6, SIN_PI_6),
            v_rot_y_spec(Vector3 { x: 0i64, y: 1_499_000i64, z: 0i64 }, COS_PI_6, SIN_PI_6),
            v_rot_y_spec(Vector3 { x: 0i64, y: 0i64, z: -1_000_000i64 }, COS_PI_6, SIN_PI_6),
            crate::material::cube_metalic_spec(),
        ),
        FigureKind::Sphere {
            r: 200_000,
            pos: Vector3 { x: -1_000_000i64, y: 1_500_000i64, z: -500_000i64 },
            m: crate::material::cube_transparent_spec(),
        },
    ]
}

} // verus!
