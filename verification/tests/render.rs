use raytracer::color::Color;
use raytracer::figure::FigureKind;
use raytracer::material::{Material, AIR_REFRACTION};
use raytracer::math::{Ray, Vector3};
use raytracer::raytracer::{intencity_distance, raytrace, render, shadow_part, trace_pixel};
use raytracer::scene::{LightSource, RenderSurface, Scene};

const S: i64 = 1_000_000;

fn white_matte() -> Material {
    Material {
        color: Vector3::new(S, S, S),
        refl: 0,
        diff: 950_000,
        specular: 20_000,
        shininess: 1,
        transparency: 0,
        refraction: AIR_REFRACTION,
        base_illumination: 50_000,
    }
}

// Corner order chosen so the outward normal points back toward the
// camera, along negative z.
fn facing_wall(side: i64, z: i64, m: Material) -> FigureKind {
    FigureKind::new_side(
        &Vector3::new(-side, -side, z),
        &Vector3::new(-side, side, z),
        &Vector3::new(side, -side, z),
        m,
    )
}

fn small_surface() -> RenderSurface {
    RenderSurface {
        top_left: Vector3::new(-S, -S, 0),
        top_right: Vector3::new(S, -S, 0),
        down_left: Vector3::new(-S, S, 0),
        foci_point: Vector3::new(0, 0, -2 * S),
    }
}

#[test]
fn trace_returns_black_on_miss() {
    // A sphere far off to the side: the ray misses everything.
    let scene = Scene {
        figures: vec![FigureKind::Sphere {
            r: S,
            pos: Vector3::new(100 * S, 0, 0),
            m: white_matte(),
        }],
        image: small_surface(),
        lights: vec![],
    };
    let r = Ray { pos: Vector3::new(0, 0, 0), dir: Vector3::new(0, 0, S) };
    assert_eq!(raytrace(0, &scene, &r, S), Vector3::new(0, 0, 0));
}

#[test]
fn trace_depth_bound_returns_black() {
    let scene = Scene {
        figures: vec![facing_wall(20 * S, 5 * S, white_matte())],
        image: small_surface(),
        lights: vec![],
    };
    let r = Ray { pos: Vector3::new(0, 0, 0), dir: Vector3::new(0, 0, S) };
    assert_eq!(raytrace(11, &scene, &r, S), Vector3::new(0, 0, 0));
}

#[test]
fn unlit_diffuse_surface_is_ambient_times_portion() {
    let m = Material {
        color: Vector3::new(S, 500_000, 250_000),
        refl: 0,
        diff: 950_000,
        specular: 20_000,
        shininess: 1,
        transparency: 0,
        refraction: AIR_REFRACTION,
        base_illumination: 100_000,
    };
    let scene = Scene {
        figures: vec![facing_wall(20 * S, 5 * S, m)],
        image: small_surface(),
        lights: vec![],
    };
    let r = Ray { pos: Vector3::new(0, 0, 0), dir: Vector3::new(0, 0, S) };
    // color * base_illumination * portion, exactly
    assert_eq!(raytrace(0, &scene, &r, S), Vector3::new(100_000, 50_000, 25_000));
    assert_eq!(
        raytrace(0, &scene, &r, 500_000),
        Vector3::new(50_000, 25_000, 12_500)
    );
}

#[test]
fn opaque_occluder_removes_light_contribution() {
    let wall = facing_wall(20 * S, 5 * S, white_matte());
    let occluder = facing_wall(S, 2_500_000, white_matte());
    let view_ray = Ray { pos: Vector3::new(0, 0, 0), dir: Vector3::new(0, 0, S) };
    let point = Vector3::new(0, 0, 5 * S);
    let normal = Vector3::new(0, 0, -S);
    let light = LightSource {
        pos: Vector3::new(0, 0, 0),
        color: Vector3::new(S, S, S),
        intencity: 1_500_000,
    };
    let m = white_matte();

    let open_scene = Scene {
        figures: vec![wall.clone()],
        image: small_surface(),
        lights: vec![light.clone()],
    };
    let lit = shadow_part(&open_scene, &view_ray, &point, &normal, &light, &m);
    let c = lit.expect("unoccluded light contributes");
    assert_ne!(c, Vector3::new(0, 0, 0));

    let blocked_scene = Scene {
        figures: vec![occluder, wall],
        image: small_surface(),
        lights: vec![light.clone()],
    };
    let dark = shadow_part(&blocked_scene, &view_ray, &point, &normal, &light, &m);
    assert_eq!(dark, None);
}

#[test]
fn light_behind_surface_contributes_nothing() {
    let wall = facing_wall(20 * S, 5 * S, white_matte());
    let view_ray = Ray { pos: Vector3::new(0, 0, 0), dir: Vector3::new(0, 0, S) };
    let point = Vector3::new(0, 0, 5 * S);
    let normal = Vector3::new(0, 0, -S);
    let light = LightSource {
        pos: Vector3::new(0, 0, 10 * S),
        color: Vector3::new(S, S, S),
        intencity: 1_500_000,
    };
    let m = white_matte();
    let scene = Scene {
        figures: vec![wall],
        image: small_surface(),
        lights: vec![light.clone()],
    };
    assert_eq!(shadow_part(&scene, &view_ray, &point, &normal, &light, &m), None);
}

#[test]
fn intensity_falloff_formula() {
    // 1.5 / (1 * 0.3 + 1 * 0.5) = 1.875
    assert_eq!(intencity_distance(1_500_000, S), 1_875_000);
    // 1.5 / (4 * 0.3 + 2 * 0.5) = 0.681818...
    assert_eq!(intencity_distance(1_500_000, 2 * S), 681_818);
}

#[test]
fn mirror_reflection_lights_up_reflected_object() {
    // A mirror wall straight ahead and a bright matte wall behind the
    // camera: the mirror branch must carry the matte wall's color back.
    let mirror = facing_wall(20 * S, 5 * S, Material::mirror_material());
    let back_m = Material {
        color: Vector3::new(S, 0, 0),
        refl: 0,
        diff: S,
        specular: 0,
        shininess: 1,
        transparency: 0,
        refraction: AIR_REFRACTION,
        base_illumination: 500_000,
    };
    let back = FigureKind::new_side(
        &Vector3::new(-20 * S, -20 * S, -10 * S),
        &Vector3::new(-20 * S, 20 * S, -10 * S),
        &Vector3::new(20 * S, -20 * S, -10 * S),
        back_m,
    );
    let scene = Scene {
        figures: vec![mirror, back],
        image: small_surface(),
        lights: vec![],
    };
    let r = Ray { pos: Vector3::new(0, 0, 0), dir: Vector3::new(0, 0, S) };
    let c = raytrace(0, &scene, &r, S);
    // The red component must have traveled through the mirror bounce.
    assert!(c.x > 0, "mirror must reflect the red wall, got {:?}", c);
    assert_eq!(c.y, c.z);
}

#[test]
fn empty_scene_renders_all_black() {
    let scene = Scene { figures: vec![], image: small_surface(), lights: vec![] };
    for (x, y) in [(2usize, 2usize), (1, 5), (3, 3)] {
        let buf = render(&scene, x, y);
        assert_eq!(buf.len(), x * y);
        for c in &buf {
            assert_eq!(*c, Color::new(0, 0, 0));
        }
    }
}

#[test]
fn single_lit_rectangle_renders_four_identical_nonblack_pixels() {
    let scene = Scene {
        figures: vec![facing_wall(20 * S, 5 * S, white_matte())],
        image: small_surface(),
        lights: vec![LightSource {
            pos: Vector3::new(0, 0, 0),
            color: Vector3::new(S, S, S),
            intencity: 1_500_000,
        }],
    };
    let buf = render(&scene, 2, 2);
    assert_eq!(buf.len(), 4);
    let first = buf[0];
    assert_ne!(first, Color::new(0, 0, 0));
    for c in &buf {
        assert_eq!(*c, first);
    }
}

#[test]
fn trace_pixel_matches_render_entry() {
    let scene = Scene {
        figures: vec![facing_wall(20 * S, 5 * S, white_matte())],
        image: small_surface(),
        lights: vec![LightSource {
            pos: Vector3::new(0, 0, 0),
            color: Vector3::new(S, S, S),
            intencity: 1_500_000,
        }],
    };
    let rays = scene.image.get_rays(2, 2);
    assert_eq!(rays.len(), 4);
    let buf = render(&scene, 2, 2);
    for (i, ray) in rays.iter().enumerate() {
        assert_eq!(buf[i], trace_pixel(&scene, ray));
    }
}

#[test]
fn camera_rays_start_at_focal_point() {
    let surface = small_surface();
    let rays = surface.get_rays(2, 2);
    for r in &rays {
        assert_eq!(r.pos, surface.foci_point);
    }
    // Row-major: the first ray's plane point is the top-left pixel center,
    // so its direction leans toward negative x and negative y.
    assert!(rays[0].dir.x < 0 && rays[0].dir.y < 0);
    assert!(rays[1].dir.x > 0 && rays[1].dir.y < 0);
    assert!(rays[2].dir.x < 0 && rays[2].dir.y > 0);
    assert!(rays[3].dir.x > 0 && rays[3].dir.y > 0);
}

#[test]
fn room_scene_renders() {
    let scene = Scene::get_room();
    assert_eq!(scene.figures.len(), 9);
    assert_eq!(scene.lights.len(), 2);
    let buf = render(&scene, 2, 2);
    assert_eq!(buf.len(), 4);
    // The room is lit: no pixel can be pure black.
    for c in &buf {
        assert_ne!(*c, Color::new(0, 0, 0));
    }
}

#[test]
fn glass_sphere_refracts_background() {
    // A glass sphere in front of a red wall: the traced color behind the
    // sphere still carries red through the refraction branch.
    let red = Material {
        color: Vector3::new(S, 0, 0),
        refl: 0,
        diff: S,
        specular: 0,
        shininess: 1,
        transparency: 0,
        refraction: AIR_REFRACTION,
        base_illumination: 500_000,
    };
    let scene = Scene {
        figures: vec![
            FigureKind::Sphere {
                r: S,
                pos: Vector3::new(0, 0, 3 * S),
                m: Material::cube_transparent(),
            },
            facing_wall(20 * S, 6 * S, red),
        ],
        image: small_surface(),
        lights: vec![],
    };
    let r = Ray { pos: Vector3::new(0, 0, 0), dir: Vector3::new(0, 0, S) };
    let c = raytrace(0, &scene, &r, S);
    assert!(c.x > 0, "refraction must carry the wall color, got {:?}", c);
}
