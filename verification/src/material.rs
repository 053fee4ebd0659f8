//! Surface materials: color and the weighting coefficients of the shading
//! model. The coefficients are independent weights; nothing forces them to
//! sum to one, and the shading math uses them exactly as given.

use vstd::prelude::*;
use crate::math::Vector3;

verus! {

/// Refractive index of the ambient medium.
pub const AIR_REFRACTION: i64 = 1_000_273;

pub const SMALL_GLASS_REFRACTION: i64 = 1_200_000;

pub const GLASS_REFRACTION: i64 = 1_500_000;

pub const PLASTIC_REFRACTION: i64 = 2_500_000;

#[derive(Debug, Clone, Copy, PartialEq, Eq, Structural)]
pub struct Material {
    /// Surface color with components in `[0, 1]`.
    pub color: Vector3,
    /// Mirror reflectivity weight.
    pub refl: i64,
    /// Diffuse weight.
    pub diff: i64,
    /// Specular weight.
    pub specular: i64,
    /// Phong exponent of the specular highlight.
    pub shininess: u32,
    /// Transparency weight.
    pub transparency: i64,
    /// Refractive index of the material; must be positive.
    pub refraction: i64,
    /// Ambient term: light emitted regardless of any light source.
    pub base_illumination: i64,
}

impl Material {
    /// A material usable by the renderer: its refractive index is positive,
    /// so the refraction ratio is always defined.
    pub open spec fn wf(self) -> bool {
        self.refraction > 0
    }
}

pub open spec fn frontwalls_spec() -> Material {
    Material {
        color: Vector3 { x: 1_000_000, y: 1_000_000, z: 1_000_000 },
        refl: 50_000,
        diff: 950_000,
        specular: 20_000,
        shininess: 1,
        transparency: 0,
        refraction: AIR_REFRACTION,
        base_illumination: 50_000,
    }
}

pub open spec fn backwalls_spec() -> Material {
    Material {
        color: Vector3 { x: 200_000, y: 500_000, z: 200_000 },
        refl: 50_000,
        diff: 950_000,
        specular: 300_000,
        shininess: 1,
        transparency: 0,
        refraction: AIR_REFRACTION,
        base_illumination: 50_000,
    }
}

pub open spec fn leftwall_spec() -> Material {
    Material {
        color: Vector3 { x: 1_000_000, y: 200_000, z: 200_000 },
        refl: 100_000,
        diff: 900_000,
        specular: 300_000,
        shininess: 1,
        transparency: 0,
        refraction: AIR_REFRACTION,
        base_illumination: 50_000,
    }
}

pub open spec fn rightwall_spec() -> Material {
    Material {
        color: Vector3 { x: 200_000, y: 200_000, z: 1_000_000 },
        refl: 100_000,
        diff: 900_000,
        specular: 300_000,
        shininess: 1,
        transparency: 0,
        refraction: AIR_REFRACTION,
        base_illumination: 50_000,
    }
}

pub open spec fn cube_material_spec() -> Material {
    Material {
        color: Vector3 { x: 1_000_000, y: 1_000_000, z: 200_000 },
        refl: 0,
        diff: 1_000_000,
        specular: 300_000,
        shininess: 1,
        transparency: 0,
        refraction: AIR_REFRACTION,
        base_illumination: 50_000,
    }
}

pub open spec fn cube_metalic_spec() -> Material {
    Material {
        color: Vector3 { x: 900_000, y: 900_000, z: 900_000 },
        refl: 400_000,
        diff: 600_000,
        specular: 300_000,
        shininess: 1,
        transparency: 0,
        refraction: AIR_REFRACTION,
        base_illumination: 50_000,
    }
}

pub open spec fn cube_transparent_spec() -> Material {
    Material {
        color: Vector3 { x: 900_000, y: 900_000, z: 900_000 },
        refl: 50_000,
        diff: 100_000,
        specular: 50_000,
        shininess: 1,
        transparency: 990_000,
        refraction: GLASS_REFRACTION,
        base_illumination: 10_000,
    }
}

pub open spec fn mirror_material_spec() -> Material {
    Material {
        color: Vector3 { x: 1_000_000, y: 1_000_000, z: 1_000_000 },
        refl: 990_000,
        diff: 10_000,
        specular: 10_000,
        shininess: 1,
        transparency: 0,
        refraction: AIR_REFRACTION,
        base_illumination: 10_000,
    }
}

impl Material {
    /// Matte white walls.
    pub fn frontwalls() -> (m: Material)
        ensures
            m == frontwalls_spec(),
            m.wf(),
    {
        Material {
            color: Vector3 { x: 1_000_000, y: 1_000_000, z: 1_000_000 },
            refl: 50_000,
            diff: 950_000,
            specular: 20_000,
            shininess: 1,
            transparency: 0,
            refraction: AIR_REFRACTION,
            base_illumination: 50_000,
        }
    }

    /// Matte green wall.
    pub fn backwalls() -> (m: Material)
        ensures
            m == backwalls_spec(),
            m.wf(),
    {
        Material {
            color: Vector3 { x: 200_000, y: 500_000, z: 200_000 },
            refl: 50_000,
            diff: 950_000,
            specular: 300_000,
            shininess: 1,
            transparency: 0,
            refraction: AIR_REFRACTION,
            base_illumination: 50_000,
        }
    }

    /// Matte red wall.
    pub fn leftwall() -> (m: Material)
        ensures
            m == leftwall_spec(),
            m.wf(),
    {
        Material {
            color: Vector3 { x: 1_000_000, y: 200_000, z: 200_000 },
            refl: 100_000,
            diff: 900_000,
            specular: 300_000,
            shininess: 1,
            transparency: 0,
            refraction: AIR_REFRACTION,
            base_illumination: 50_000,
        }
    }

    /// Matte blue wall.
    pub fn rightwall() -> (m: Material)
        ensures
            m == rightwall_spec(),
            m.wf(),
    {
        Material {
            color: Vector3 { x: 200_000, y: 200_000, z: 1_000_000 },
            refl: 100_000,
            diff: 900_000,
            specular: 300_000,
            shininess: 1,
            transparency: 0,
            refraction: AIR_REFRACTION,
            base_illumination: 50_000,
        }
    }

    /// Matte yellow block.
    pub fn cube_material() -> (m: Material)
        ensures
            m == cube_material_spec(),
            m.wf(),
    {
        Material {
            color: Vector3 { x: 1_000_000, y: 1_000_000, z: 200_000 },
            refl: 0,
            diff: 1_000_000,
            specular: 300_000,
            shininess: 1,
            transparency: 0,
            refraction: AIR_REFRACTION,
            base_illumination: 50_000,
        }
    }

    /// Partly mirroring gray block.
    pub fn cube_metalic() -> (m: Material)
        ensures
            m == cube_metalic_spec(),
            m.wf(),
    {
        Material {
            color: Vector3 { x: 900_000, y: 900_000, z: 900_000 },
            refl: 400_000,
            diff: 600_000,
            specular: 300_000,
            shininess: 1,
            transparency: 0,
            refraction: AIR_REFRACTION,
            base_illumination: 50_000,
        }
    }

    /// Glass-like, almost fully transparent material.
    pub fn cube_transparent() -> (m: Material)
        ensures
            m == cube_transparent_spec(),
            m.wf(),
    {
        Material {
            color: Vector3 { x: 900_000, y: 900_000, z: 900_000 },
            refl: 50_000,
            diff: 100_000,
            specular: 50_000,
            shininess: 1,
            transparency: 990_000,
            refraction: GLASS_REFRACTION,
            base_illumination: 10_000,
        }
    }

    /// Almost perfect mirror.
    pub fn mirror_material() -> (m: Material)
        ensures
            m == mirror_material_spec(),
            m.wf(),
    {
        Material {
            color: Vector3 { x: 1_000_000, y: 1_000_000, z: 1_000_000 },
            refl: 990_000,
            diff: 10_000,
            specular: 10_000,
            shininess: 1,
            transparency: 0,
            refraction: AIR_REFRACTION,
            base_illumination: 10_000,
        }
    }
}

} // verus!
