//! The shared scene: background colour, camera, sun light and ground plane.
//!
//! Lengths are in thousandths of a world unit, angles in thousandths of a
//! radian and colour channels in thousandths of full intensity.
use vstd::prelude::*;

verus! {

/// A point or a direction, each coordinate in thousandths of a world unit.
#[derive(Clone, Copy, Debug, PartialEq, Eq, Structural)]
pub struct Milli3 {
    pub x: i32,
    pub y: i32,
    pub z: i32,
}

/// An sRGB colour, each channel in thousandths of full intensity.
#[derive(Clone, Copy, Debug, PartialEq, Eq, Structural)]
pub struct Srgb {
    pub r: u16,
    pub g: u16,
    pub b: u16,
}

/// A camera placed at `eye`, looking at `target`, with `up` pointing up.
#[derive(Clone, Copy, Debug, PartialEq, Eq, Structural)]
pub struct CameraRig {
    pub eye: Milli3,
    pub target: Milli3,
    pub up: Milli3,
}

/// A rotation as Euler angles applied about Z, then Y, then X, in milliradians.
#[derive(Clone, Copy, Debug, PartialEq, Eq, Structural)]
pub struct EulerZyx {
    pub about_z: i32,
    pub about_y: i32,
    pub about_x: i32,
}

/// A directional light.
#[derive(Clone, Copy, Debug, PartialEq, Eq, Structural)]
pub struct SunLight {
    /// Illuminance in lux.
    pub illuminance_lux: u32,
    /// Whether the light casts shadows.
    pub shadows: bool,
    /// Orientation of the light.
    pub rotation: EulerZyx,
}

/// A flat plane through the origin, facing up.
#[derive(Clone, Copy, Debug, PartialEq, Eq, Structural)]
pub struct GroundPlane {
    /// Extent along X, in thousandths of a world unit.
    pub width: u32,
    /// Extent along Z, in thousandths of a world unit.
    pub depth: u32,
    pub color: Srgb,
}

/// What the shared plugin puts into every demo scene.
#[derive(Clone, Copy, Debug, PartialEq, Eq, Structural)]
pub struct BaseScene {
    pub sun: SunLight,
    pub ground: GroundPlane,
}

impl Srgb {
    /// Every channel lies between zero and full intensity.
    pub open spec fn in_gamut(self) -> bool {
        self.r <= 1000 && self.g <= 1000 && self.b <= 1000
    }
}

/// Component-wise difference `a - b`.
pub open spec fn sub3(a: Milli3, b: Milli3) -> (int, int, int) {
    (a.x - b.x, a.y - b.y, a.z - b.z)
}

/// Cross product of two integer vectors.
pub open spec fn cross(a: (int, int, int), b: (int, int, int)) -> (int, int, int) {
    (a.1 * b.2 - a.2 * b.1, a.2 * b.0 - a.0 * b.2, a.0 * b.1 - a.1 * b.0)
}

impl CameraRig {
    /// The view direction is defined (the eye is not at the target) and is
    /// not parallel to `up`, so the camera's orientation is determined.
    pub open spec fn well_posed(self) -> bool {
        let dir = sub3(self.target, self.eye);
        &&& dir != (0int, 0int, 0int)
        &&& cross(dir, (self.up.x as int, self.up.y as int, self.up.z as int)) != (0int, 0int, 0int)
    }
}

/// Red channel of the background colour #1A1A2E, in thousandths.
pub const BACKGROUND_R: u16 = 102;

/// Green channel of the background colour #1A1A2E, in thousandths.
pub const BACKGROUND_G: u16 = 102;

/// Blue channel of the background colour #1A1A2E, in thousandths.
pub const BACKGROUND_B: u16 = 180;

/// The clear colour of every demo, #1A1A2E.
pub open spec fn background() -> Srgb {
    Srgb { r: 102, g: 102, b: 180 }
}

/// The default camera: at (4, 4, 8), looking at the origin, Y up.
pub open spec fn default_rig() -> CameraRig {
    CameraRig {
        eye: Milli3 { x: 4000, y: 4000, z: 8000 },
        target: Milli3 { x: 0, y: 0, z: 0 },
        up: Milli3 { x: 0, y: 1000, z: 0 },
    }
}

/// The light and floor that the shared plugin spawns.
pub open spec fn base() -> BaseScene {
    BaseScene {
        sun: SunLight {
            illuminance_lux: 8000,
            shadows: true,
            rotation: EulerZyx { about_z: 0, about_y: 1000, about_x: -500i32 },
        },
        ground: GroundPlane {
            width: 20000,
            depth: 20000,
            color: Srgb { r: 150, g: 150, b: 220 },
        },
    }
}

/// The background colour of every demo.
pub fn background_color() -> (c: Srgb)
    ensures
        c == background(),
        c.in_gamut(),
{
    Srgb { r: BACKGROUND_R, g: BACKGROUND_G, b: BACKGROUND_B }
}

/// The camera that the demos without their own camera use.
pub fn default_camera_rig() -> (rig: CameraRig)
    ensures
        rig == default_rig(),
        rig.well_posed(),
{
    CameraRig {
        eye: Milli3 { x: 4000, y: 4000, z: 8000 },
        target: Milli3 { x: 0, y: 0, z: 0 },
        up: Milli3 { x: 0, y: 1000, z: 0 },
    }
}

/// The light and floor of the shared plugin.
pub fn base_scene() -> (s: BaseScene)
    ensures
        s == base(),
        s.ground.color.in_gamut(),
        s.ground.width == s.ground.depth,
{
    BaseScene {
        sun: SunLight {
            illuminance_lux: 8000,
            shadows: true,
            rotation: EulerZyx { about_z: 0, about_y: 1000, about_x: -500 },
        },
        ground: GroundPlane {
            width: 20000,
            depth: 20000,
            color: Srgb { r: 150, g: 150, b: 220 },
        },
    }
}

} // verus!
