//! Value descriptors: what one render request asks a backend to draw.
use vstd::prelude::*;

verus! {

/// A pixel size. A valid size has both sides non-zero.
#[derive(Clone, Copy, Debug, PartialEq, Eq, Structural)]
pub struct Size {
    pub width: u32,
    pub height: u32,
}

impl Size {
    pub open spec fn wf(self) -> bool {
        self.width > 0 && self.height > 0
    }

    /// A size of `width` by `height` pixels, or `None` when a side is zero.
    pub fn new(width: u32, height: u32) -> (r: Option<Size>)
        ensures
            r == (if width > 0 && height > 0 {
                Some(Size { width, height })
            } else {
                None::<Size>
            }),
    {
        if width > 0 && height > 0 {
            Some(Size { width, height })
        } else {
            None
        }
    }
}

/// A colour with opacity, one byte per channel (255 is full intensity).
#[derive(Clone, Copy, Debug, PartialEq, Eq, Structural)]
pub struct Rgba {
    pub r: u8,
    pub g: u8,
    pub b: u8,
    pub a: u8,
}

/// An opaque colour, one byte per channel (255 is full intensity).
#[derive(Clone, Copy, Debug, PartialEq, Eq, Structural)]
pub struct Rgb {
    pub r: u8,
    pub g: u8,
    pub b: u8,
}

impl Rgba {
    /// Black with zero opacity: the background of a sprite.
    pub fn transparent() -> (r: Rgba)
        ensures
            r == (Rgba { r: 0, g: 0, b: 0, a: 0 }),
    {
        Rgba { r: 0, g: 0, b: 0, a: 0 }
    }

    /// Opaque black.
    pub fn black() -> (r: Rgba)
        ensures
            r == (Rgba { r: 0, g: 0, b: 0, a: 255 }),
    {
        Rgba { r: 0, g: 0, b: 0, a: 255 }
    }
}

impl Rgb {
    /// White at 40% intensity (102 of 255): the ambient light of a sprite.
    pub fn dim_white() -> (r: Rgb)
        ensures
            r == (Rgb { r: 102, g: 102, b: 102 }),
    {
        Rgb { r: 102, g: 102, b: 102 }
    }
}

/// An exact fraction `num / den` of an animation clip's duration.
/// A valid weight lies in [0, 1]: `den > 0` and `num <= den`.
#[derive(Clone, Copy, Debug, PartialEq, Eq, Structural)]
pub struct Weight {
    pub num: u32,
    pub den: u32,
}

impl Weight {
    pub open spec fn wf(self) -> bool {
        self.den > 0 && self.num <= self.den
    }

    /// `self < other` as fractions.
    pub open spec fn lt(self, other: Weight) -> bool {
        self.num * other.den < other.num * self.den
    }

    /// The fraction is exactly zero.
    pub open spec fn is_zero(self) -> bool {
        self.num == 0
    }

    /// The fraction is exactly one.
    pub open spec fn is_one(self) -> bool {
        self.num == self.den
    }

    /// The weight `num / den`; out-of-range fractions are rejected, not clamped.
    pub fn new(num: u32, den: u32) -> (r: Option<Weight>)
        ensures
            r == (if den > 0 && num <= den {
                Some(Weight { num, den })
            } else {
                None::<Weight>
            }),
    {
        if den > 0 && num <= den {
            Some(Weight { num, den })
        } else {
            None
        }
    }
}

/// An opaque id for one loaded scene, issued by whatever caches scene files.
#[derive(Clone, Copy, Debug, PartialEq, Eq, Structural)]
pub struct SceneId {
    pub id: u64,
}

/// A camera, looked up by name in a scene.
#[derive(Debug)]
pub struct CameraQuery {
    pub name: String,
    pub scene: SceneId,
}

/// A light, looked up by name in a scene.
#[derive(Debug)]
pub struct LightQuery {
    pub name: String,
    pub scene: SceneId,
}

/// Which nodes of a scene take part in a render.
#[derive(Clone, Copy, Debug, PartialEq, Eq, Structural)]
pub enum GeometryFilter {
    /// Every renderable node of the scene's default scene.
    AllInDefaultScene,
}

/// An animation pose: `weight` of the clip's duration past `start_ms`.
#[derive(Clone, Copy, Debug, PartialEq, Eq, Structural)]
pub struct AnimationSample {
    pub start_ms: u32,
    pub weight: Weight,
}

/// How an outline is drawn round the rendered models; thickness 0 draws none.
#[derive(Clone, Copy, Debug, PartialEq, Eq, Structural)]
pub struct Outline {
    pub color: Rgba,
    pub thickness: u32,
}

/// One leaf of a job: a single render of one scene.
#[derive(Debug)]
pub struct RenderRequest {
    pub size: Size,
    pub background: Rgba,
    pub ambient_light: Rgb,
    pub camera: CameraQuery,
    pub lights: LightQuery,
    pub geometry: GeometryFilter,
    pub animation: AnimationSample,
    pub outline: Outline,
}

impl RenderRequest {
    /// Every field but the scene ids agrees: the two requests draw the same
    /// thing from whatever copy of the scene each refers to.
    pub open spec fn same_shape(self, other: RenderRequest) -> bool {
        &&& self.size == other.size
        &&& self.background == other.background
        &&& self.ambient_light == other.ambient_light
        &&& self.camera.name@ == other.camera.name@
        &&& self.lights.name@ == other.lights.name@
        &&& self.geometry == other.geometry
        &&& self.animation == other.animation
        &&& self.outline == other.outline
    }
}

} // verus!
