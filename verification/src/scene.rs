//! Domain model of the scene objects the inspector edits.
//!
//! Values the engine stores as floating point (field-of-view, clip planes,
//! exposure levels) are carried here as raw IEEE-754 bit patterns: the editor
//! core never computes with them, it only moves them between descriptor,
//! command and object, and bit patterns make "restored byte-for-byte"
//! provable. Texture resources are carried as shared references whose
//! asynchronous load has already been awaited: the load outcome is part of
//! the reference, and the dispatch bridge rejects edits whose resource did
//! not finish loading successfully.

use vstd::prelude::*;

verus! {

/// A 32-bit scalar carried as its raw IEEE-754 bit pattern; the core moves it
/// without interpreting it.
#[derive(Clone, Copy, Debug, PartialEq, Eq, Structural)]
pub struct ScalarBits {
    pub bits: u32,
}

/// An axis-aligned rectangle (viewport), each coordinate a raw scalar.
#[derive(Clone, Copy, Debug, PartialEq, Eq, Structural)]
pub struct RectValue {
    pub x: ScalarBits,
    pub y: ScalarBits,
    pub w: ScalarBits,
    pub h: ScalarBits,
}

/// Outcome of a texture's asynchronous load, as observed after awaiting it.
#[derive(Clone, Copy, Debug, PartialEq, Eq, Structural)]
pub enum TextureState {
    /// The load finished and the texture is usable.
    Loaded,
    /// The load finished with an error; the texture must not be referenced.
    Failed,
}

/// A shared reference to a texture resource. Two references with the same
/// `id` name the same underlying resource.
#[derive(Clone, Copy, Debug, PartialEq, Eq, Structural)]
pub struct Texture {
    pub id: u64,
    pub state: TextureState,
}

impl Texture {
    pub open spec fn is_loaded_spec(self) -> bool {
        self.state is Loaded
    }

    /// Synchronously awaits the resource's load and reports whether it
    /// succeeded; the wait is scoped to this one resource.
    pub fn block_on_load(&self) -> (r: bool)
        ensures
            r == self.is_loaded_spec(),
    {
        match self.state {
            TextureState::Loaded => true,
            TextureState::Failed => false,
        }
    }
}

/// A six-faced cube-map resource. Rebuilt wholesale on any face change: the
/// builder validates cross-face consistency, so no partial in-place mutation
/// is ever committed.
#[derive(Clone, Copy, Debug, PartialEq, Eq, Structural)]
pub struct SkyBox {
    pub front: Option<Texture>,
    pub back: Option<Texture>,
    pub left: Option<Texture>,
    pub right: Option<Texture>,
    pub top: Option<Texture>,
    pub bottom: Option<Texture>,
}

/// A color-grading look-up table built from a fully loaded texture.
#[derive(Clone, Copy, Debug, PartialEq, Eq, Structural)]
pub struct ColorGradingLut {
    pub texture: Texture,
}

impl ColorGradingLut {
    pub open spec fn new_spec(texture: Texture) -> Option<ColorGradingLut> {
        if texture.is_loaded_spec() {
            Some(ColorGradingLut { texture })
        } else {
            None
        }
    }

    /// Awaits the texture's load and bakes the table; a failed load is an
    /// explicit rejection, never a table over unvalidated data.
    pub fn new(texture: Texture) -> (r: Option<ColorGradingLut>)
        ensures
            r == ColorGradingLut::new_spec(texture),
    {
        if texture.block_on_load() {
            Some(ColorGradingLut { texture })
        } else {
            None
        }
    }
}

/// Camera exposure: either automatic (three tuning levels) or a manual value.
#[derive(Clone, Copy, Debug, PartialEq, Eq, Structural)]
pub enum Exposure {
    Auto { key_value: ScalarBits, min_luminance: ScalarBits, max_luminance: ScalarBits },
    Manual(ScalarBits),
}

/// Properties shared by every scene node variant.
#[derive(Clone, Copy, Debug, PartialEq, Eq, Structural)]
pub struct Base {
    pub visibility: bool,
    pub depth_offset: ScalarBits,
}

/// The camera variant's own state.
#[derive(Clone, Copy, Debug, PartialEq, Eq, Structural)]
pub struct Camera {
    pub base: Base,
    pub exposure: Exposure,
    pub z_near: ScalarBits,
    pub z_far: ScalarBits,
    pub fov: ScalarBits,
    pub viewport: RectValue,
    pub enabled: bool,
    pub sky_box: Option<SkyBox>,
    pub environment: Option<Texture>,
    pub color_grading_lut: Option<ColorGradingLut>,
    pub color_grading_enabled: bool,
}

/// The sprite variant's own state.
#[derive(Clone, Copy, Debug, PartialEq, Eq, Structural)]
pub struct Sprite {
    pub base: Base,
    pub size: ScalarBits,
}

/// A scene node: a closed set of tagged variants, each embedding the shared
/// base properties.
#[derive(Clone, Copy, Debug, PartialEq, Eq, Structural)]
pub enum Node {
    Camera(Camera),
    Sprite(Sprite),
}

impl Node {
    pub open spec fn base_spec(self) -> Base {
        match self {
            Node::Camera(camera) => camera.base,
            Node::Sprite(sprite) => sprite.base,
        }
    }

    /// The shared base properties, whatever the variant.
    pub fn base(&self) -> (r: Base)
        ensures
            r == self.base_spec(),
    {
        match self {
            Node::Camera(camera) => camera.base,
            Node::Sprite(sprite) => sprite.base,
        }
    }

    pub open spec fn with_base_spec(self, base: Base) -> Node {
        match self {
            Node::Camera(camera) => Node::Camera(Camera { base, ..camera }),
            Node::Sprite(sprite) => Node::Sprite(Sprite { base, ..sprite }),
        }
    }

    /// The same node with its base properties replaced.
    pub fn with_base(&self, base: Base) -> (r: Node)
        ensures
            r == self.with_base_spec(base),
    {
        match self {
            Node::Camera(camera) => Node::Camera(Camera { base, ..*camera }),
            Node::Sprite(sprite) => Node::Sprite(Sprite { base, ..*sprite }),
        }
    }
}

} // verus!
