//! Plain values that describe a map view: sizes, coordinates, pixel density.
//!
//! Coordinates and zoom levels are carried as the bit patterns of IEEE 754
//! double-precision numbers (what `f64::to_bits` returns). The pool never
//! computes with them: it hands them through to the renderer and asks only
//! whether two of them are the same bits.

use vstd::prelude::*;

verus! {

/// Smallest width or height, in pixels, that the renderer accepts.
pub const MIN_DIMENSION: u32 = 64;

/// Largest width or height, in pixels, that the renderer accepts.
pub const MAX_DIMENSION: u32 = 2000;

/// Zoom level used where none is named: the bit pattern of `5.0`.
pub const DEFAULT_ZOOM: u64 = 0x4014_0000_0000_0000;

/// Number of times a failed render is tried again unless the options say otherwise.
pub const DEFAULT_RENDER_RETRIES: i32 = 5;

/// Width and height of an image, in pixels.
#[derive(Clone, Copy, PartialEq, Eq, Structural, Debug)]
pub struct Size(pub u32, pub u32);

impl Size {
    /// Both dimensions lie within the renderer's limits.
    pub open spec fn valid(self) -> bool {
        &&& MIN_DIMENSION <= self.0 <= MAX_DIMENSION
        &&& MIN_DIMENSION <= self.1 <= MAX_DIMENSION
    }

    /// Whether the renderer can produce an image of this size.
    pub fn is_valid(&self) -> (ok: bool)
        ensures
            ok == self.valid(),
    {
        self.0 >= MIN_DIMENSION && self.0 <= MAX_DIMENSION && self.1 >= MIN_DIMENSION && self.1
            <= MAX_DIMENSION
    }
}

impl Default for Size {
    fn default() -> (size: Size)
        ensures
            size == Size(0, 0),
    {
        Size(0, 0)
    }
}

/// A point on the map: latitude, then longitude, each as the bits of a double.
#[derive(Clone, Copy, PartialEq, Eq, Structural, Debug)]
pub struct LatLng(pub u64, pub u64);

impl Default for LatLng {
    fn default() -> (origin: LatLng)
        ensures
            origin == LatLng(0, 0),
    {
        LatLng(0, 0)
    }
}

/// Where the camera is moved to. Without a zoom the default level is used.
#[derive(Clone, Copy, PartialEq, Eq, Structural, Debug)]
pub struct JumpToOptions {
    pub center: LatLng,
    pub zoom: Option<u64>,
}

/// The zoom level that `zoom` stands for.
pub open spec fn zoom_or_default(zoom: Option<u64>) -> u64 {
    match zoom {
        Some(level) => level,
        None => DEFAULT_ZOOM,
    }
}

/// The zoom level that an optional zoom stands for.
pub fn resolve_zoom(zoom: Option<u64>) -> (level: u64)
    ensures
        level == zoom_or_default(zoom),
{
    match zoom {
        Some(level) => level,
        None => DEFAULT_ZOOM,
    }
}

impl JumpToOptions {
    /// The zoom level that the camera ends up at.
    pub fn resolved_zoom(&self) -> (level: u64)
        ensures
            level == zoom_or_default(self.zoom),
    {
        resolve_zoom(self.zoom)
    }
}

/// How many device pixels make up one logical pixel.
#[derive(Clone, Copy, PartialEq, Eq, Structural, Debug)]
pub enum PixelRatio {
    Normal,
    Retina,
}

impl PixelRatio {
    /// The ratio as a number.
    pub open spec fn factor(self) -> int {
        match self {
            PixelRatio::Normal => 1,
            PixelRatio::Retina => 2,
        }
    }

    /// The ratio as the integer that the renderer is created with.
    pub fn as_int(&self) -> (factor: i32)
        ensures
            factor == self.factor(),
    {
        match self {
            PixelRatio::Normal => 1,
            PixelRatio::Retina => 2,
        }
    }
}

impl Default for PixelRatio {
    fn default() -> (ratio: PixelRatio)
        ensures
            ratio == PixelRatio::Normal,
    {
        PixelRatio::Normal
    }
}

/// Which event loop a renderer runs on: one made for it, or the thread's own.
#[derive(Clone, Copy, PartialEq, Eq, Structural, Debug)]
pub enum RunLoopType {
    New,
    Default,
}

impl RunLoopType {
    /// The number by which the native side knows this kind of loop.
    pub fn code(&self) -> (code: u32)
        ensures
            code == (match *self {
                RunLoopType::New => 0u32,
                RunLoopType::Default => 1u32,
            }),
    {
        match self {
            RunLoopType::New => 0,
            RunLoopType::Default => 1,
        }
    }
}

/// What a renderer instance is created with.
#[derive(Clone, Copy, Debug)]
pub struct MapOptions<'a> {
    pub size: Size,
    pub pixel_ratio: PixelRatio,
    pub access_token: Option<&'a str>,
    pub cache_path: Option<&'a str>,
    pub assets_path: Option<&'a str>,
    pub render_retries: i32,
}

impl<'a> Default for MapOptions<'a> {
    fn default() -> (options: MapOptions<'a>)
        ensures
            options.size == Size(512, 512),
            options.pixel_ratio == PixelRatio::Normal,
            options.access_token is None,
            options.cache_path is None,
            options.assets_path is None,
            options.render_retries == DEFAULT_RENDER_RETRIES,
    {
        MapOptions {
            size: Size(512, 512),
            pixel_ratio: PixelRatio::Normal,
            access_token: None,
            cache_path: None,
            assets_path: None,
            render_retries: DEFAULT_RENDER_RETRIES,
        }
    }
}

} // verus!
