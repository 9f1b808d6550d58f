//! What a pool and a connection manager are set up with.

use vstd::prelude::*;
use crate::config::Config;
use crate::config::WorkerState;
use crate::geometry::resolve_zoom;
use crate::geometry::zoom_or_default;
use crate::geometry::LatLng;
use crate::geometry::MapOptions;
use crate::geometry::PixelRatio;
use crate::geometry::Size;
use crate::geometry::DEFAULT_RENDER_RETRIES;
use crate::request::text;
use crate::request::DEFAULT_STYLE;

verus! {

/// Number of times a connection's worker tries a failed render again.
pub const CONNECTION_RENDER_RETRIES: i32 = 10;

/// The characters of an optional string slice.
pub open spec fn slice_text(s: Option<&str>) -> Option<Seq<char>> {
    match s {
        Some(s) => Some(s@),
        None => None,
    }
}

/// The configuration that a worker starts from: the named style or the
/// default one, the named size, the camera at the origin at the named zoom
/// or the default one.
pub open spec fn initial_config(size: Size, style: Option<Seq<char>>, zoom: Option<u64>) -> Config {
    Config {
        style: match style {
            Some(style) => style,
            None => DEFAULT_STYLE@,
        },
        size,
        center: LatLng(0, 0),
        zoom: zoom_or_default(zoom),
    }
}

/// Borrows an optional string as an optional slice.
fn as_slice(s: &Option<String>) -> (slice: Option<&str>)
    ensures
        slice_text(slice) == text(*s),
{
    match s {
        Some(s) => Some(s.as_str()),
        None => None,
    }
}

/// The memo of a worker that has just been created.
fn initial_state(size: Size, style: &Option<String>, zoom: Option<u64>) -> (state: WorkerState)
    ensures
        state@ == initial_config(size, text(*style), zoom),
{
    let style = match style {
        Some(style) => style.clone(),
        None => DEFAULT_STYLE.to_owned(),
    };
    WorkerState::new(style, size, LatLng(0, 0), resolve_zoom(zoom))
}

/// Options of a pool of workers.
#[derive(Clone, Debug)]
pub struct MapPoolOptions {
    /// Number of workers; a pool needs at least one.
    pub workers: i32,
    /// Size that every worker starts with.
    pub size: Size,
    pub pixel_ratio: PixelRatio,
    pub access_token: Option<String>,
    /// Where the renderer keeps its cache on disk.
    pub cache_path: Option<String>,
    /// Where the renderer finds local assets.
    pub assets_path: Option<String>,
    /// Style that every worker loads at start.
    pub style: Option<String>,
    /// Zoom that every worker starts at, as the bits of a double.
    pub zoom: Option<u64>,
}

impl Default for MapPoolOptions {
    fn default() -> (options: MapPoolOptions)
        ensures
            options.workers == 1,
            options.size == Size(512, 512),
            options.pixel_ratio == PixelRatio::Normal,
            options.access_token is None,
            options.cache_path is None,
            options.assets_path is None,
            options.style is None,
            options.zoom is None,
    {
        MapPoolOptions {
            workers: 1,
            size: Size(512, 512),
            pixel_ratio: PixelRatio::Normal,
            access_token: None,
            cache_path: None,
            assets_path: None,
            style: None,
            zoom: None,
        }
    }
}

impl MapPoolOptions {
    /// Number of workers that a pool with these options runs, if it can run at all.
    pub fn worker_count(&self) -> (count: Option<usize>)
        ensures
            self.workers >= 1 ==> count == Some(self.workers as usize),
            self.workers < 1 ==> count is None,
    {
        if self.workers >= 1 {
            Some(self.workers as usize)
        } else {
            None
        }
    }

    /// What each worker's renderer is created with.
    pub fn map_options(&self) -> (options: MapOptions<'_>)
        ensures
            options.size == self.size,
            options.pixel_ratio == self.pixel_ratio,
            slice_text(options.access_token) == text(self.access_token),
            slice_text(options.cache_path) == text(self.cache_path),
            slice_text(options.assets_path) == text(self.assets_path),
            options.render_retries == DEFAULT_RENDER_RETRIES,
    {
        MapOptions {
            size: self.size,
            pixel_ratio: self.pixel_ratio,
            access_token: as_slice(&self.access_token),
            cache_path: as_slice(&self.cache_path),
            assets_path: as_slice(&self.assets_path),
            render_retries: DEFAULT_RENDER_RETRIES,
        }
    }

    /// What each worker remembers of its renderer right after creating it.
    pub fn initial_state(&self) -> (state: WorkerState)
        ensures
            state@ == initial_config(self.size, text(self.style), self.zoom),
    {
        initial_state(self.size, &self.style, self.zoom)
    }
}

/// Options of a connection manager: those of one worker.
#[derive(Clone, Debug)]
pub struct MapboxManagerOptions {
    pub size: Size,
    pub pixel_ratio: PixelRatio,
    pub access_token: Option<String>,
    pub cache_path: Option<String>,
    pub assets_path: Option<String>,
    pub style: Option<String>,
    /// Zoom that the worker starts at, as the bits of a double.
    pub zoom: Option<u64>,
}

impl Default for MapboxManagerOptions {
    fn default() -> (options: MapboxManagerOptions)
        ensures
            options.size == Size(0, 0),
            options.pixel_ratio == PixelRatio::Normal,
            options.access_token is None,
            options.cache_path is None,
            options.assets_path is None,
            options.style is None,
            options.zoom is None,
    {
        MapboxManagerOptions {
            size: Size(0, 0),
            pixel_ratio: PixelRatio::Normal,
            access_token: None,
            cache_path: None,
            assets_path: None,
            style: None,
            zoom: None,
        }
    }
}

impl MapboxManagerOptions {
    /// What the connection's renderer is created with.
    pub fn map_options(&self) -> (options: MapOptions<'_>)
        ensures
            options.size == self.size,
            options.pixel_ratio == self.pixel_ratio,
            slice_text(options.access_token) == text(self.access_token),
            slice_text(options.cache_path) == text(self.cache_path),
            slice_text(options.assets_path) == text(self.assets_path),
            options.render_retries == CONNECTION_RENDER_RETRIES,
    {
        MapOptions {
            size: self.size,
            pixel_ratio: self.pixel_ratio,
            access_token: as_slice(&self.access_token),
            cache_path: as_slice(&self.cache_path),
            assets_path: as_slice(&self.assets_path),
            render_retries: CONNECTION_RENDER_RETRIES,
        }
    }

    /// What the connection's worker remembers of its renderer right after creating it.
    pub fn initial_state(&self) -> (state: WorkerState)
        ensures
            state@ == initial_config(self.size, text(self.style), self.zoom),
    {
        initial_state(self.size, &self.style, self.zoom)
    }
}

} // verus!
