//! One render request, as a caller states it.

use vstd::prelude::*;
use crate::geometry::resolve_zoom;
use crate::geometry::zoom_or_default;
use crate::geometry::LatLng;
use crate::geometry::Size;

verus! {

/// The style that is rendered where none is named.
pub const DEFAULT_STYLE: &'static str = "mapbox://styles/mapbox/streets-v11";

/// What one caller wants rendered. A request is a value: it is built once,
/// travels to a worker and is consumed there.
#[derive(Clone, Debug)]
pub struct Request {
    /// Size of the image in pixels.
    pub size: Size,
    /// The point at the middle of the image.
    pub center: LatLng,
    /// Zoom level as the bits of a double; `None` asks for the default level.
    pub zoom: Option<u64>,
    /// Style to render with; `None` keeps whatever style the worker has loaded.
    pub style: Option<String>,
}

/// A request as contracts see it: the style as a sequence of characters.
pub struct RequestView {
    pub size: Size,
    pub center: LatLng,
    pub zoom: Option<u64>,
    pub style: Option<Seq<char>>,
}

/// The characters of an optional string.
pub open spec fn text(s: Option<String>) -> Option<Seq<char>> {
    match s {
        Some(s) => Some(s@),
        None => None,
    }
}

impl View for Request {
    type V = RequestView;

    open spec fn view(&self) -> RequestView {
        RequestView {
            size: self.size,
            center: self.center,
            zoom: self.zoom,
            style: text(self.style),
        }
    }
}

impl Request {
    /// A request in which every part that is not given takes its default:
    /// 512 by 512 pixels, the origin, the default zoom, the default style.
    pub fn with_defaults(
        size: Option<Size>,
        center: Option<LatLng>,
        zoom: Option<u64>,
        style: Option<String>,
    ) -> (request: Request)
        ensures
            request@ == (RequestView {
                size: match size {
                    Some(size) => size,
                    None => Size(512, 512),
                },
                center: match center {
                    Some(center) => center,
                    None => LatLng(0, 0),
                },
                zoom: Some(zoom_or_default(zoom)),
                style: Some(
                    match style {
                        Some(style) => style@,
                        None => DEFAULT_STYLE@,
                    },
                ),
            }),
    {
        Request {
            size: match size {
                Some(size) => size,
                None => Size(512, 512),
            },
            center: match center {
                Some(center) => center,
                None => LatLng(0, 0),
            },
            zoom: Some(resolve_zoom(zoom)),
            style: Some(
                match style {
                    Some(style) => style,
                    None => DEFAULT_STYLE.to_owned(),
                },
            ),
        }
    }
}

impl Default for Request {
    fn default() -> (request: Request)
        ensures
            request@ == (RequestView {
                size: Size(0, 0),
                center: LatLng(0, 0),
                zoom: None,
                style: None,
            }),
    {
        Request { size: Size(0, 0), center: LatLng(0, 0), zoom: None, style: None }
    }
}

} // verus!
