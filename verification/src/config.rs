//! What a renderer is configured to, and the calls that bring it from one
//! configuration to the next.
//!
//! A worker remembers what it last told its renderer. For each request it
//! issues only the calls whose subject changed, in a fixed order: style,
//! then size, then camera. What the renderer cannot take, a size outside
//! its limits or a style whose name holds a NUL byte, is passed over: the
//! renderer keeps what it has and the rest of the request is served.

use vstd::prelude::*;
use crate::geometry::resolve_zoom;
use crate::geometry::zoom_or_default;
use crate::geometry::JumpToOptions;
use crate::geometry::LatLng;
use crate::geometry::Size;
use crate::request::Request;
use crate::request::RequestView;
use vstd::utf8::encode_utf8;

verus! {

/// A renderer's configuration.
pub struct Config {
    pub style: Seq<char>,
    pub size: Size,
    pub center: LatLng,
    pub zoom: u64,
}

/// One configuration call, as contracts see it.
pub enum Call {
    LoadStyle(Seq<char>),
    SetSize(Size),
    JumpTo(JumpToOptions),
}

/// One configuration call on the renderer.
#[derive(Clone, Debug)]
pub enum ConfigCall {
    /// Load the style with this identifier.
    LoadStyle(String),
    /// Resize the image.
    SetSize(Size),
    /// Move the camera.
    JumpTo(JumpToOptions),
}

impl View for ConfigCall {
    type V = Call;

    open spec fn view(&self) -> Call {
        match *self {
            ConfigCall::LoadStyle(style) => Call::LoadStyle(style@),
            ConfigCall::SetSize(size) => Call::SetSize(size),
            ConfigCall::JumpTo(jump) => Call::JumpTo(jump),
        }
    }
}

/// The calls of a list, each as contracts see it.
pub open spec fn calls_view(calls: Seq<ConfigCall>) -> Seq<Call> {
    calls.map_values(|call: ConfigCall| call@)
}

/// The configuration after one call.
pub open spec fn apply(config: Config, call: Call) -> Config {
    match call {
        Call::LoadStyle(style) => Config { style, ..config },
        Call::SetSize(size) => Config { size, ..config },
        Call::JumpTo(jump) => Config {
            center: jump.center,
            zoom: zoom_or_default(jump.zoom),
            ..config
        },
    }
}

/// The configuration after a list of calls, made first to last.
pub open spec fn apply_all(config: Config, calls: Seq<Call>) -> Config
    decreases calls.len(),
{
    if calls.len() == 0 {
        config
    } else {
        apply(apply_all(config, calls.drop_last()), calls.last())
    }
}

/// Whether a style's name can be handed to the renderer, which takes it as
/// a string that ends at the first NUL byte: its UTF-8 form holds no such byte.
pub open spec fn passable(style: Seq<char>) -> bool {
    forall|i: int| 0 <= i < encode_utf8(style).len() ==> encode_utf8(style)[i] != 0
}

/// Whether a style's name can be handed to the renderer.
pub fn is_passable(style: &str) -> (ok: bool)
    ensures
        ok == passable(style@),
{
    let bytes = style.as_bytes();
    let mut at: usize = 0;
    while at < bytes.len()
        invariant
            at <= bytes@.len(),
            bytes@ == encode_utf8(style@),
            forall|i: int| 0 <= i < at ==> bytes@[i] != 0,
        decreases bytes@.len() - at,
    {
        if bytes[at] == 0 {
            return false;
        }
        at = at + 1;
    }
    true
}

/// The calls with which a worker starts: load the style, place the camera.
pub open spec fn startup(initial: Config) -> Seq<Call> {
    seq![
        Call::LoadStyle(initial.style),
        Call::JumpTo(JumpToOptions { center: initial.center, zoom: Some(initial.zoom) }),
    ]
}

/// The style call that a request needs: none if it names no style or the
/// loaded one, and none if the renderer cannot be handed the name.
pub open spec fn style_calls(current: Config, request: RequestView) -> Seq<Call> {
    match request.style {
        Some(style) if style != current.style && passable(style) => seq![Call::LoadStyle(style)],
        _ => seq![],
    }
}

/// The size call that a request needs: none if the size is the current one,
/// and none if the renderer cannot produce it.
pub open spec fn size_calls(current: Config, request: RequestView) -> Seq<Call> {
    if request.size != current.size && request.size.valid() {
        seq![Call::SetSize(request.size)]
    } else {
        seq![]
    }
}

/// The camera call that a request needs: none if the camera is already there.
pub open spec fn camera_calls(current: Config, request: RequestView) -> Seq<Call> {
    if request.center != current.center || zoom_or_default(request.zoom) != current.zoom {
        seq![Call::JumpTo(JumpToOptions { center: request.center, zoom: request.zoom })]
    } else {
        seq![]
    }
}

/// The calls that a request needs on a renderer in configuration `current`.
pub open spec fn delta(current: Config, request: RequestView) -> Seq<Call> {
    style_calls(current, request) + size_calls(current, request) + camera_calls(current, request)
}

/// The configuration that a request is rendered in.
pub open spec fn target(current: Config, request: RequestView) -> Config {
    Config {
        style: match request.style {
            Some(style) if passable(style) => style,
            _ => current.style,
        },
        size: if request.size.valid() {
            request.size
        } else {
            current.size
        },
        center: request.center,
        zoom: zoom_or_default(request.zoom),
    }
}

/// What a worker remembers of its renderer's configuration.
#[derive(Clone, Debug)]
pub struct WorkerState {
    style: String,
    size: Size,
    zoom: u64,
    center: LatLng,
}

impl View for WorkerState {
    type V = Config;

    closed spec fn view(&self) -> Config {
        Config { style: self.style@, size: self.size, center: self.center, zoom: self.zoom }
    }
}

impl WorkerState {
    /// A memo of the given configuration.
    pub fn new(style: String, size: Size, center: LatLng, zoom: u64) -> (state: WorkerState)
        ensures
            state@ == (Config { style: style@, size, center, zoom }),
    {
        WorkerState { style, size, zoom, center }
    }

    /// The calls that bring a renderer, newly created at this memo's size,
    /// to the configuration that the memo holds: its style, then its camera.
    pub fn startup_calls(&self) -> (calls: Vec<ConfigCall>)
        ensures
            calls_view(calls@) == startup(self@),
    {
        let mut calls: Vec<ConfigCall> = Vec::new();
        calls.push(ConfigCall::LoadStyle(self.style.clone()));
        calls.push(
            ConfigCall::JumpTo(JumpToOptions { center: self.center, zoom: Some(self.zoom) }),
        );
        assert(calls_view(calls@) =~= startup(self@));
        calls
    }

    /// The style that the renderer has loaded.
    pub fn style(&self) -> (style: &String)
        ensures
            style@ == self@.style,
    {
        &self.style
    }

    /// The size that the renderer produces.
    pub fn size(&self) -> (size: Size)
        ensures
            size == self@.size,
    {
        self.size
    }

    /// The point that the camera looks at.
    pub fn center(&self) -> (center: LatLng)
        ensures
            center == self@.center,
    {
        self.center
    }

    /// The camera's zoom level, as the bits of a double.
    pub fn zoom(&self) -> (zoom: u64)
        ensures
            zoom == self@.zoom,
    {
        self.zoom
    }

    /// Works out the calls that `request` needs and records them as made.
    pub fn plan(&mut self, request: Request) -> (calls: Vec<ConfigCall>)
        ensures
            calls_view(calls@) == delta(old(self)@, request@),
            final(self)@ == target(old(self)@, request@),
    {
        let mut calls: Vec<ConfigCall> = Vec::new();
        if let Some(style) = request.style {
            if !(self.style == style) && is_passable(style.as_str()) {
                calls.push(ConfigCall::LoadStyle(style.clone()));
                self.style = style;
            }
        }
        if self.size != request.size && request.size.is_valid() {
            calls.push(ConfigCall::SetSize(request.size));
            self.size = request.size;
        }
        let zoom = resolve_zoom(request.zoom);
        if self.center != request.center || self.zoom != zoom {
            calls.push(
                ConfigCall::JumpTo(JumpToOptions { center: request.center, zoom: request.zoom }),
            );
            self.center = request.center;
            self.zoom = zoom;
        }
        assert(calls_view(calls@) =~= delta(old(self)@, request@));
        calls
    }
}

/// The request asks for nothing that the configuration does not already have.
pub open spec fn settled(current: Config, request: RequestView) -> bool {
    &&& request.style is None || request.style == Some(current.style)
    &&& request.size == current.size
    &&& request.center == current.center
    &&& zoom_or_default(request.zoom) == current.zoom
}

/// The place of a call in the order in which calls are made.
pub open spec fn rank(call: Call) -> int {
    match call {
        Call::LoadStyle(_) => 0,
        Call::SetSize(_) => 1,
        Call::JumpTo(_) => 2,
    }
}

/// Making the calls that a request needs brings the renderer to the
/// configuration that the worker then remembers.
pub proof fn lemma_delta_reaches_target(current: Config, request: RequestView)
    ensures
        apply_all(current, delta(current, request)) == target(current, request),
{
    let style = style_calls(current, request);
    let size = size_calls(current, request);
    let camera = camera_calls(current, request);
    lemma_apply_all_concat(current, style, size);
    lemma_apply_all_concat(current, style + size, camera);
    lemma_apply_all_short(current, style);
    lemma_apply_all_short(apply_all(current, style), size);
    lemma_apply_all_short(apply_all(current, style + size), camera);
}

/// A request that matches the current configuration in style, size and
/// camera needs no configuration call and leaves the memo as it is.
pub proof fn lemma_settled_request_needs_no_call(current: Config, request: RequestView)
    requires
        settled(current, request),
    ensures
        delta(current, request) == Seq::<Call>::empty(),
        target(current, request) == current,
{
    assert(delta(current, request) =~= Seq::<Call>::empty());
}

/// Once a request has been served, the same request needs no further call.
pub proof fn lemma_repeated_request_needs_no_call(current: Config, request: RequestView)
    ensures
        delta(target(current, request), request) == Seq::<Call>::empty(),
        target(target(current, request), request) == target(current, request),
{
    assert(delta(target(current, request), request) =~= Seq::<Call>::empty());
}

/// A size outside the renderer's limits is never applied: every size call
/// carries a valid size, and a request with an invalid size leaves the
/// remembered size alone while its style and camera are still served.
pub proof fn lemma_invalid_size_is_not_applied(current: Config, request: RequestView)
    ensures
        forall|i: int|
            0 <= i < delta(current, request).len() ==> (#[trigger] delta(current, request)[i]
                matches Call::SetSize(size) ==> size.valid() && size == request.size),
        !request.size.valid() ==> target(current, request).size == current.size,
        !request.size.valid() ==> size_calls(current, request) == Seq::<Call>::empty(),
{
}

/// A style that the renderer cannot be handed is never applied: every
/// style call carries a name without a NUL byte, and a request with any
/// other name leaves the remembered style alone while its size and camera
/// are still served.
pub proof fn lemma_unpassable_style_is_not_applied(current: Config, request: RequestView)
    ensures
        forall|i: int|
            0 <= i < delta(current, request).len() ==> (#[trigger] delta(current, request)[i]
                matches Call::LoadStyle(style) ==> passable(style) && request.style == Some(
                style,
            )),
        request.style matches Some(style) && !passable(style) ==> {
            &&& target(current, request).style == current.style
            &&& style_calls(current, request) == Seq::<Call>::empty()
        },
{
}

/// Calls are made in the order style, size, camera, and at most one of each.
pub proof fn lemma_calls_are_ordered(current: Config, request: RequestView)
    ensures
        delta(current, request).len() <= 3,
        forall|i: int, j: int|
            0 <= i < j < delta(current, request).len() ==> rank(
                #[trigger] delta(current, request)[i],
            ) < rank(#[trigger] delta(current, request)[j]),
{
}

/// No call is made in vain: each call of a delta changes the configuration
/// that the request found.
pub proof fn lemma_every_call_changes_something(current: Config, request: RequestView)
    ensures
        forall|i: int|
            0 <= i < delta(current, request).len() ==> apply(
                current,
                #[trigger] delta(current, request)[i],
            ) != current,
{
}

/// After the startup calls a renderer that was created at the memo's size
/// is configured as the memo says, whatever style and camera it began with.
pub proof fn lemma_startup_reaches_memo(created: Config, initial: Config)
    requires
        created.size == initial.size,
    ensures
        apply_all(created, startup(initial)) == initial,
{
    let calls = startup(initial);
    assert(calls.drop_last() =~= seq![Call::LoadStyle(initial.style)]);
    assert(calls.drop_last().drop_last() =~= Seq::<Call>::empty());
    reveal_with_fuel(apply_all, 3);
}

/// Calls made one list after the other act as the two lists joined.
pub proof fn lemma_apply_all_concat(config: Config, first: Seq<Call>, second: Seq<Call>)
    ensures
        apply_all(config, first + second) == apply_all(apply_all(config, first), second),
    decreases second.len(),
{
    if second.len() == 0 {
        assert(first + second =~= first);
    } else {
        lemma_apply_all_concat(config, first, second.drop_last());
        assert((first + second).drop_last() =~= first + second.drop_last());
        assert((first + second).last() == second.last());
    }
}

/// What a list of at most one call does.
proof fn lemma_apply_all_short(config: Config, calls: Seq<Call>)
    requires
        calls.len() <= 1,
    ensures
        calls.len() == 0 ==> apply_all(config, calls) == config,
        calls.len() == 1 ==> apply_all(config, calls) == apply(config, calls[0]),
{
    if calls.len() == 1 {
        assert(calls.drop_last().len() == 0);
        reveal_with_fuel(apply_all, 2);
    }
}

} // verus!
