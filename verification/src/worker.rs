//! The life of one worker as a state machine.
//!
//! A worker owns one renderer on a thread of its own. The thread does the
//! waiting, the rendering and the sleeping; every decision between those
//! steps is taken here. The thread reports what happened as an [`Event`] and
//! is told what to do next by a [`Directive`].

use vstd::prelude::*;
use crate::config::calls_view;
use crate::config::delta;
use crate::config::is_passable;
use crate::config::passable;
use crate::config::startup;
use crate::config::target;
use crate::config::Call;
use crate::config::Config;
use crate::config::ConfigCall;
use crate::config::WorkerState;
use crate::error::Error;
use crate::request::Request;
use crate::request::RequestView;
use crate::retry::budget;
use crate::retry::judge;
use crate::retry::verdict;
use crate::retry::Verdict;

verus! {

/// Where a worker stands.
#[derive(Clone, Copy, PartialEq, Eq, Structural, Debug)]
pub enum Phase {
    /// Waiting for a call or for the stop signal.
    Idle,
    /// Rendering for a call; so many further attempts may follow a failure.
    Rendering { retries_left: i32 },
    /// A result is on its way to the caller.
    Replying,
    /// The stop signal was seen, or the queue is gone. Nothing follows.
    Stopped,
}

/// What the worker's thread reports.
#[derive(Debug)]
pub enum Event {
    /// The wait ended. `stop` says whether the stop signal was seen; `call`
    /// is the request taken from the queue, or `None` if the queue gave
    /// none because it is closed.
    Wake { stop: bool, call: Option<Request> },
    /// One attempt at rendering ended, with an image or without.
    Attempt { rendered: bool },
    /// The result was handed to the reply channel. `accepted` is false if
    /// the caller had stopped waiting.
    Delivered { accepted: bool },
}

/// An event as contracts see it.
pub enum EventView {
    Wake { stop: bool, call: Option<RequestView> },
    Attempt { rendered: bool },
    Delivered { accepted: bool },
}

impl View for Event {
    type V = EventView;

    open spec fn view(&self) -> EventView {
        match *self {
            Event::Wake { stop, call } => EventView::Wake {
                stop,
                call: match call {
                    Some(request) => Some(request@),
                    None => None,
                },
            },
            Event::Attempt { rendered } => EventView::Attempt { rendered },
            Event::Delivered { accepted } => EventView::Delivered { accepted },
        }
    }
}

/// What the worker's thread does next.
#[derive(Debug)]
pub enum Directive {
    /// Make these configuration calls in order, then render.
    Render(Vec<ConfigCall>),
    /// Sleep for this many milliseconds, then render again.
    Retry { backoff_ms: u64 },
    /// Send the caller the image if `rendered`, a failure if not.
    Reply { rendered: bool },
    /// Wait for the next call or the stop signal.
    Wait,
    /// Leave the loop and release the renderer. A call that came with the
    /// event is not served.
    Exit,
    /// The event does not belong to what the worker is doing: nothing has
    /// changed, a call that came with it is not served.
    Ignored,
}

/// A directive as contracts see it.
pub enum DirectiveView {
    Render(Seq<Call>),
    Retry { backoff_ms: u64 },
    Reply { rendered: bool },
    Wait,
    Exit,
    Ignored,
}

impl View for Directive {
    type V = DirectiveView;

    open spec fn view(&self) -> DirectiveView {
        match *self {
            Directive::Render(calls) => DirectiveView::Render(calls_view(calls@)),
            Directive::Retry { backoff_ms } => DirectiveView::Retry { backoff_ms },
            Directive::Reply { rendered } => DirectiveView::Reply { rendered },
            Directive::Wait => DirectiveView::Wait,
            Directive::Exit => DirectiveView::Exit,
            Directive::Ignored => DirectiveView::Ignored,
        }
    }
}

/// A worker as contracts see it.
pub struct WorkerModel {
    /// What the worker remembers of its renderer's configuration.
    pub config: Config,
    /// How often a failed render is tried again; below zero counts as zero.
    pub retries: i32,
    pub phase: Phase,
}

/// What a worker does on an event: its next state and its directive.
///
/// The stop signal wins over a call that is ready. A call is taken only by
/// an idle worker. A failed attempt is tried again while retries are left,
/// and reported as a failure after that; either way the worker goes on.
pub open spec fn next(worker: WorkerModel, event: EventView) -> (WorkerModel, DirectiveView) {
    match (worker.phase, event) {
        (Phase::Stopped, _) => (worker, DirectiveView::Exit),
        (_, EventView::Wake { stop: true, .. }) => (
            WorkerModel { phase: Phase::Stopped, ..worker },
            DirectiveView::Exit,
        ),
        (Phase::Idle, EventView::Wake { stop: false, call: None }) => (
            WorkerModel { phase: Phase::Stopped, ..worker },
            DirectiveView::Exit,
        ),
        (Phase::Idle, EventView::Wake { stop: false, call: Some(request) }) => (
            WorkerModel {
                config: target(worker.config, request),
                phase: Phase::Rendering { retries_left: budget(worker.retries) },
                ..worker
            },
            DirectiveView::Render(delta(worker.config, request)),
        ),
        (Phase::Rendering { retries_left }, EventView::Attempt { rendered }) => match verdict(
            retries_left,
            rendered,
        ) {
            Verdict::Rendered => (
                WorkerModel { phase: Phase::Replying, ..worker },
                DirectiveView::Reply { rendered: true },
            ),
            Verdict::Retry { retries_left, backoff_ms } => (
                WorkerModel { phase: Phase::Rendering { retries_left }, ..worker },
                DirectiveView::Retry { backoff_ms },
            ),
            Verdict::Failed => (
                WorkerModel { phase: Phase::Replying, ..worker },
                DirectiveView::Reply { rendered: false },
            ),
        },
        (Phase::Replying, EventView::Delivered { .. }) => (
            WorkerModel { phase: Phase::Idle, ..worker },
            DirectiveView::Wait,
        ),
        _ => (worker, DirectiveView::Ignored),
    }
}

/// One worker: what it remembers of its renderer, and where it stands.
#[derive(Debug)]
pub struct Worker {
    memo: WorkerState,
    retries: i32,
    phase: Phase,
}

impl View for Worker {
    type V = WorkerModel;

    closed spec fn view(&self) -> WorkerModel {
        WorkerModel { config: self.memo@, retries: self.retries, phase: self.phase }
    }
}

impl Worker {
    /// An idle worker whose renderer is configured as `memo` says.
    pub fn new(memo: WorkerState, retries: i32) -> (worker: Worker)
        ensures
            worker@ == (WorkerModel { config: memo@, retries, phase: Phase::Idle }),
    {
        Worker { memo, retries, phase: Phase::Idle }
    }

    /// Starts a worker once its thread has tried to create the renderer.
    ///
    /// If the renderer was created and can be handed the style that `memo`
    /// names, the worker is idle and the calls handed back bring the
    /// renderer to what `memo` says. If not, there is no worker: the
    /// failure concerns this worker alone.
    pub fn start(created: bool, memo: WorkerState, retries: i32) -> (started: Result<
        (Worker, Vec<ConfigCall>),
        Error,
    >)
        ensures
            started is Ok <==> created && passable(memo@.style),
            started is Err ==> started == Err::<(Worker, Vec<ConfigCall>), Error>(
                Error::Creation,
            ),
            started matches Ok((worker, calls)) ==> {
                &&& worker@ == (WorkerModel { config: memo@, retries, phase: Phase::Idle })
                &&& calls_view(calls@) == startup(memo@)
            },
    {
        if created && is_passable(memo.style().as_str()) {
            let calls = memo.startup_calls();
            Ok((Worker { memo, retries, phase: Phase::Idle }, calls))
        } else {
            Err(Error::Creation)
        }
    }

    /// Where the worker stands.
    pub fn phase(&self) -> (phase: Phase)
        ensures
            phase == self@.phase,
    {
        self.phase
    }

    /// What the worker remembers of its renderer's configuration.
    pub fn memo(&self) -> (memo: &WorkerState)
        ensures
            memo@ == self@.config,
    {
        &self.memo
    }

    /// Takes in one event and says what the thread does next.
    pub fn step(&mut self, event: Event) -> (directive: Directive)
        ensures
            (final(self)@, directive@) == next(old(self)@, event@),
    {
        match self.phase {
            Phase::Stopped => Directive::Exit,
            Phase::Idle => match event {
                Event::Wake { stop, call } => {
                    if stop {
                        self.phase = Phase::Stopped;
                        Directive::Exit
                    } else {
                        match call {
                            Some(request) => {
                                let calls = self.memo.plan(request);
                                self.phase = Phase::Rendering {
                                    retries_left: if self.retries > 0 {
                                        self.retries
                                    } else {
                                        0
                                    },
                                };
                                Directive::Render(calls)
                            },
                            None => {
                                self.phase = Phase::Stopped;
                                Directive::Exit
                            },
                        }
                    }
                },
                _ => Directive::Ignored,
            },
            Phase::Rendering { retries_left } => match event {
                Event::Wake { stop, .. } => {
                    if stop {
                        self.phase = Phase::Stopped;
                        Directive::Exit
                    } else {
                        Directive::Ignored
                    }
                },
                Event::Attempt { rendered } => match judge(retries_left, rendered) {
                    Verdict::Rendered => {
                        self.phase = Phase::Replying;
                        Directive::Reply { rendered: true }
                    },
                    Verdict::Retry { retries_left, backoff_ms } => {
                        self.phase = Phase::Rendering { retries_left };
                        Directive::Retry { backoff_ms }
                    },
                    Verdict::Failed => {
                        self.phase = Phase::Replying;
                        Directive::Reply { rendered: false }
                    },
                },
                Event::Delivered { .. } => Directive::Ignored,
            },
            Phase::Replying => match event {
                Event::Wake { stop, .. } => {
                    if stop {
                        self.phase = Phase::Stopped;
                        Directive::Exit
                    } else {
                        Directive::Ignored
                    }
                },
                Event::Delivered { .. } => {
                    self.phase = Phase::Idle;
                    Directive::Wait
                },
                Event::Attempt { .. } => Directive::Ignored,
            },
        }
    }
}

} // verus!
