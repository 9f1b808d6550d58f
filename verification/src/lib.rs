//! Verified core of a pool of map-rendering workers.
//!
//! A renderer instance is stateful and bound to the thread that created it.
//! A pool gives each instance a worker thread of its own and lets any
//! number of callers render through a queue. This crate holds every
//! decision that such a pool takes, each with a contract that Verus proves:
//!
//! - [`config`]: which configuration calls a request needs on a renderer
//!   that remembers its last configuration, and in which order;
//! - [`retry`]: how often a render that gave no image is tried again;
//! - [`worker`]: the life of one worker as a state machine, and [`run`]:
//!   what holds of every run of it;
//! - [`pool`]: the queue between callers and workers, what a caller is
//!   handed back, and teardown;
//! - [`raster`]: the image that a render produces;
//! - [`geometry`], [`request`], [`options`], [`error`]: the values that
//!   callers state and receive.
//!
//! The channels are those of `crossbeam-channel` and `futures`, the image
//! is that of `image`; [`channel`] and [`raster`] say what is taken on
//! trust from them. Threads, the native renderer and asynchronous callers
//! live outside this crate: they perform what is decided here.

pub mod channel;
pub mod config;
pub mod error;
pub mod geometry;
pub mod options;
pub mod pool;
pub mod raster;
pub mod request;
pub mod retry;
pub mod run;
pub mod worker;
