//! The queue between callers and workers, and the life of the pool around it.
//!
//! A pool of workers shares one unbounded queue. A connection is the same
//! thing at the smallest size: one worker behind a queue of one slot. Both
//! are a [`Lifecycle`]: the sending end of the queue and one stop channel
//! for each worker.

use vstd::prelude::*;
use crate::channel::bounded;
use crate::channel::fulfil;
use crate::channel::recv;
use crate::channel::send;
use crate::channel::share;
use crate::channel::unbounded;
use crate::error::Error;
use crate::request::Request;
use crossbeam_channel::Receiver;
use crossbeam_channel::Sender;
use futures::channel::oneshot::Canceled;
use image::DynamicImage;

verus! {

/// A request on its way to a worker, with the channel that its result goes back through.
#[verifier::reject_recursive_types(R)]
pub struct PendingCall<R> {
    pub request: Request,
    /// Used once, for one value, by the worker that takes the call.
    pub reply: R,
}

/// What one worker's thread listens on.
#[verifier::reject_recursive_types(R)]
pub struct Seat<R> {
    /// The queue of calls.
    pub work: Receiver<PendingCall<R>>,
    /// The stop signal of this worker.
    pub kill: Receiver<()>,
}

/// The reply channel of a pool: a worker sends, the caller waits.
pub type Reply = Sender<Result<DynamicImage, Error>>;

/// The reply channel of a connection: a worker sends, the caller awaits.
pub type Promise = futures::channel::oneshot::Sender<Result<DynamicImage, Error>>;

/// What a caller is handed once the wait for a reply has ended.
///
/// A reply is handed on as it is. No reply means that the worker went away
/// with the call unanswered.
pub fn settle(reply: Option<Result<DynamicImage, Error>>) -> (result: Result<DynamicImage, Error>)
    ensures
        result == (match reply {
            Some(result) => result,
            None => Err::<DynamicImage, Error>(Error::Channel),
        }),
{
    match reply {
        Some(result) => result,
        None => Err(Error::Channel),
    }
}

/// What a caller is handed once an awaited reply has resolved.
pub fn settle_awaited(reply: Result<Result<DynamicImage, Error>, Canceled>) -> (result: Result<
    DynamicImage,
    Error,
>)
    ensures
        result == (match reply {
            Ok(result) => result,
            Err(_) => Err::<DynamicImage, Error>(Error::Channel),
        }),
{
    match reply {
        Ok(result) => result,
        Err(_) => Err(Error::Channel),
    }
}

/// What a submission comes to, given what the queue did with the call.
pub fn admitted<R>(sent: Result<(), PendingCall<R>>) -> (outcome: Result<(), Error>)
    ensures
        outcome == (match sent {
            Ok(_) => Ok::<(), Error>(()),
            Err(_) => Err::<(), Error>(Error::Channel),
        }),
{
    match sent {
        Ok(_) => Ok(()),
        Err(_) => Err(Error::Channel),
    }
}

/// The number of workers, among those listed, that could create their renderer.
pub open spec fn started_count(started: Seq<bool>) -> nat
    decreases started.len(),
{
    if started.len() == 0 {
        0
    } else {
        started_count(started.drop_last()) + if started.last() {
            1nat
        } else {
            0nat
        }
    }
}

/// Decides whether a pool can go to work, given for each worker whether it
/// could create its renderer.
///
/// A worker that could not is missing from the pool and from nothing else:
/// the pool works with those that could, and says how many they are. Only a
/// pool in which no worker started is a failure.
pub fn muster(started: &Vec<bool>) -> (ready: Result<usize, Error>)
    ensures
        ready == (if started_count(started@) > 0 {
            Ok::<usize, Error>(started_count(started@) as usize)
        } else {
            Err::<usize, Error>(Error::Creation)
        }),
{
    let mut count: usize = 0;
    let mut at: usize = 0;
    while at < started.len()
        invariant
            at <= started@.len(),
            count <= at,
            count == started_count(started@.take(at as int)),
        decreases started@.len() - at,
    {
        assert(started@.take(at + 1).drop_last() =~= started@.take(at as int));
        if started[at] {
            count = count + 1;
        }
        at = at + 1;
    }
    assert(started@.take(at as int) =~= started@);
    if count > 0 {
        Ok(count)
    } else {
        Err(Error::Creation)
    }
}

/// Looks at a connection that comes back from a caller before it is handed
/// to the next one. Nothing is probed: every connection is passed as good.
pub fn check<C>(connection: C) -> (checked: Result<C, Error>)
    ensures
        checked == Ok::<C, Error>(connection),
{
    Ok(connection)
}

/// Puts a call into a queue. Fails with [`Error::Channel`] if no worker
/// listens on the queue any more; the reply channel is then dropped.
pub fn enqueue<R>(queue: &Sender<PendingCall<R>>, request: Request, reply: R) -> (outcome: Result<
    (),
    Error,
>)
    ensures
        outcome matches Err(error) ==> error == Error::Channel,
{
    admitted(send(queue, PendingCall { request, reply }))
}

/// Sends a result to a pool's caller. Returns whether the caller took it:
/// a caller that has stopped waiting is no error.
pub fn deliver(reply: Reply, result: Result<DynamicImage, Error>) -> (accepted: bool) {
    taken(send(&reply, result))
}

/// Sends a result to a connection's caller. Returns whether the caller
/// took it: a caller that has stopped waiting is no error.
pub fn deliver_awaited(reply: Promise, result: Result<DynamicImage, Error>) -> (accepted: bool) {
    taken(fulfil(reply, result))
}

/// The caller's side of a pool or a connection.
#[verifier::reject_recursive_types(R)]
pub struct Lifecycle<R> {
    producer: Sender<PendingCall<R>>,
    kills: Vec<Sender<()>>,
    closed: bool,
}

impl<R> Lifecycle<R> {
    /// The number of workers that were started.
    pub closed spec fn workers(&self) -> nat {
        self.kills@.len()
    }

    /// Whether teardown has taken place.
    pub closed spec fn closed(&self) -> bool {
        self.closed
    }

    /// Sets up a pool of `workers` workers around one shared, unbounded
    /// queue, with a seat for each worker's thread. A pool needs at least
    /// one worker.
    pub fn pool(workers: usize) -> (opened: Option<(Lifecycle<R>, Vec<Seat<R>>)>)
        ensures
            opened is Some <==> workers >= 1,
            opened matches Some((lifecycle, seats)) ==> {
                &&& lifecycle.workers() == workers
                &&& !lifecycle.closed()
                &&& seats@.len() == workers
            },
    {
        if workers < 1 {
            return None;
        }
        let (producer, work) = unbounded::<PendingCall<R>>();
        let mut kills: Vec<Sender<()>> = Vec::new();
        let mut seats: Vec<Seat<R>> = Vec::new();
        let mut started: usize = 0;
        while started < workers
            invariant
                started <= workers,
                kills@.len() == started,
                seats@.len() == started,
            decreases workers - started,
        {
            let (kill, killed) = bounded::<()>(1);
            kills.push(kill);
            seats.push(Seat { work: share(&work), kill: killed });
            started = started + 1;
        }
        Some((Lifecycle { producer, kills, closed: false }, seats))
    }

    /// Sets up a connection: one worker behind a queue of one slot.
    pub fn connection() -> (opened: (Lifecycle<R>, Seat<R>))
        ensures
            opened.0.workers() == 1,
            !opened.0.closed(),
    {
        let (producer, work) = bounded::<PendingCall<R>>(1);
        let (kill, killed) = bounded::<()>(1);
        let mut kills: Vec<Sender<()>> = Vec::new();
        kills.push(kill);
        (Lifecycle { producer, kills, closed: false }, Seat { work, kill: killed })
    }

    /// Whether teardown has taken place.
    pub fn is_closed(&self) -> (closed: bool)
        ensures
            closed == self.closed(),
    {
        self.closed
    }

    /// The number of workers that were started.
    pub fn worker_count(&self) -> (count: usize)
        ensures
            count == self.workers(),
    {
        self.kills.len()
    }

    /// The sending end of the queue, for a caller that submits from another
    /// thread through a copy of it.
    pub fn queue(&self) -> (queue: &Sender<PendingCall<R>>)
        ensures
            *queue == self.sending_end(),
    {
        &self.producer
    }

    /// The end through which this pool or connection puts calls into its queue.
    pub closed spec fn sending_end(&self) -> Sender<PendingCall<R>> {
        self.producer
    }

    /// Submits a call. After teardown every call is turned away with
    /// [`Error::Channel`]; before it, a call fails only if no worker
    /// listens any more.
    pub fn submit(&self, request: Request, reply: R) -> (outcome: Result<(), Error>)
        ensures
            self.closed() ==> outcome == Err::<(), Error>(Error::Channel),
            outcome matches Err(error) ==> error == Error::Channel,
    {
        if self.closed {
            Err(Error::Channel)
        } else {
            enqueue(&self.producer, request, reply)
        }
    }

    /// Tears the pool down: tells every worker to stop, once. Returns the
    /// number of workers whose threads are now to be joined: all of them at
    /// the first call, none at any later one.
    ///
    /// No signal waits for its worker: one that has already gone is passed
    /// over, one that is rendering finds the signal when it next waits.
    pub fn close(&mut self) -> (stopping: usize)
        ensures
            final(self).closed(),
            final(self).workers() == old(self).workers(),
            stopping == (if old(self).closed() {
                0
            } else {
                old(self).workers()
            }),
    {
        if self.closed {
            return 0;
        }
        let count = self.kills.len();
        let mut told: usize = 0;
        while told < count
            invariant
                told <= count,
                count == self.kills@.len(),
            decreases count - told,
        {
            let _ = send(&self.kills[told], ());
            told = told + 1;
        }
        self.closed = true;
        count
    }
}

impl Lifecycle<Reply> {
    /// Renders through the pool: submits the call and waits for its result.
    ///
    /// After teardown the call is turned away with [`Error::Channel`].
    /// Before it, the result is what [`settle`] makes of the worker's reply.
    pub fn render(&self, request: Request) -> (result: Result<DynamicImage, Error>)
        ensures
            self.closed() ==> result == Err::<DynamicImage, Error>(Error::Channel),
    {
        let (reply, inbox) = bounded::<Result<DynamicImage, Error>>(1);
        match self.submit(request, reply) {
            Ok(_) => settle(recv(&inbox)),
            Err(error) => Err(error),
        }
    }
}

/// Whether a result reached its caller, given what the reply channel did
/// with it: it did unless the channel handed it back.
pub fn taken<T>(sent: Result<(), T>) -> (accepted: bool)
    ensures
        accepted == sent is Ok,
{
    match sent {
        Ok(_) => true,
        Err(_) => false,
    }
}

} // verus!
