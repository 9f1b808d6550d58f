use mapbox_pool::config::ConfigCall;
use mapbox_pool::error::Error;
use mapbox_pool::geometry::LatLng;
use mapbox_pool::geometry::Size;
use mapbox_pool::options::MapPoolOptions;
use mapbox_pool::pool::admitted;
use mapbox_pool::pool::deliver;
use mapbox_pool::pool::deliver_awaited;
use mapbox_pool::pool::enqueue;
use mapbox_pool::pool::settle;
use mapbox_pool::pool::settle_awaited;
use mapbox_pool::pool::Lifecycle;
use mapbox_pool::pool::PendingCall;
use mapbox_pool::pool::Promise;
use mapbox_pool::pool::Reply;
use mapbox_pool::pool::Seat;
use mapbox_pool::raster::assemble;
use mapbox_pool::raster::render_result;
use mapbox_pool::request::Request;
use mapbox_pool::worker::Directive;
use mapbox_pool::worker::Event;
use mapbox_pool::worker::Worker;

fn request(n: u32) -> Request {
    Request {
        size: Size(64, 64),
        center: LatLng(f64::from(n).to_bits(), 12.5f64.to_bits()),
        zoom: Some(10.0f64.to_bits()),
        style: None,
    }
}

/// Takes one call from the seat and serves it with a renderer that always
/// succeeds and paints the first byte with the latitude of the camera.
fn serve_one(worker: &mut Worker, seat: &Seat<Reply>) -> bool {
    let call = match seat.work.try_recv() {
        Ok(call) => call,
        Err(_) => return false,
    };
    let mut camera = 0u8;
    let mut directive = worker.step(Event::Wake { stop: false, call: Some(call.request) });
    loop {
        directive = match directive {
            Directive::Render(calls) => {
                for call in &calls {
                    if let ConfigCall::JumpTo(jump) = call {
                        camera = f64::from_bits(jump.center.0) as u8;
                    }
                }
                worker.step(Event::Attempt { rendered: true })
            }
            Directive::Reply { rendered } => {
                assert!(rendered);
                let image = assemble(1, 1, vec![camera, 0, 0, 255]);
                let accepted = deliver(call.reply, render_result(image));
                worker.step(Event::Delivered { accepted });
                return true;
            }
            other => panic!("unexpected directive {:?}", other),
        };
    }
}

#[test]
fn fifty_calls_on_two_workers_all_complete() {
    let options = MapPoolOptions { workers: 2, ..MapPoolOptions::default() };
    let count = options.worker_count().expect("two workers");
    let (lifecycle, seats) = Lifecycle::<Reply>::pool(count).expect("a pool of two");
    assert_eq!(seats.len(), 2);
    let mut workers = Vec::new();
    for _ in 0..2 {
        workers.push(Worker::new(options.initial_state(), options.map_options().render_retries));
    }
    let mut inboxes = Vec::new();
    for n in 0..50u32 {
        let (reply, inbox) = crossbeam_channel::bounded(1);
        assert_eq!(lifecycle.submit(request(n), reply), Ok(()));
        inboxes.push(inbox);
    }
    let mut served = [0u32; 2];
    let mut turn = 0;
    while serve_one(&mut workers[turn], &seats[turn]) {
        served[turn] += 1;
        turn = 1 - turn;
    }
    assert_eq!(served, [25, 25]);
    for (n, inbox) in inboxes.iter().enumerate() {
        let result = settle(inbox.recv().ok());
        let image = result.expect("every call completes");
        assert_eq!(image.as_bytes()[0], n as u8);
        assert!(inbox.try_recv().is_err());
    }
}

#[test]
fn pool_needs_a_worker() {
    assert!(Lifecycle::<Reply>::pool(0).is_none());
}

#[test]
fn pool_has_a_seat_for_each_worker() {
    let (lifecycle, seats) = Lifecycle::<Reply>::pool(3).expect("a pool of three");
    assert_eq!(lifecycle.worker_count(), 3);
    assert_eq!(seats.len(), 3);
    assert!(!lifecycle.is_closed());
}

#[test]
fn close_tells_every_worker_once() {
    let (mut lifecycle, seats) = Lifecycle::<Reply>::pool(2).expect("a pool of two");
    assert_eq!(lifecycle.close(), 2);
    for seat in &seats {
        assert_eq!(seat.kill.try_recv(), Ok(()));
        assert!(seat.kill.try_recv().is_err());
    }
    assert!(lifecycle.is_closed());
    assert_eq!(lifecycle.worker_count(), 2);
}

#[test]
fn close_is_idempotent() {
    let (mut lifecycle, seats) = Lifecycle::<Reply>::pool(2).expect("a pool of two");
    drop(seats);
    assert_eq!(lifecycle.close(), 2);
    assert_eq!(lifecycle.close(), 0);
    assert_eq!(lifecycle.close(), 0);
    assert!(lifecycle.is_closed());
}

#[test]
fn close_passes_over_workers_that_are_gone() {
    let (mut lifecycle, mut seats) = Lifecycle::<Reply>::pool(2).expect("a pool of two");
    let gone = seats.pop().expect("two seats");
    drop(gone);
    let stays = seats.pop().expect("one seat");
    assert_eq!(lifecycle.close(), 2);
    assert_eq!(stays.kill.try_recv(), Ok(()));
}

#[test]
fn stop_signal_that_is_ready_wins_over_a_queued_call() {
    let (mut lifecycle, mut seats) = Lifecycle::<Reply>::pool(1).expect("a pool of one");
    let seat = seats.pop().expect("one seat");
    let (reply, inbox) = crossbeam_channel::bounded(1);
    assert_eq!(lifecycle.submit(request(1), reply), Ok(()));
    lifecycle.close();
    let mut worker = Worker::new(MapPoolOptions::default().initial_state(), 5);
    let stop = seat.kill.try_recv().is_ok();
    let call = seat.work.try_recv().ok();
    assert!(stop);
    assert!(call.is_some());
    let directive = worker.step(Event::Wake { stop, call: call.map(|call| call.request) });
    assert!(matches!(directive, Directive::Exit));
    drop(seat);
    assert_eq!(settle(inbox.recv().ok()).err(), Some(Error::Channel));
}

#[test]
fn closed_pool_turns_calls_away() {
    let (mut lifecycle, seats) = Lifecycle::<Reply>::pool(1).expect("a pool of one");
    let (reply, inbox) = crossbeam_channel::bounded(1);
    assert_eq!(lifecycle.submit(request(1), reply), Ok(()));
    drop(seats);
    lifecycle.close();
    assert_eq!(settle(inbox.recv().ok()).err(), Some(Error::Channel));
    let (late, _inbox) = crossbeam_channel::bounded(1);
    assert_eq!(lifecycle.submit(request(2), late), Err(Error::Channel));
    assert_eq!(lifecycle.render(request(3)).err(), Some(Error::Channel));
}

#[test]
fn call_to_a_pool_without_workers_is_turned_away() {
    let (lifecycle, seats) = Lifecycle::<Reply>::pool(1).expect("a pool of one");
    drop(seats);
    assert_eq!(lifecycle.render(request(1)).err(), Some(Error::Channel));
}

#[test]
fn render_waits_for_the_worker() {
    let (lifecycle, mut seats) = Lifecycle::<Reply>::pool(1).expect("a pool of one");
    let seat = seats.pop().expect("one seat");
    let runtime = tokio::runtime::Builder::new_current_thread().build().expect("a runtime");
    let worker = runtime.spawn_blocking(move || {
        let call = seat.work.recv().expect("a call");
        let size = call.request.size;
        let image = assemble(1, 1, vec![size.0 as u8, size.1 as u8, 0, 255]);
        deliver(call.reply, render_result(image))
    });
    let image = lifecycle.render(request(7)).expect("an image");
    assert_eq!(image.as_bytes(), &[64, 64, 0, 255]);
    assert!(runtime.block_on(worker).expect("the worker ends"));
}

#[test]
fn render_error_reaches_the_caller_as_unknown() {
    let (lifecycle, mut seats) = Lifecycle::<Reply>::pool(1).expect("a pool of one");
    let seat = seats.pop().expect("one seat");
    let runtime = tokio::runtime::Builder::new_current_thread().build().expect("a runtime");
    let worker = runtime.spawn_blocking(move || {
        let call = seat.work.recv().expect("a call");
        deliver(call.reply, render_result(None))
    });
    assert_eq!(lifecycle.render(request(7)).err(), Some(Error::Unknown));
    assert!(runtime.block_on(worker).expect("the worker ends"));
}

#[test]
fn call_dropped_by_its_worker_is_a_channel_error() {
    let (lifecycle, mut seats) = Lifecycle::<Reply>::pool(1).expect("a pool of one");
    let seat = seats.pop().expect("one seat");
    let runtime = tokio::runtime::Builder::new_current_thread().build().expect("a runtime");
    let worker = runtime.spawn_blocking(move || {
        let call = seat.work.recv().expect("a call");
        drop(call);
    });
    assert_eq!(lifecycle.render(request(7)).err(), Some(Error::Channel));
    runtime.block_on(worker).expect("the worker ends");
}

#[test]
fn result_for_a_caller_that_left_is_dropped() {
    let (reply, inbox) = crossbeam_channel::bounded(1);
    drop(inbox);
    assert!(!deliver(reply, render_result(None)));
}

#[test]
fn result_for_a_waiting_caller_is_taken() {
    let (reply, inbox) = crossbeam_channel::bounded(1);
    assert!(deliver(reply, render_result(assemble(1, 1, vec![9, 9, 9, 9]))));
    let image = settle(inbox.recv().ok()).expect("an image");
    assert_eq!(image.as_bytes(), &[9, 9, 9, 9]);
}

#[test]
fn settle_hands_a_reply_on_and_turns_silence_into_channel() {
    assert_eq!(settle(None).err(), Some(Error::Channel));
    assert_eq!(settle(Some(Err(Error::Unknown))).err(), Some(Error::Unknown));
    assert_eq!(settle(Some(Err(Error::Creation))).err(), Some(Error::Creation));
    let image = assemble(1, 1, vec![1, 2, 3, 4]).expect("an image");
    assert_eq!(settle(Some(Ok(image))).expect("an image").as_bytes(), &[1, 2, 3, 4]);
}

#[test]
fn admitted_maps_a_refused_call_to_channel() {
    assert_eq!(admitted::<Reply>(Ok(())), Ok(()));
    let (reply, _inbox): (Reply, _) = crossbeam_channel::bounded(1);
    let call = PendingCall { request: request(1), reply };
    assert_eq!(admitted(Err(call)), Err(Error::Channel));
}

#[test]
fn enqueue_fails_once_the_queue_has_no_listener() {
    let (queue, work) = crossbeam_channel::unbounded::<PendingCall<Reply>>();
    let (reply, _inbox) = crossbeam_channel::bounded(1);
    assert_eq!(enqueue(&queue, request(1), reply), Ok(()));
    assert_eq!(work.recv().expect("the call").request.size, Size(64, 64));
    drop(work);
    let (reply, inbox) = crossbeam_channel::bounded(1);
    assert_eq!(enqueue(&queue, request(2), reply), Err(Error::Channel));
    assert_eq!(settle(inbox.recv().ok()).err(), Some(Error::Channel));
}

#[test]
fn connection_has_one_worker_and_a_queue_of_one() {
    let (lifecycle, seat) = Lifecycle::<Promise>::connection();
    assert_eq!(lifecycle.worker_count(), 1);
    assert!(!lifecycle.is_closed());
    assert_eq!(seat.work.capacity(), Some(1));
    assert_eq!(seat.kill.capacity(), Some(1));
}

#[test]
fn connection_call_is_answered_through_its_promise() {
    let (lifecycle, seat) = Lifecycle::<Promise>::connection();
    let (promise, mut awaited) = futures::channel::oneshot::channel();
    assert_eq!(lifecycle.submit(request(3), promise), Ok(()));
    let call = seat.work.recv().expect("the call");
    assert_eq!(call.request.center.0, 3.0f64.to_bits());
    assert!(deliver_awaited(call.reply, render_result(assemble(1, 1, vec![3, 0, 0, 255]))));
    let reply = awaited.try_recv().map(|reply| reply.expect("a reply"));
    assert_eq!(settle_awaited(reply).expect("an image").as_bytes(), &[3, 0, 0, 255]);
}

#[test]
fn connection_calls_are_served_in_order() {
    let (lifecycle, seat) = Lifecycle::<Promise>::connection();
    let queue = lifecycle.queue().clone();
    for n in 0..3u32 {
        let (promise, _awaited) = futures::channel::oneshot::channel();
        assert_eq!(enqueue(&queue, request(n), promise), Ok(()));
        let call = seat.work.recv().expect("the call");
        assert_eq!(call.request.center.0, f64::from(n).to_bits());
    }
}

#[test]
fn promise_of_a_caller_that_left_is_dropped() {
    let (promise, awaited) = futures::channel::oneshot::channel();
    drop(awaited);
    assert!(!deliver_awaited(promise, render_result(None)));
}

#[test]
fn canceled_promise_is_a_channel_error() {
    let (promise, mut awaited) = futures::channel::oneshot::channel();
    drop::<Promise>(promise);
    let reply = awaited.try_recv().map(|reply| reply.expect("resolved"));
    assert_eq!(settle_awaited(reply).err(), Some(Error::Channel));
}

#[test]
fn close_of_a_connection_signals_without_waiting() {
    let (mut lifecycle, seat) = Lifecycle::<Promise>::connection();
    assert_eq!(lifecycle.close(), 1);
    assert_eq!(seat.kill.try_recv(), Ok(()));
    assert_eq!(lifecycle.close(), 0);
    assert_eq!(seat.kill.try_recv().is_err(), true);
    let (promise, _awaited) = futures::channel::oneshot::channel();
    assert_eq!(lifecycle.submit(request(1), promise), Err(Error::Channel));
}

#[test]
fn pool_works_with_the_workers_that_started() {
    assert_eq!(mapbox_pool::pool::muster(&vec![true, true]), Ok(2));
    assert_eq!(mapbox_pool::pool::muster(&vec![false, true, false]), Ok(1));
    assert_eq!(mapbox_pool::pool::muster(&vec![true]), Ok(1));
}

#[test]
fn pool_without_a_started_worker_is_a_creation_error() {
    assert_eq!(mapbox_pool::pool::muster(&vec![false, false]), Err(Error::Creation));
    assert_eq!(mapbox_pool::pool::muster(&Vec::new()), Err(Error::Creation));
}

#[test]
fn result_counts_as_taken_unless_it_came_back() {
    assert!(mapbox_pool::pool::taken::<u8>(Ok(())));
    assert!(!mapbox_pool::pool::taken(Err(7u8)));
}

#[test]
fn queue_is_the_sending_end_that_submit_uses() {
    let (lifecycle, seat) = Lifecycle::<Promise>::connection();
    let (promise, _awaited) = futures::channel::oneshot::channel();
    assert_eq!(enqueue(lifecycle.queue(), request(4), promise), Ok(()));
    assert_eq!(seat.work.recv().expect("the call").request.center.0, 4.0f64.to_bits());
    let (promise, _awaited) = futures::channel::oneshot::channel();
    assert_eq!(lifecycle.submit(request(5), promise), Ok(()));
    assert_eq!(seat.work.recv().expect("the call").request.center.0, 5.0f64.to_bits());
}
