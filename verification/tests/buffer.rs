use linkerd2_proxy::admission::{enter, Admission};
use linkerd2_proxy::buffer::queue::{channel, InFlight, PushFuture, Wake};
use linkerd2_proxy::buffer::{Buffer, BufferFuture, LostDaemon};
use linkerd2_proxy::concurrency_limit::Permits;
use linkerd2_proxy::errors::{ErrorKind, Synthesis};
use linkerd2_proxy::poll::Async;
use linkerd2_proxy::svc::load_shed::Overloaded;

#[test]
fn buffer_is_first_in_first_out() {
    let (push, pop, mut inner) = channel(8);
    for request in [10u64, 20, 30, 40] {
        let (future, _) = push.push(&mut inner, request);
        assert!(matches!(future, PushFuture::Pending { .. }));
    }
    let mut order = Vec::new();
    while let Ok(Async::Ready(InFlight { request, .. })) = pop.poll_pop(&mut inner) {
        order.push(request);
    }
    assert_eq!(order, vec![10, 20, 30, 40]);
    assert_eq!(pop.poll_pop(&mut inner), Ok(Async::NotReady));
}

#[test]
fn tokens_are_given_out_in_order() {
    let (push, pop, mut inner) = channel(2);
    let (first, _) = push.push(&mut inner, 7);
    let (second, _) = push.push(&mut inner, 8);
    assert_eq!(first, PushFuture::Pending { token: 0 });
    assert_eq!(second, PushFuture::Pending { token: 1 });
    assert_eq!(
        pop.poll_pop(&mut inner),
        Ok(Async::Ready(InFlight { token: 0, request: 7 }))
    );
    assert_eq!(inner.len(), 1);
    assert_eq!(inner.under_way(), 1);
}

#[test]
fn giving_up_keeps_the_order_of_the_others() {
    let (push, pop, mut inner) = channel(8);
    let (a, _) = push.push(&mut inner, 1);
    let (_b, _) = push.push(&mut inner, 2);
    let (_c, _) = push.push(&mut inner, 3);
    let (_d, _) = push.push(&mut inner, 4);
    assert_eq!(a.drop(&mut inner, 5), Wake::Push);
    let mut order = Vec::new();
    while let Ok(Async::Ready(InFlight { request, .. })) = pop.poll_pop(&mut inner) {
        order.push(request);
    }
    assert_eq!(order, vec![2, 3, 4]);
}

#[test]
fn sender_is_not_ready_while_the_buffer_is_full() {
    let (push, pop, mut inner) = channel(2);
    assert_eq!(push.poll_ready(&inner), Ok(Async::Ready(())));
    let (first, _) = push.push(&mut inner, 1);
    assert_eq!(push.poll_ready(&inner), Ok(Async::Ready(())));
    let (_second, _) = push.push(&mut inner, 2);
    assert_eq!(push.poll_ready(&inner), Ok(Async::NotReady));
    // A request that the daemon took still holds its place.
    assert!(pop.poll_pop(&mut inner).is_ok());
    assert_eq!(push.poll_ready(&inner), Ok(Async::NotReady));
    // It gives the place back when its sender lets go.
    first.drop(&mut inner, 3);
    assert_eq!(push.poll_ready(&inner), Ok(Async::Ready(())));
}

#[test]
fn daemon_is_woken_by_a_push_and_by_the_last_sender() {
    let (push, pop, mut inner) = channel(2);
    assert_eq!(pop.poll_pop(&mut inner), Ok(Async::NotReady));
    let (future, wake) = push.push(&mut inner, 1);
    assert_eq!(wake, Wake::Pop);
    let (_other, wake) = push.push(&mut inner, 2);
    assert_eq!(wake, Wake::Nobody);
    assert_eq!(pop.poll_complete(&mut inner, 3), Ok(Async::NotReady));
    assert_eq!(future.drop(&mut inner, 2), Wake::Pop);
    assert_eq!(pop.poll_complete(&mut inner, 1), Ok(Async::Ready(())));
}

#[test]
fn poisoned_future_fails_as_lost_daemon() {
    assert_eq!(PushFuture::Poisoned.poll(), Err(LostDaemon));
    assert_eq!(PushFuture::Pending { token: 3 }.poll(), Ok(Async::NotReady));
    assert_eq!(LostDaemon.message(), "buffer daemon task was lost");
    let kind = ErrorKind::from_lost_daemon(LostDaemon);
    assert_eq!(kind.synthesize(), Synthesis::TearDown);
    assert!(kind.is_fatal_to_connection());
}

#[test]
fn buffer_without_daemon_fails() {
    let (push, _pop, mut inner) = channel(1);
    let buffer = Buffer::new(push);
    assert_eq!(buffer.poll_ready(false, Some(&inner)), Err(LostDaemon));
    assert_eq!(buffer.poll_ready(true, None), Ok(Async::NotReady));
    assert_eq!(buffer.poll_ready(true, Some(&inner)), Ok(Async::Ready(())));
    let mut future = buffer.call(42);
    assert_eq!(future, BufferFuture::Push { req: Some(42) });
    assert_eq!(buffer.poll(&mut future, &mut inner), Wake::Nobody);
    assert_eq!(
        future,
        BufferFuture::InFlight(PushFuture::Pending { token: 0 })
    );
    assert_eq!(buffer.poll_ready(true, Some(&inner)), Ok(Async::NotReady));
}

#[test]
fn third_of_three_simultaneous_requests_is_shed() {
    // Buffer of two, one request under way at a time, load shed at the edge.
    let mut admission = Admission::new(2, 1);
    let first = admission.arrive(1).expect("the first request is let in");
    let second = admission.arrive(2).expect("the second request is let in");
    let third = admission.arrive(3);
    assert_eq!(third, Err(Overloaded));
    assert_eq!(
        ErrorKind::from_overloaded(Overloaded).synthesize(),
        Synthesis::Respond(503)
    );
    // The upstream serves one request at a time, in order.
    assert_eq!(
        admission.dispatch(),
        Some(InFlight { token: 0, request: 1 })
    );
    assert_eq!(admission.dispatch(), None);
    admission.complete(first);
    assert_eq!(
        admission.dispatch(),
        Some(InFlight { token: 1, request: 2 })
    );
    admission.complete(second);
    assert_eq!(admission.dispatch(), None);
    // With room again, a request is let in.
    assert!(admission.arrive(4).is_ok());
}

#[test]
fn request_is_turned_away_without_entering_the_buffer() {
    let mut admission = Admission::new(1, 1);
    let held = admission.arrive(1).unwrap();
    assert_eq!(admission.arrive(2), Err(Overloaded));
    assert_eq!(admission.arrive(3), Err(Overloaded));
    // Only the first request is there to be dispatched.
    assert_eq!(
        admission.dispatch(),
        Some(InFlight { token: 0, request: 1 })
    );
    assert_eq!(admission.dispatch(), None);
    admission.complete(held);
    assert_eq!(
        admission.arrive(4),
        Ok(PushFuture::Pending { token: 1 })
    );
}

#[test]
fn concurrency_limit_sheds_when_all_permits_are_out() {
    let mut permits = Permits::new(2);
    assert_eq!(enter(&mut permits), Ok(()));
    assert_eq!(enter(&mut permits), Ok(()));
    assert_eq!(permits.in_flight(), 2);
    assert_eq!(enter(&mut permits), Err(Overloaded));
    assert_eq!(permits.in_flight(), 2);
    permits.release();
    assert_eq!(enter(&mut permits), Ok(()));
    let mut none = Permits::new(0);
    assert_eq!(enter(&mut none), Err(Overloaded));
}
