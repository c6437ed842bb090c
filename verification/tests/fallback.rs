use linkerd2_proxy::errors::{ErrorKind, Synthesis};
use linkerd2_proxy::fallback::{always, layer, FallbackState, MakeSvc, Next, Polled};
use linkerd2_proxy::outbound::{DiscoveryRejected, LogicalError};
use linkerd2_proxy::poll::Async;
use linkerd2_proxy::stack::layer::{mk, Layer};

fn rejected() -> LogicalError {
    LogicalError::from(&ErrorKind::DiscoveryRejected)
}

#[test]
fn discovery_rejection_falls_back_to_the_forward_stack() {
    let make = MakeSvc {
        primary: "balancer",
        fallback: "forward",
        predicate: LogicalError::is_discovery_rejected,
    };
    let target = ("web.svc:80", "10.1.2.3:8080");
    let mut making = make.call(&target);
    assert_eq!(making.phase(), FallbackState::Primary);

    // The balancer's making fails: discovery rejects the destination.
    let next = making.primary::<u16, LogicalError>(Err(rejected()));
    assert!(matches!(next, Next::PollReady));
    assert_eq!(making.phase(), FallbackState::Waiting);

    // The forward stack is waited for, then asked for the same target.
    let next = making.ready::<u16, LogicalError>(Ok(Async::NotReady));
    assert!(matches!(next, Next::Return(Ok(Async::NotReady))));
    let next = making.ready::<u16, LogicalError>(Ok(Async::Ready(())));
    match next {
        Next::Call(t) => assert_eq!(t, target),
        other => panic!("unexpected {:?}", other),
    }
    assert_eq!(making.phase(), FallbackState::Fallback);

    // What the forward stack gives is the answer.
    let answer = making.fallback::<u16, LogicalError>(Ok(Async::Ready(200)));
    assert!(matches!(answer, Ok(Async::Ready(200))));
}

#[test]
fn other_errors_are_surfaced() {
    let make = MakeSvc {
        primary: (),
        fallback: (),
        predicate: LogicalError::is_discovery_rejected,
    };
    let mut making = make.call(&1u8);
    let inner = LogicalError::from(&ErrorKind::Inner("connection refused".to_string()));
    let next = making.primary::<u16, LogicalError>(Err(inner));
    match next {
        Next::Return(Err(e)) => assert_eq!(e.message(), "connection refused"),
        other => panic!("unexpected {:?}", other),
    }
    assert_eq!(making.phase(), FallbackState::Primary);
    // Events of later phases are not taken.
    let next = making.ready::<u16, LogicalError>(Ok(Async::Ready(())));
    assert!(matches!(next, Next::Return(Ok(Async::NotReady))));
}

#[test]
fn primary_success_is_the_answer() {
    let make = MakeSvc {
        primary: (),
        fallback: (),
        predicate: always::<LogicalError>,
    };
    let mut making = make.call(&1u8);
    let next = making.primary::<u16, LogicalError>(Ok(Async::NotReady));
    assert!(matches!(next, Next::Return(Ok(Async::NotReady))));
    let next = making.primary::<u16, LogicalError>(Ok(Async::Ready(7)));
    assert!(matches!(next, Next::Return(Ok(Async::Ready(7)))));
}

#[test]
fn fallback_failure_is_surfaced() {
    let make = MakeSvc {
        primary: (),
        fallback: (),
        predicate: always::<LogicalError>,
    };
    let mut making = make.call(&1u8);
    assert!(matches!(
        making.primary::<u16, LogicalError>(Err(rejected())),
        Next::PollReady
    ));
    match making.ready::<u16, LogicalError>(Err(rejected())) {
        Next::Return(Err(LogicalError::DiscoveryRejected)) => {}
        other => panic!("unexpected {:?}", other),
    }
    assert_eq!(making.phase(), FallbackState::Waiting);
}

#[test]
fn layer_builds_both_makers_over_the_inner() {
    let primary = mk(|inner: u32| inner + 1);
    let fallback = mk(|inner: u32| inner + 2);
    let fall = layer(primary, fallback, always::<LogicalError>)
        .with_predicate(LogicalError::is_discovery_rejected);
    let made = fall.layer(10);
    assert_eq!(made.primary, 11);
    assert_eq!(made.fallback, 12);
}

#[test]
fn logical_errors_keep_discovery_rejection_apart() {
    assert!(LogicalError::is_discovery_rejected(&rejected()));
    let timeout = LogicalError::from(&ErrorKind::Timeout);
    assert!(!LogicalError::is_discovery_rejected(&timeout));
    assert_eq!(timeout.message(), "request timed out");
    assert_eq!(rejected().message(), "discovery rejected");
    assert_eq!(DiscoveryRejected::new().message(), "discovery rejected");
    assert_eq!(
        ErrorKind::DiscoveryRejected.synthesize(),
        Synthesis::Respond(502)
    );
}

#[test]
fn fallback_maker_is_asked_once_for_the_same_target() {
    let make = MakeSvc {
        primary: "balancer",
        fallback: "forward",
        predicate: LogicalError::is_discovery_rejected,
    };
    let target = ("web.svc:80", "10.1.2.3:8080");
    let mut making = make.call(&target);

    // An answer that does not belong to the phase is not taken.
    let next = making.poll::<u16, LogicalError>(Polled::Ready(Ok(Async::Ready(()))));
    assert!(matches!(next, Next::Return(Ok(Async::NotReady))));
    assert_eq!(making.phase(), FallbackState::Primary);

    let next = making.poll::<u16, LogicalError>(Polled::Primary(Err(rejected())));
    assert!(matches!(next, Next::PollReady));
    let next = making.poll::<u16, LogicalError>(Polled::Ready(Ok(Async::Ready(()))));
    match next {
        Next::Call(t) => assert_eq!(t, target),
        other => panic!("unexpected {:?}", other),
    }
    assert_eq!(making.phase(), FallbackState::Fallback);

    // The maker is not asked a second time, whatever is reported.
    let next = making.poll::<u16, LogicalError>(Polled::Ready(Ok(Async::Ready(()))));
    assert!(matches!(next, Next::Return(Ok(Async::NotReady))));
    let next = making.poll::<u16, LogicalError>(Polled::Primary(Err(rejected())));
    assert!(matches!(next, Next::Return(Ok(Async::NotReady))));
    assert_eq!(making.phase(), FallbackState::Fallback);

    // The fallback's answer is the answer; the primary's error is gone.
    let next = making.poll::<u16, LogicalError>(Polled::Fallback(Ok(Async::Ready(200))));
    assert!(matches!(next, Next::Return(Ok(Async::Ready(200)))));
}
