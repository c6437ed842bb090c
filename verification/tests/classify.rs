use linkerd2_proxy::classify::{
    classify_response, is_grpc, Class, Eos, Request, ResponseClass, ResponseInfo, ResponseMatch,
    SuccessOrFailure,
};
use std::sync::Arc;

fn response(status: u16) -> ResponseInfo {
    ResponseInfo {
        status,
        grpc_status: None,
        trailer_grpc_status: None,
    }
}

#[test]
fn server_errors_are_failures_by_default() {
    for (status, verdict) in [
        (200u16, SuccessOrFailure::Success),
        (404, SuccessOrFailure::Success),
        (499, SuccessOrFailure::Success),
        (500, SuccessOrFailure::Failure),
        (503, SuccessOrFailure::Failure),
        (599, SuccessOrFailure::Failure),
        (600, SuccessOrFailure::Success),
    ] {
        let class = classify_response(&Request::Default, false, response(status));
        assert_eq!(class, Class::Default(verdict), "status {}", status);
        assert_eq!(class.is_failure(), verdict == SuccessOrFailure::Failure);
    }
}

#[test]
fn grpc_status_decides_for_grpc_requests() {
    let in_headers = ResponseInfo {
        status: 200,
        grpc_status: Some(14),
        trailer_grpc_status: None,
    };
    assert_eq!(
        classify_response(&Request::Default, true, in_headers),
        Class::Grpc(SuccessOrFailure::Failure, 14)
    );
    let in_trailers = ResponseInfo {
        status: 200,
        grpc_status: None,
        trailer_grpc_status: Some(0),
    };
    assert_eq!(
        classify_response(&Request::Default, true, in_trailers),
        Class::Grpc(SuccessOrFailure::Success, 0)
    );
    // Trailers do not count for a request that is no gRPC call.
    let not_grpc = ResponseInfo {
        status: 200,
        grpc_status: None,
        trailer_grpc_status: Some(2),
    };
    assert_eq!(
        classify_response(&Request::Default, false, not_grpc),
        Class::Default(SuccessOrFailure::Success)
    );
    // Without a gRPC status the HTTP status decides.
    assert_eq!(
        classify_response(&Request::Default, true, response(500)),
        Class::Default(SuccessOrFailure::Failure)
    );
}

#[test]
fn first_matching_class_of_a_profile_decides() {
    let classes = Arc::new(vec![
        ResponseClass::new(false, ResponseMatch::Status { min: 500, max: 500 }),
        ResponseClass::new(true, ResponseMatch::Status { min: 400, max: 599 }),
        ResponseClass::new(true, ResponseMatch::NotStatus { min: 200, max: 599 }),
    ]);
    let policy = Request::from(classes);
    let verdict = |status: u16| classify_response(&policy, false, response(status));
    assert_eq!(verdict(500), Class::Default(SuccessOrFailure::Success));
    assert_eq!(verdict(404), Class::Default(SuccessOrFailure::Failure));
    assert_eq!(verdict(503), Class::Default(SuccessOrFailure::Failure));
    assert_eq!(verdict(100), Class::Default(SuccessOrFailure::Failure));
    // No class matches: the status decides.
    assert_eq!(verdict(200), Class::Default(SuccessOrFailure::Success));
}

#[test]
fn classifying_twice_gives_the_same_verdict() {
    let classes = Arc::new(vec![ResponseClass::new(
        true,
        ResponseMatch::Status { min: 500, max: 599 },
    )]);
    let policy = Request::from(classes);
    for status in [200u16, 500, 503] {
        let first = classify_response(&policy, false, response(status));
        let again = classify_response(&policy.clone(), false, response(status));
        assert_eq!(first, again);
    }
}

#[test]
fn stream_errors_are_failures() {
    let classifier = Request::Default.classify(false);
    assert_eq!(classifier.error(), Class::Stream(SuccessOrFailure::Failure));
    let eos = classifier.start(200, None);
    assert_eq!(eos, Eos::Default(200));
    assert_eq!(eos.error(), Class::Stream(SuccessOrFailure::Failure));
    assert_eq!(eos.eos(None), Class::Default(SuccessOrFailure::Success));
}

#[test]
fn grpc_calls_are_told_by_their_content_type() {
    assert!(is_grpc("application/grpc"));
    assert!(is_grpc("application/grpc+proto"));
    assert!(is_grpc("application/grpc; charset=utf-8"));
    assert!(!is_grpc("application/grp"));
    assert!(!is_grpc("application/json"));
    assert!(!is_grpc(""));
    assert!(!is_grpc("Application/grpc"));
    assert!(!is_grpc("text/application/grpc"));
}
