use linkerd2_proxy::errors::{ErrorKind, Synthesis};

#[test]
fn each_kind_of_failure_is_synthesized_as_specified() {
    let cases = vec![
        (ErrorKind::Overloaded, Synthesis::Respond(503)),
        (ErrorKind::BudgetExhausted, Synthesis::PassThrough),
        (ErrorKind::Timeout, Synthesis::Respond(504)),
        (ErrorKind::ConnectFailed, Synthesis::Respond(502)),
        (ErrorKind::NotRecognized, Synthesis::Respond(502)),
        (ErrorKind::NoCapacity(1), Synthesis::Respond(502)),
        (ErrorKind::Poisoned, Synthesis::TearDown),
        (ErrorKind::LostDaemon, Synthesis::TearDown),
        (ErrorKind::DiscoveryRejected, Synthesis::Respond(502)),
        (ErrorKind::Inner("boom".to_string()), Synthesis::Respond(502)),
    ];
    for (kind, expected) in cases {
        assert_eq!(kind.synthesize(), expected, "{:?}", kind);
        assert_eq!(
            kind.is_fatal_to_connection(),
            expected == Synthesis::TearDown
        );
        assert!(!kind.message().is_empty());
    }
    assert_eq!(ErrorKind::Inner("boom".to_string()).message(), "boom");
}
