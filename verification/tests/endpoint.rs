use linkerd2_proxy::addr::{Addr, IpAddr, NameAddr, SocketAddr};
use linkerd2_proxy::classify;
use linkerd2_proxy::dst;
use linkerd2_proxy::http_classify::CanClassify;
use linkerd2_proxy::inbound;
use linkerd2_proxy::metric_labels::{Direction, Peer, TlsStatus};
use linkerd2_proxy::outbound;
use linkerd2_proxy::outbound::endpoint::{
    FromMetadata, HttpEndpoint, Profile, RequestTarget, Target, TargetProfile, TcpEndpoint,
};
use linkerd2_proxy::outbound::orig_proto_upgrade::{self, Either};
use linkerd2_proxy::proxy::api_resolve::{Metadata, ProtocolHint};
use linkerd2_proxy::proxy::http::canonicalize::Target as CanonicalizeTarget;
use linkerd2_proxy::proxy::http::profiles::{CanGetDestination, Route, WithRoute};
use linkerd2_proxy::proxy::http::settings::{
    HasSettings, HeadParts, Named, RequestHead, Settings, Version,
};
use linkerd2_proxy::router::Key;
use linkerd2_proxy::stack::layer::Layer;
use linkerd2_proxy::stack::make::Make;
use linkerd2_proxy::transport::{
    Addrs, Meta, Name, PeerIdentity, ReasonForNoIdentity, ReasonForNoPeerName,
};

fn socket(last: u32, port: u16) -> SocketAddr {
    SocketAddr::new(IpAddr::V4(0x0a00_0000 + last), port)
}

fn named(name: &str, port: u16) -> Addr {
    Addr::Name(NameAddr::new(name.to_string(), port))
}

fn head() -> RequestHead {
    RequestHead {
        version: Version::Http11,
        connect: false,
        upgrade_h2c: None,
        absolute_form: false,
        grpc: false,
        authority: Named::Absent,
        host: Named::Absent,
        dst_override: Named::Absent,
        dst_canonical: Named::Absent,
        require_identity: None,
    }
}

fn accepted() -> Meta {
    Meta::new(
        Addrs {
            local: socket(1, 4140),
            peer: socket(2, 51000),
            orig_dst: Some(socket(9, 8080)),
        },
        PeerIdentity::Known(Name("client.ns".to_string())),
    )
}

fn no_discovery_identity() -> PeerIdentity {
    PeerIdentity::Unknown(ReasonForNoIdentity::NoPeerName(
        ReasonForNoPeerName::NotProvidedByServiceDiscovery,
    ))
}

#[test]
fn settings_are_derived_from_the_request_head() {
    let mut h2 = head();
    h2.version = Version::Http2;
    assert_eq!(Settings::from_request(&h2), Settings::Http2);
    assert!(Settings::from_request(&h2).is_http2());

    // Without an authority the connection is not kept alive.
    assert_eq!(
        Settings::from_request(&head()),
        Settings::Http1 {
            keep_alive: false,
            wants_h1_upgrade: false,
            was_absolute_form: false,
        }
    );
    let mut empty_host = head();
    empty_host.host = Named::Empty;
    assert_eq!(
        Settings::from_request(&empty_host),
        Settings::from_request(&head())
    );

    let mut with_host = head();
    with_host.host = Named::Invalid;
    with_host.absolute_form = true;
    with_host.upgrade_h2c = Some(false);
    let settings = Settings::from_request(&with_host);
    assert_eq!(
        settings,
        Settings::Http1 {
            keep_alive: true,
            wants_h1_upgrade: true,
            was_absolute_form: true,
        }
    );
    assert!(settings.was_absolute_form());
    assert!(!Settings::Http2.was_absolute_form());

    // An upgrade to h2c, and every upgrade of HTTP/1.0, is none.
    let mut h2c = head();
    h2c.upgrade_h2c = Some(true);
    h2c.connect = true;
    h2c.authority = named("web", 80).into_named();
    assert_eq!(
        Settings::from_request(&h2c),
        Settings::Http1 {
            keep_alive: true,
            wants_h1_upgrade: false,
            was_absolute_form: false,
        }
    );
    let mut connect = head();
    connect.connect = true;
    assert!(matches!(
        Settings::from_request(&connect),
        Settings::Http1 { wants_h1_upgrade: true, .. }
    ));
    connect.version = Version::Http10;
    assert!(matches!(
        Settings::from_request(&connect),
        Settings::Http1 { wants_h1_upgrade: false, .. }
    ));
}

trait IntoNamed {
    fn into_named(self) -> Named;
}

impl IntoNamed for Addr {
    fn into_named(self) -> Named {
        Named::Addr(self)
    }
}

#[test]
fn outbound_key_prefers_override_then_authority_then_host_then_socket() {
    let target = RequestTarget::from(accepted());
    let mut req = head();
    let key = target.key(&req).unwrap();
    assert_eq!(key.addr, Addr::Socket(socket(9, 8080)));
    assert_eq!(key.inner.addr, socket(9, 8080));
    assert_eq!(key.inner.identity, no_discovery_identity());
    assert_eq!(key.inner.metadata.protocol_hint(), ProtocolHint::Unknown);
    assert!(key.inner.metadata.labels().is_empty());
    assert_eq!(key.inner.settings, Settings::from_request(&req));

    req.host = named("host.ns", 80).into_named();
    assert_eq!(target.key(&req).unwrap().addr, named("host.ns", 80));
    req.authority = named("authority.ns", 8080).into_named();
    assert_eq!(target.key(&req).unwrap().addr, named("authority.ns", 8080));
    req.dst_override = named("override.ns", 9090).into_named();
    assert_eq!(target.key(&req).unwrap().addr, named("override.ns", 9090));
    // A header that holds no address is passed over.
    req.dst_override = Named::Invalid;
    assert_eq!(target.key(&req).unwrap().addr, named("authority.ns", 8080));

    req.require_identity = Some(Name("server.ns".to_string()));
    let key = target.key(&req).unwrap();
    assert_eq!(
        key.inner.identity,
        PeerIdentity::Known(Name("server.ns".to_string()))
    );
    // The endpoint is the one that the connection was for, whatever is named.
    assert_eq!(key.inner.addr, socket(9, 8080));
}

#[test]
fn requests_with_the_same_head_have_the_same_key() {
    let target = RequestTarget::from(accepted());
    let mut req = head();
    req.authority = named("web.ns", 80).into_named();
    let first = target.key(&req).unwrap();
    let second = target.key(&req.clone()).unwrap();
    assert_eq!(first.addr, second.addr);
    assert_eq!(first.inner, second.inner);
}

#[test]
fn endpoints_are_equal_without_regard_to_metadata() {
    let endpoint = |metadata: Metadata| HttpEndpoint {
        addr: socket(3, 80),
        settings: Settings::Http2,
        identity: no_discovery_identity(),
        metadata,
    };
    let plain = endpoint(Metadata::empty());
    let labelled = endpoint(Metadata::new(
        vec![("zone".to_string(), "a".to_string())],
        ProtocolHint::Http2,
        None,
    ));
    assert_eq!(plain, labelled);
    let mut moved = endpoint(Metadata::empty());
    moved.addr = socket(4, 80);
    assert_ne!(plain, moved);
    let mut other_settings = endpoint(Metadata::empty());
    other_settings.settings = Settings::NotHttp;
    assert_ne!(plain, other_settings);
    let mut identified = endpoint(Metadata::empty());
    identified.identity = PeerIdentity::Known(Name("a".to_string()));
    assert_ne!(plain, identified);
}

fn http1(wants_h1_upgrade: bool, was_absolute_form: bool) -> Settings {
    Settings::Http1 {
        keep_alive: true,
        wants_h1_upgrade,
        was_absolute_form,
    }
}

fn discovered(settings: Settings, hint: ProtocolHint) -> HttpEndpoint {
    HttpEndpoint {
        addr: socket(3, 80),
        settings,
        identity: no_discovery_identity(),
        metadata: Metadata::new(vec![], hint, None),
    }
}

#[test]
fn orig_proto_is_used_only_on_a_hint_and_without_upgrade() {
    assert!(discovered(http1(false, false), ProtocolHint::Http2).can_use_orig_proto());
    assert!(!discovered(http1(true, false), ProtocolHint::Http2).can_use_orig_proto());
    assert!(!discovered(http1(false, false), ProtocolHint::Unknown).can_use_orig_proto());
    assert!(!discovered(Settings::Http2, ProtocolHint::Http2).can_use_orig_proto());
    assert!(!discovered(Settings::NotHttp, ProtocolHint::Http2).can_use_orig_proto());
}

#[test]
fn upgrade_makes_the_inner_service_for_http2() {
    let make = orig_proto_upgrade::layer().layer(|endpoint: HttpEndpoint| endpoint.settings);
    match make.make(discovered(http1(false, true), ProtocolHint::Http2)) {
        Either::A(upgrade) => {
            assert_eq!(upgrade.inner, Settings::Http2);
            assert!(!upgrade.absolute_form);
        }
        Either::B(_) => panic!("the endpoint can be upgraded"),
    }
    match make.make(discovered(http1(true, true), ProtocolHint::Http2)) {
        Either::B(inner) => assert_eq!(inner, http1(true, true)),
        Either::A(_) => panic!("the endpoint cannot be upgraded"),
    }
    let (can, endpoint) = make.call(discovered(http1(false, false), ProtocolHint::Http2));
    assert!(can);
    assert_eq!(endpoint.settings, Settings::Http2);
    let future = orig_proto_upgrade::MakeFuture {
        can_upgrade: false,
        inner: (),
    };
    assert!(matches!(future.made(5u8), Either::B(5)));
}

#[test]
fn uri_is_normalized_for_origin_form_http1() {
    let target = |settings: Settings| Target {
        addr: named("web.ns", 80),
        inner: discovered(settings, ProtocolHint::Unknown),
    };
    assert_eq!(
        target(http1(false, false)).should_normalize_uri(),
        Some(&named("web.ns", 80))
    );
    assert_eq!(target(http1(false, true)).should_normalize_uri(), None);
    assert_eq!(target(Settings::Http2).should_normalize_uri(), None);
    assert_eq!(target(Settings::Http2).http_settings(), &Settings::Http2);
}

#[test]
fn discovered_endpoint_takes_identity_from_metadata() {
    let target = Target {
        addr: named("web.ns", 80),
        inner: Settings::Http2,
    };
    let metadata = Metadata::new(
        vec![("pod".to_string(), "web-1".to_string())],
        ProtocolHint::Http2,
        Some(Name("web.ns.identity".to_string())),
    );
    let endpoint = FromMetadata.map_endpoint(&target, socket(7, 8080), metadata);
    assert_eq!(endpoint.addr, named("web.ns", 80));
    assert_eq!(endpoint.inner.addr, socket(7, 8080));
    assert_eq!(endpoint.inner.settings, Settings::Http2);
    assert_eq!(
        endpoint.inner.identity,
        PeerIdentity::Known(Name("web.ns.identity".to_string()))
    );
    let labels = endpoint.clone().into_labels();
    assert_eq!(labels.direction, Direction::Out);
    assert_eq!(labels.authority, Some(named("web.ns", 80)));
    assert_eq!(
        labels.labels,
        Some(vec![("pod".to_string(), "web-1".to_string())])
    );
    assert!(matches!(labels.tls_id, TlsStatus::ServerId(Name(n)) if n == "web.ns.identity"));

    let anonymous = FromMetadata.map_endpoint(&target, socket(7, 8080), Metadata::empty());
    assert_eq!(anonymous.inner.identity, no_discovery_identity());
    assert_eq!(anonymous.inner.dst_labels(), Some(&vec![]));
    assert_eq!(anonymous.inner.dst_addr(), Some(socket(7, 8080)));
    assert_eq!(anonymous.inner.connect_addr(), socket(7, 8080));
    assert_eq!(anonymous.inner.display(), socket(7, 8080));
    assert!(anonymous.inner.is_outbound());
    assert_eq!(anonymous.inner.src_addr(Some(&accepted())), Some(socket(2, 51000)));
    assert_eq!(anonymous.inner.src_addr(None), None);
    assert_eq!(anonymous.inner.peer_identity(), no_discovery_identity());
    let concrete = anonymous.clone().into_concrete();
    assert_eq!(concrete.addr, named("web.ns", 80));
    assert_eq!(concrete.inner.inner, anonymous.inner);
    let mapped = anonymous.map(|endpoint: HttpEndpoint| endpoint.addr.port());
    assert_eq!(mapped.inner, 8080);
    assert_eq!(mapped.addr, named("web.ns", 80));
}

#[test]
fn tcp_endpoint_has_no_identity() {
    let endpoint = TcpEndpoint::from(socket(5, 5432));
    assert_eq!(endpoint.connect_addr(), socket(5, 5432));
    assert_eq!(
        endpoint.peer_identity(),
        PeerIdentity::Unknown(ReasonForNoIdentity::NoPeerName(ReasonForNoPeerName::NotHttp))
    );
    assert_eq!(endpoint, TcpEndpoint::from(socket(5, 5432)));
    let labels = endpoint.into_labels();
    assert_eq!(labels.direction, Direction::Out);
    assert!(labels.authority.is_none() && labels.labels.is_none());
}

#[test]
fn outbound_profile_is_keyed_by_the_target_address() {
    let target = Target {
        addr: named("web.ns", 80),
        inner: (),
    };
    let profile: Profile = TargetProfile.key(&target).unwrap();
    assert_eq!(profile.0, named("web.ns", 80));
    assert_eq!(profile.get_destination(), Some(named("web.ns", 80)));
    let route = profile.with_route(Route::empty());
    assert_eq!(route.direction, Direction::Out);
    assert_eq!(route.target, named("web.ns", 80));
    assert_eq!(route.timeout(), None);
    assert!(matches!(CanClassify::classify(&route), classify::Request::Profile(_)));
    assert_eq!(route.display(), &named("web.ns", 80));
    assert_eq!(dst::Route::duplicate(&route).target, route.target);

    let mut readdressed = target;
    assert_eq!(CanonicalizeTarget::addr(&readdressed), &named("web.ns", 80));
    CanonicalizeTarget::set_addr(&mut readdressed, named("web.ns.svc.cluster.local", 80));
    assert_eq!(readdressed.addr(), &named("web.ns.svc.cluster.local", 80));
    readdressed.set_addr(Addr::Socket(socket(1, 1)));
    assert_eq!(readdressed.addr.port(), 1);
}

#[test]
fn inbound_target_takes_the_first_name_that_is_given() {
    let target = inbound::endpoint::RequestTarget::from(accepted());
    let mut req = head();
    let plain = target.target(&req);
    assert_eq!(plain.dst_name, None);
    assert_eq!(plain.addr, socket(9, 8080));
    assert_eq!(
        plain.tls_client_id,
        PeerIdentity::Known(Name("client.ns".to_string()))
    );
    assert_eq!(plain.http_settings, Settings::from_request(&req));

    let name = |n: &str| Some(NameAddr::new(n.to_string(), 80));
    req.host = named("host.ns", 80).into_named();
    assert_eq!(target.target(&req).dst_name, name("host.ns"));
    req.authority = named("authority.ns", 80).into_named();
    assert_eq!(target.target(&req).dst_name, name("authority.ns"));
    req.dst_override = named("override.ns", 80).into_named();
    assert_eq!(target.target(&req).dst_name, name("override.ns"));
    req.dst_canonical = named("canonical.ns", 80).into_named();
    assert_eq!(target.target(&req).dst_name, name("canonical.ns"));
    // An address that is no name gives no name, whatever stands behind it.
    req.dst_canonical = Named::Addr(Addr::Socket(socket(8, 80)));
    assert_eq!(target.target(&req).dst_name, None);
    assert_eq!(
        target.key(&req).map(|t| t.addr),
        Some(socket(9, 8080))
    );
}

#[test]
fn inbound_endpoint_is_on_the_loopback() {
    let target = inbound::endpoint::RequestTarget::from(accepted()).target(&head());
    let profile = inbound::endpoint::ProfileTarget.target(&target);
    assert_eq!(profile.0, Addr::Socket(socket(9, 8080)));
    assert_eq!(
        inbound::endpoint::ProfileTarget.key(&target).map(|p| p.0),
        Some(Addr::Socket(socket(9, 8080)))
    );
    let mut with_name = target.clone();
    with_name.dst_name = Some(NameAddr::new("web.ns".to_string(), 80));
    let profile = inbound::endpoint::Profile::from(with_name.clone());
    assert_eq!(profile.0, named("web.ns", 80));
    assert_eq!(profile.get_destination(), Some(named("web.ns", 80)));
    assert_eq!(profile.with_route(Route::empty()).direction, Direction::In);

    assert!(matches!(with_name.classify(), classify::Request::Default));
    assert!(!with_name.is_outbound());
    assert_eq!(with_name.dst_addr(), Some(socket(9, 8080)));
    assert_eq!(with_name.display(), socket(9, 8080));
    assert_eq!(with_name.dst_labels(), None);
    assert_eq!(with_name.src_addr(Some(&accepted())), Some(socket(2, 51000)));
    assert_eq!(
        with_name.src_tls(None),
        PeerIdentity::Unknown(ReasonForNoIdentity::Disabled)
    );
    assert_eq!(
        with_name.src_tls(Some(&accepted())),
        PeerIdentity::Known(Name("client.ns".to_string()))
    );
    let loopback = PeerIdentity::Unknown(ReasonForNoIdentity::NoPeerName(
        ReasonForNoPeerName::Loopback,
    ));
    assert_eq!(with_name.dst_tls(), loopback);
    assert_eq!(with_name.peer_identity(), loopback);
    assert_eq!(with_name.http_settings(), &Settings::from_request(&head()));
    let labels = with_name.clone().into_labels();
    assert_eq!(labels.direction, Direction::In);
    assert_eq!(labels.dst_logical, with_name.dst_name);
    assert_eq!(labels.dst_concrete, with_name.dst_name);
    assert!(matches!(labels.tls_id, TlsStatus::ClientId(Name(n)) if n == "client.ns"));

    let endpoint = inbound::endpoint::Endpoint::from_target(with_name);
    assert_eq!(endpoint.port, 8080);
    assert_eq!(endpoint.peer_addr(), SocketAddr::new(IpAddr::V4(0x7f00_0001), 8080));
    assert_eq!(endpoint.peer_addr(), SocketAddr::loopback(8080));
    assert_eq!(endpoint.peer_identity(), loopback);
    let tcp = inbound::endpoint::Endpoint::from_addr(socket(1, 25));
    assert_eq!(tcp.settings, Settings::NotHttp);
    assert_eq!(tcp.http_settings(), &Settings::NotHttp);
    let downgrade = inbound::orig_proto_downgrade::layer().layer(|t: u8| t);
    assert_eq!(downgrade.make(3).inner, 3);
}

#[test]
fn connection_addresses() {
    let addrs = accepted().addrs;
    assert_eq!(addrs.target_addr(), socket(9, 8080));
    assert_eq!(addrs.target_addr_if_not_local(), Some(socket(9, 8080)));
    assert_eq!(addrs.peer(), socket(2, 51000));
    let direct = Addrs {
        orig_dst: None,
        ..addrs
    };
    assert_eq!(direct.target_addr(), socket(1, 4140));
    assert_eq!(direct.target_addr_if_not_local(), None);
    let to_self = Addrs {
        orig_dst: Some(socket(1, 4140)),
        ..addrs
    };
    assert_eq!(to_self.target_addr_if_not_local(), None);
    assert_eq!(named("web", 81).port(), 81);
    assert_eq!(named("web", 81).name_addr().map(|n| n.name().as_str()), Some("web"));
    assert_eq!(Addr::Socket(socket(1, 2)).name_addr(), None);
    assert_eq!(
        PeerIdentity::from_name(None, ReasonForNoPeerName::NotProvidedByRemote),
        PeerIdentity::Unknown(ReasonForNoIdentity::NoPeerName(
            ReasonForNoPeerName::NotProvidedByRemote
        ))
    );
    assert_eq!(
        PeerIdentity::from_name(Some(Name("a".to_string())), ReasonForNoPeerName::NotHttp).name(),
        Some(&Name("a".to_string()))
    );
}

#[test]
fn configuration_decides_the_stack_parameters() {
    let out = outbound::Config {
        cache_capacity: 100,
        cache_max_idle_age: 60_000,
        max_in_flight_requests: 10_000,
        service_acquisition_timeout: 3_000,
        canonicalize_timeout: 500,
        connect_timeout: 1_000,
    }
    .build();
    assert_eq!(out.balancer_cache.config.capacity, 100);
    assert_eq!(out.profile_cache.config.max_idle_age, 60_000);
    assert_eq!(out.dns_refine_cache.config, out.forward_cache.config);
    assert_eq!(out.canonicalize_timeout, 500);
    assert_eq!(out.discover_buffer, 10);
    assert_eq!(out.service_acquisition.timeout, 3_000);
    assert_eq!(out.connect_timeout.timeout, 1_000);
    assert_eq!(out.admission.0.inner.outer.max, 10_000);
    assert_eq!(outbound::EWMA_DEFAULT_RTT, 30);
    assert_eq!(outbound::EWMA_DECAY, 10_000);
    let limited = out.admission.layer("svc");
    assert_eq!(limited.get_ref().permits.capacity(), 10_000);

    let inb = inbound::Config {
        cache_capacity: 7,
        cache_max_idle_age: 9,
        max_in_flight_requests: 2,
        service_acquisition_timeout: 3,
        connect_timeout: 4,
    }
    .build();
    assert_eq!(inb.endpoint_cache.config.capacity, 7);
    assert_eq!(inb.profile_cache.config.max_idle_age, 9);
    assert_eq!(inb.service_acquisition.timeout, 3);
    assert_eq!(inb.connect_timeout.timeout, 4);
    let admitted = inb.admission.layer("svc");
    assert_eq!(admitted.get_ref().permits.capacity(), 2);
    assert_eq!(admitted.get_ref().service.get_ref().inner, "svc");
}

#[test]
fn trace_labels_name_the_direction() {
    assert_eq!(
        outbound::trace_labels(),
        vec![("direction".to_string(), "outbound".to_string())]
    );
    assert_eq!(
        inbound::trace_labels(),
        vec![("direction".to_string(), "inbound".to_string())]
    );
}

#[test]
fn transport_labels_carry_direction_and_identity() {
    let endpoint = discovered(Settings::Http2, ProtocolHint::Unknown);
    let key = outbound::TransportLabels.http_endpoint(&endpoint);
    assert_eq!((key.direction, key.peer), (Direction::Out, Peer::Dst));
    assert_eq!(key.tls_status, no_discovery_identity());
    let key = outbound::TransportLabels.tcp_endpoint(&TcpEndpoint::from(socket(1, 2)));
    assert_eq!((key.direction, key.peer), (Direction::Out, Peer::Dst));
    let peer = PeerIdentity::Known(Name("client.ns".to_string()));
    let key = outbound::TransportLabels.accepted(&peer);
    assert_eq!((key.direction, key.peer), (Direction::Out, Peer::Src));
    assert_eq!(key.tls_status, peer);
    let local = inbound::endpoint::Endpoint::from_addr(socket(1, 80));
    let key = inbound::TransportLabels.endpoint(&local);
    assert_eq!((key.direction, key.peer), (Direction::In, Peer::Dst));
    let key = inbound::TransportLabels.accepted(&peer);
    assert_eq!((key.direction, key.peer), (Direction::In, Peer::Src));
}

#[test]
fn request_head_is_read_from_its_texts() {
    let parts = HeadParts {
        version: Version::Http11,
        method: "CONNECT",
        scheme: true,
        authority: Some("Web.ns:8080"),
        host: Some(""),
        content_type: Some("application/grpc+proto"),
        upgrade: Some("h2c"),
        dst_override: Some("not a name"),
        dst_canonical: None,
        require_id: Some("Server.ns"),
    };
    let head = RequestHead::from_parts(parts);
    assert_eq!(head.version, Version::Http11);
    assert!(head.connect);
    assert_eq!(head.upgrade_h2c, Some(true));
    assert!(head.absolute_form);
    assert!(head.grpc);
    assert_eq!(head.authority.addr(), Some(&named("web.ns", 8080)));
    assert!(matches!(head.host, Named::Empty));
    assert!(matches!(head.dst_override, Named::Invalid));
    assert!(matches!(head.dst_canonical, Named::Absent));
    assert_eq!(head.require_identity, Some(Name("server.ns".to_string())));

    let plain = RequestHead::from_parts(HeadParts {
        method: "GET",
        upgrade: Some("websocket"),
        content_type: Some("text/html"),
        require_id: Some("not a name"),
        ..parts
    });
    assert!(!plain.connect);
    assert_eq!(plain.upgrade_h2c, Some(false));
    assert!(!plain.grpc);
    assert_eq!(plain.require_identity, None);
    let bare = RequestHead::from_parts(HeadParts {
        method: "connect",
        upgrade: None,
        content_type: None,
        require_id: None,
        ..parts
    });
    assert!(!bare.connect);
    assert_eq!(bare.upgrade_h2c, None);
    assert!(!bare.grpc);
}
