use linkerd2_proxy::addr::authority::{from_authority_and_default_port, DEFAULT_PORT};
use linkerd2_proxy::addr::{Addr, IpAddr, NameAddr, SocketAddr};
use linkerd2_proxy::proxy::http::settings::Named;
use linkerd2_proxy::transport::Name;

fn parse(text: &str) -> Option<Addr> {
    from_authority_and_default_port(text, DEFAULT_PORT)
}

fn named(name: &str, port: u16) -> Option<Addr> {
    Some(Addr::Name(NameAddr::new(name.to_string(), port)))
}

fn socket(ip: u32, port: u16) -> Option<Addr> {
    Some(Addr::Socket(SocketAddr::new(IpAddr::V4(ip), port)))
}

#[test]
fn names_with_and_without_port() {
    assert_eq!(parse("web"), named("web", 80));
    assert_eq!(parse("web:8080"), named("web", 8080));
    assert_eq!(parse("web.ns.svc.cluster.local:80"), named("web.ns.svc.cluster.local", 80));
    assert_eq!(parse("web.example.com."), named("web.example.com.", 80));
    assert_eq!(parse("my_svc-1.ns:1"), named("my_svc-1.ns", 1));
    assert_eq!(parse("web:0"), named("web", 0));
    assert_eq!(parse("web:65535"), named("web", 65535));
    assert_eq!(parse("web:00080"), named("web", 80));
    assert_eq!(from_authority_and_default_port("web", 443), named("web", 443));
}

#[test]
fn names_are_taken_in_lower_case() {
    assert_eq!(parse("Web.Example.COM:8080"), named("web.example.com", 8080));
    assert_eq!(parse("WEB"), parse("web"));
}

#[test]
fn ipv4_addresses() {
    assert_eq!(parse("10.1.2.3:8080"), socket(0x0a01_0203, 8080));
    assert_eq!(parse("127.0.0.1"), socket(0x7f00_0001, 80));
    assert_eq!(parse("0.0.0.0:1"), socket(0, 1));
    assert_eq!(parse("255.255.255.255:65535"), socket(u32::MAX, 65535));
    // What is no dotted quad may still be a name.
    assert_eq!(parse("256.1.1.1"), named("256.1.1.1", 80));
    assert_eq!(parse("1.2.3"), named("1.2.3", 80));
    assert_eq!(parse("01.2.3.4"), named("01.2.3.4", 80));
    assert_eq!(parse("1.2.3.4.5"), named("1.2.3.4.5", 80));
    assert_eq!(parse("1.2.3.:81"), named("1.2.3.", 81));
}

fn socket6(ip: u128, port: u16) -> Option<Addr> {
    Some(Addr::Socket(SocketAddr::new(IpAddr::V6(ip), port)))
}

#[test]
fn ipv6_addresses_stand_in_brackets() {
    assert_eq!(parse("[::1]:8080"), socket6(1, 8080));
    assert_eq!(parse("[::]"), socket6(0, 80));
    assert_eq!(parse("[::1]"), socket6(1, 80));
    assert_eq!(parse("[1::]:1"), socket6(1 << 112, 1));
    assert_eq!(
        parse("[fe80::1]"),
        socket6(0xfe80_0000_0000_0000_0000_0000_0000_0001, 80)
    );
    assert_eq!(
        parse("[1:2:3:4:5:6:7:8]:9"),
        socket6(0x0001_0002_0003_0004_0005_0006_0007_0008, 9)
    );
    assert_eq!(
        parse("[2001:DB8::ff00:42:8329]:443"),
        socket6(0x2001_0db8_0000_0000_0000_ff00_0042_8329, 443)
    );
    assert_eq!(
        parse("[1:2:3:4:5:6:7::]"),
        socket6(0x0001_0002_0003_0004_0005_0006_0007_0000, 80)
    );
    assert_eq!(
        parse("[::2:3:4:5:6:7:8]"),
        socket6(0x0000_0002_0003_0004_0005_0006_0007_0008, 80)
    );
    assert_eq!(
        parse("[ffff:ffff:ffff:ffff:ffff:ffff:ffff:ffff]:65535"),
        socket6(u128::MAX, 65535)
    );
    assert_eq!(parse("[0001:0:00:000::]"), socket6(1 << 112, 80));
}

#[test]
fn what_is_no_address() {
    for text in [
        "",
        ":80",
        "web:",
        "web:http",
        "web:65536",
        "web:+80",
        "web:-1",
        "web:8 0",
        ".web",
        "web..ns",
        "web/ns",
        "web ns",
        "w\u{e9}b",
        "[::1",
        "::1",
        "[]",
        "[:]",
        "[:::]",
        "[1:2:3:4:5:6:7]",
        "[1:2:3:4:5:6:7:8:9]",
        "[1:2:3:4:5:6:7::8]",
        "[1::2::3]",
        "[12345::]",
        "[::g]",
        "[::1]x",
        "[::1]:",
        "[::1]:65536",
        "[1.2.3.4]",
        "[web]",
        "user@web",
    ] {
        assert_eq!(parse(text), None, "{:?}", text);
    }
}

#[test]
fn labels_and_names_are_bounded() {
    let label = |n: usize| "a".repeat(n);
    assert_eq!(parse(&label(63)), named(&label(63), 80));
    assert_eq!(parse(&label(64)), None);
    let long = format!("{}.{}.{}.{}", label(63), label(63), label(63), label(61));
    assert_eq!(long.len(), 253);
    assert_eq!(parse(&long), named(&long, 80));
    let too_long = format!("{}.{}.{}.{}", label(63), label(63), label(63), label(62));
    assert_eq!(parse(&too_long), None);
    let with_port = format!("{}.{}:9", label(63), label(64));
    assert_eq!(parse(&with_port), None);
}

#[test]
fn headers_name_addresses() {
    assert!(matches!(Named::from_header(None), Named::Absent));
    assert!(matches!(Named::from_header(Some("")), Named::Empty));
    assert!(matches!(Named::from_header(Some("not a name")), Named::Invalid));
    let named = Named::from_header(Some("Web.ns:8080"));
    assert_eq!(
        named.addr(),
        Some(&Addr::Name(NameAddr::new("web.ns".to_string(), 8080)))
    );
    assert!(named.is_named());
    assert!(Named::Invalid.is_named());
    assert!(!Named::Empty.is_named());
    assert_eq!(Named::Invalid.addr(), None);
    let literal = Named::from_header(Some("10.0.0.1"));
    assert_eq!(
        literal.addr(),
        Some(&Addr::Socket(SocketAddr::new(IpAddr::V4(0x0a00_0001), 80)))
    );
}

#[test]
fn identities_are_dns_names() {
    assert_eq!(
        Name::from_hostname("Web.ns.ServiceAccount.identity.linkerd.cluster.local"),
        Some(Name(
            "web.ns.serviceaccount.identity.linkerd.cluster.local".to_string()
        ))
    );
    assert_eq!(Name::from_hostname(""), None);
    assert_eq!(Name::from_hostname("web:80"), None);
    assert_eq!(Name::from_hostname("web..ns"), None);
    assert_eq!(Name::from_hostname("w\u{e9}b"), None);
}
