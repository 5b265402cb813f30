use quic_echo::protocol::{alpn_protocol, probe_payload, protocol_label};
use quic_echo::route::{detail_label, parse_route_output, preferred_source, route_probe_args};
use quic_echo::trust::{
    needs_chain_validation, peer_verdict, CertRejection, ChainCheck, PeerVerdict, TrustPolicy,
};

#[test]
fn insecure_policy_accepts_self_signed() {
    let self_signed = ChainCheck::Invalid(CertRejection::UnknownIssuer);
    assert_eq!(peer_verdict(TrustPolicy::InsecureSkipVerification, self_signed), PeerVerdict::Accepted);
    assert_eq!(
        peer_verdict(TrustPolicy::Standard, self_signed),
        PeerVerdict::Rejected(CertRejection::UnknownIssuer)
    );
}

#[test]
fn standard_policy_follows_validation() {
    assert_eq!(peer_verdict(TrustPolicy::Standard, ChainCheck::Valid), PeerVerdict::Accepted);
    assert_eq!(
        peer_verdict(TrustPolicy::Standard, ChainCheck::Invalid(CertRejection::Expired)),
        PeerVerdict::Rejected(CertRejection::Expired)
    );
    assert_eq!(
        peer_verdict(TrustPolicy::Standard, ChainCheck::NotRun),
        PeerVerdict::Rejected(CertRejection::NotValidated)
    );
    assert!(needs_chain_validation(TrustPolicy::Standard));
    assert!(!needs_chain_validation(TrustPolicy::InsecureSkipVerification));
}

#[test]
fn protocol_constants_as_bytes() {
    assert_eq!(alpn_protocol(), b"freven-quic-test".to_vec());
    assert_eq!(probe_payload(), b"ping".to_vec());
}

#[test]
fn protocol_label_cases() {
    assert_eq!(protocol_label(Some(b"freven-quic-test".to_vec())), "freven-quic-test");
    assert_eq!(protocol_label(None), "<none>");
    assert_eq!(protocol_label(Some(vec![b'a', 0xff, b'b'])), "a\u{fffd}b");
}

#[test]
fn route_args_ipv4_and_ipv6() {
    assert_eq!(route_probe_args("192.0.2.1"), vec!["-o", "-4", "route", "get", "192.0.2.1"]);
    assert_eq!(route_probe_args("2001:db8::1"), vec!["-o", "-6", "route", "get", "2001:db8::1"]);
}

#[test]
fn route_output_with_src() {
    let out = "192.0.2.1 via 10.0.0.1 dev eth0 src 10.0.0.5 uid 1000 \\    cache";
    let info = parse_route_output(out);
    assert_eq!(info.interface.as_deref(), Some("eth0"));
    assert_eq!(info.source.as_deref(), Some("10.0.0.5"));
}

#[test]
fn route_output_with_from_only() {
    let out = "2001:db8::1 from :: via fe80::1 dev wlan0 proto ra metric 600 pref medium";
    let info = parse_route_output(out);
    assert_eq!(info.interface.as_deref(), Some("wlan0"));
    assert_eq!(info.source.as_deref(), Some("::"));
}

#[test]
fn route_output_without_details() {
    let info = parse_route_output("RTNETLINK answers: Network is unreachable");
    assert_eq!(info.interface, None);
    assert_eq!(info.source, None);
    let info = parse_route_output("");
    assert_eq!(info.interface, None);
}

#[test]
fn route_keyword_needs_word_boundary() {
    let info = parse_route_output("10.0.0.9 via 10.0.0.1 mydev eth1 xsrc 1.2.3.4");
    assert_eq!(info.interface, None);
    assert_eq!(info.source, None);
}

#[test]
fn preferred_source_order() {
    assert_eq!(preferred_source(Some("a".into()), Some("b".into())), Some("a".to_string()));
    assert_eq!(preferred_source(None, Some("b".into())), Some("b".to_string()));
    assert_eq!(preferred_source(None, None), None);
}

#[test]
fn detail_label_cases() {
    assert_eq!(detail_label(Some("eth0".to_string())), "eth0");
    assert_eq!(detail_label(None), "unknown");
}
