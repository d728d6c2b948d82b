use tailscale_identity::addresses::canonical_addresses;
use tailscale_identity::ip::{ip_less, IpValue};
use tailscale_identity::report::{SelfNode, StatusReport};
use tailscale_identity::tailscale::{
    interpret_status_output, parse_tailscale_status_json, read_addresses, resolve_entry,
    spawn_failure, validate_status, TailscaleError,
};
use tailscale_identity::text::{choose_details, failure_details, normalize_dns_name};

fn strings(items: &[&str]) -> Vec<String> {
    items.iter().map(|s| s.to_string()).collect()
}

fn texts(ips: &[IpValue]) -> Vec<String> {
    ips.iter().map(|ip| ip.to_text()).collect()
}

fn ips(items: &[&str]) -> Vec<IpValue> {
    items.iter().map(|s| IpValue::parse(s).unwrap()).collect()
}

#[test]
fn parse_tailscale_status_json_extracts_ips_and_dns_name() {
    let payload = br#"{
            "Self": {
                "DNSName": "host-name.tailnet.ts.net.",
                "TailscaleIPs": ["100.101.102.103", "fd7a:115c:a1e0::1234"]
            }
        }"#;

    let parsed =
        parse_tailscale_status_json(payload).expect("expected valid tailscale status json");

    assert_eq!(parsed.ips.len(), 2);
    assert_eq!(parsed.ips[0].to_text(), "100.101.102.103");
    assert_eq!(parsed.ips[1].to_text(), "fd7a:115c:a1e0::1234");
    assert_eq!(parsed.dns_name.as_deref(), Some("host-name.tailnet.ts.net"));
}

#[test]
fn parse_tailscale_status_json_requires_ips() {
    let payload = br#"{"Self":{"DNSName":"host.tailnet.ts.net.","TailscaleIPs":[]}}"#;
    let err = parse_tailscale_status_json(payload)
        .expect_err("expected missing tailscale ips to fail");
    assert!(err.message().contains("No Tailscale IPs found"));
}

#[test]
fn parse_tailscale_status_json_requires_self_node() {
    let payload = br#"{"BackendState":"Running"}"#;
    let err =
        parse_tailscale_status_json(payload).expect_err("expected missing self node to fail");
    assert!(
        err.message()
            .contains("did not include `Self` node information")
    );
}

#[test]
fn no_addresses_is_its_own_error() {
    let payload = br#"{"Self":{"DNSName":"host.tailnet.ts.net.","TailscaleIPs":[]}}"#;
    let err = parse_tailscale_status_json(payload).unwrap_err();
    assert!(matches!(err, TailscaleError::NoAddressesFound));
}

#[test]
fn missing_self_is_its_own_error() {
    let err = parse_tailscale_status_json(br#"{"BackendState":"Running"}"#).unwrap_err();
    assert!(matches!(err, TailscaleError::MissingSelfNode));
}

#[test]
fn null_self_counts_as_missing() {
    let err = parse_tailscale_status_json(br#"{"Self":null}"#).unwrap_err();
    assert!(matches!(err, TailscaleError::MissingSelfNode));
}

#[test]
fn absent_address_field_means_no_addresses() {
    let err = parse_tailscale_status_json(br#"{"Self":{"DNSName":"a.b."}}"#).unwrap_err();
    assert!(matches!(err, TailscaleError::NoAddressesFound));
}

#[test]
fn invalid_json_is_a_decode_error() {
    let err = parse_tailscale_status_json(b"{not json").unwrap_err();
    assert!(matches!(err, TailscaleError::Decode(_)));
    assert!(err
        .message()
        .starts_with("Failed to parse `tailscale status --json` output: "));
    assert!(err.message().contains("at line 1 column"));
    let serde_text = serde_json::from_slice::<serde_json::Value>(b"{not json")
        .unwrap_err()
        .to_string();
    match &err {
        TailscaleError::Decode(d) => assert_eq!(d, &serde_text),
        other => panic!("unexpected error kind: {:?}", other),
    }
}

#[test]
fn non_string_address_is_a_decode_error() {
    let err = parse_tailscale_status_json(br#"{"Self":{"TailscaleIPs":[7]}}"#).unwrap_err();
    assert!(matches!(err, TailscaleError::Decode(_)));
}

#[test]
fn non_array_addresses_is_a_decode_error() {
    let err = parse_tailscale_status_json(br#"{"Self":{"TailscaleIPs":"1.2.3.4"}}"#).unwrap_err();
    assert!(matches!(err, TailscaleError::Decode(_)));
}

#[test]
fn non_object_self_is_a_decode_error() {
    let err = parse_tailscale_status_json(br#"{"Self":[1]}"#).unwrap_err();
    assert!(matches!(err, TailscaleError::Decode(_)));
}

#[test]
fn non_object_document_is_a_decode_error() {
    let err = parse_tailscale_status_json(b"[]").unwrap_err();
    assert!(matches!(err, TailscaleError::Decode(_)));
}

#[test]
fn non_string_dns_name_is_a_decode_error() {
    let err = parse_tailscale_status_json(br#"{"Self":{"TailscaleIPs":["1.2.3.4"],"DNSName":5}}"#)
        .unwrap_err();
    assert!(matches!(err, TailscaleError::Decode(_)));
}

#[test]
fn null_or_absent_dns_name_is_absent() {
    let a = parse_tailscale_status_json(br#"{"Self":{"TailscaleIPs":["1.2.3.4"],"DNSName":null}}"#)
        .unwrap();
    assert_eq!(a.dns_name, None);
    let b = parse_tailscale_status_json(br#"{"Self":{"TailscaleIPs":["1.2.3.4"]}}"#).unwrap();
    assert_eq!(b.dns_name, None);
}

#[test]
fn unknown_fields_are_ignored() {
    let payload = br#"{"Version":"1.2","Self":{"ID":"x","TailscaleIPs":["10.0.0.1"],"Online":true},"Peer":{}}"#;
    let info = parse_tailscale_status_json(payload).unwrap();
    assert_eq!(texts(&info.ips), strings(&["10.0.0.1"]));
}

#[test]
fn root_dot_alone_gives_no_dns_name() {
    let info =
        parse_tailscale_status_json(br#"{"Self":{"DNSName":".","TailscaleIPs":["1.2.3.4"]}}"#)
            .unwrap();
    assert_eq!(info.dns_name, None);
    assert_eq!(normalize_dns_name(Some(".".to_string())), None);
}

#[test]
fn only_one_root_dot_is_stripped() {
    assert_eq!(
        normalize_dns_name(Some("host.ts.net..".to_string())),
        Some("host.ts.net.".to_string())
    );
    assert_eq!(
        normalize_dns_name(Some("host.ts.net".to_string())),
        Some("host.ts.net".to_string())
    );
}

#[test]
fn dns_name_is_trimmed_after_the_dot() {
    assert_eq!(
        normalize_dns_name(Some("  host.ts.net .".to_string())),
        Some("host.ts.net".to_string())
    );
    assert_eq!(normalize_dns_name(Some(" \t.".to_string())), None);
    assert_eq!(normalize_dns_name(Some(String::new())), None);
    assert_eq!(normalize_dns_name(None), None);
}

#[test]
fn duplicate_addresses_are_kept_once() {
    let info = parse_tailscale_status_json(
        br#"{"Self":{"TailscaleIPs":["1.2.3.4","1.2.3.4"]}}"#,
    )
    .unwrap();
    assert_eq!(texts(&info.ips), strings(&["1.2.3.4"]));
}

#[test]
fn addresses_sort_v4_before_v6_then_by_value() {
    let input = ips(&["fd7a::2", "2001:db8::1", "9.9.9.9", "10.0.0.1", "fd7a::2", "10.0.0.1"]);
    let out = canonical_addresses(&input);
    assert_eq!(texts(&out), strings(&["9.9.9.9", "10.0.0.1", "2001:db8::1", "fd7a::2"]));
}

#[test]
fn canonical_addresses_is_idempotent() {
    let input = ips(&["10.0.0.2", "::1", "10.0.0.1", "10.0.0.2", "::"]);
    let once = canonical_addresses(&input);
    let twice = canonical_addresses(&once);
    assert_eq!(once, twice);
    assert_eq!(once.len(), 4);
}

#[test]
fn canonical_addresses_of_nothing_is_empty() {
    assert!(canonical_addresses(&Vec::new()).is_empty());
}

#[test]
fn two_spellings_of_one_address_are_kept_once() {
    let info = parse_tailscale_status_json(
        br#"{"Self":{"TailscaleIPs":["fd7a::1","fd7a:0::1","1.2.3.4"]}}"#,
    )
    .unwrap();
    assert_eq!(texts(&info.ips), strings(&["1.2.3.4", "fd7a::1"]));
}

#[test]
fn invalid_address_text_is_a_decode_error() {
    let err = parse_tailscale_status_json(br#"{"Self":{"TailscaleIPs":["1.2.3.4","host"]}}"#)
        .unwrap_err();
    match &err {
        TailscaleError::Decode(d) => {
            assert_eq!(d, "`TailscaleIPs` holds a text that is no IP address")
        }
        other => panic!("unexpected error kind: {:?}", other),
    }
}

#[test]
fn ip_values_read_and_write_text() {
    assert_eq!(IpValue::parse("1.2.3.4"), Some(IpValue::V4(0x01020304)));
    assert_eq!(IpValue::parse("::1"), Some(IpValue::V6(1)));
    assert_eq!(IpValue::parse("fd7a:0::1"), IpValue::parse("fd7a::1"));
    assert_eq!(IpValue::parse("1.2.3"), None);
    assert_eq!(IpValue::parse(""), None);
    assert_eq!(IpValue::V4(0x64656667).to_text(), "100.101.102.103");
    assert_eq!(IpValue::V6(1).to_text(), "::1");
}

#[test]
fn read_addresses_stops_at_a_bad_text() {
    assert_eq!(read_addresses(&strings(&["::1", "x"])), None);
    assert_eq!(read_addresses(&strings(&["::1", "0.0.0.0"])), Some(vec![IpValue::V6(1), IpValue::V4(0)]));
}

#[test]
fn resolve_entry_needs_an_address() {
    assert!(matches!(resolve_entry(Vec::new(), None), Err(TailscaleError::NoAddressesFound)));
    let info = resolve_entry(vec![IpValue::V6(5), IpValue::V4(7), IpValue::V6(5)], Some("n.".to_string())).unwrap();
    assert_eq!(info.ips, vec![IpValue::V4(7), IpValue::V6(5)]);
    assert_eq!(info.dns_name.as_deref(), Some("n"));
}

#[test]
fn parsing_twice_gives_the_same_identity() {
    let payload = br#"{"Self":{"DNSName":"x.y.","TailscaleIPs":["fd00::1","100.64.0.1","100.64.0.1"]}}"#;
    let a = parse_tailscale_status_json(payload).unwrap();
    let b = parse_tailscale_status_json(payload).unwrap();
    assert_eq!(a.ips, b.ips);
    assert_eq!(a.dns_name, b.dns_name);
    assert_eq!(texts(&a.ips), strings(&["100.64.0.1", "fd00::1"]));
}

#[test]
fn order_primitives() {
    assert!(ip_less(&IpValue::V4(9), &IpValue::V4(10)));
    assert!(!ip_less(&IpValue::V4(10), &IpValue::V4(10)));
    assert!(ip_less(&IpValue::V4(u32::MAX), &IpValue::V6(0)));
    assert!(!ip_less(&IpValue::V6(0), &IpValue::V4(0)));
    assert!(ip_less(&IpValue::V6(1), &IpValue::V6(u128::MAX)));
}

#[test]
fn validate_status_direct() {
    let report = StatusReport {
        self_node: Some(SelfNode {
            ips: strings(&["fd7a:115c:a1e0::1234", "100.101.102.103"]),
            dns_name: Some("host-name.tailnet.ts.net.".to_string()),
        }),
    };
    let info = validate_status(report).unwrap();
    assert_eq!(texts(&info.ips), strings(&["100.101.102.103", "fd7a:115c:a1e0::1234"]));
    assert_eq!(info.dns_name.as_deref(), Some("host-name.tailnet.ts.net"));
    assert!(matches!(
        validate_status(StatusReport { self_node: None }),
        Err(TailscaleError::MissingSelfNode)
    ));
}

#[test]
fn failure_falls_back_to_stdout() {
    let err = interpret_status_output(false, b"unexpected error", b"").unwrap_err();
    match &err {
        TailscaleError::ToolFailed(d) => assert_eq!(d, "unexpected error"),
        other => panic!("unexpected error kind: {:?}", other),
    }
    assert_eq!(err.message(), "`tailscale status --json` failed: unexpected error");
}

#[test]
fn failure_prefers_stderr() {
    assert_eq!(failure_details(b"  denied\n", b"output"), "denied");
    assert_eq!(
        choose_details("e".to_string(), "o".to_string()),
        "e".to_string()
    );
}

#[test]
fn failure_with_blank_streams_uses_fixed_notice() {
    assert_eq!(
        failure_details(b" \n", b"\t"),
        "tailscale returned a non-zero exit code"
    );
}

#[test]
fn failure_text_is_decoded_lossily() {
    assert_eq!(failure_details(b"bad \xff byte", b""), "bad \u{fffd} byte");
}

#[test]
fn successful_run_is_parsed() {
    let info =
        interpret_status_output(true, br#"{"Self":{"TailscaleIPs":["1.2.3.4"]}}"#, b"ignored")
            .unwrap();
    assert_eq!(texts(&info.ips), strings(&["1.2.3.4"]));
    let err = interpret_status_output(true, b"oops", b"").unwrap_err();
    assert!(matches!(err, TailscaleError::Decode(_)));
}

#[test]
fn spawn_failures() {
    let e = spawn_failure(true, "No such file".to_string());
    assert!(matches!(e, TailscaleError::ToolNotFound));
    assert!(e.message().contains("Could not find the `tailscale` binary in PATH"));
    let e = spawn_failure(false, "permission denied".to_string());
    match &e {
        TailscaleError::SpawnFailed(r) => assert_eq!(r, "permission denied"),
        other => panic!("unexpected error kind: {:?}", other),
    }
    assert_eq!(
        e.message(),
        "Failed to execute `tailscale status --json`: permission denied"
    );
}
