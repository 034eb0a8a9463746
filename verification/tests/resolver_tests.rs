use ygege::resolver::{after_fallback_lookup, after_system_lookup, with_https_port, IpAddress, LookupStep, SocketTarget};

#[test]
fn lookups_fall_back_and_use_https() {
    let ips = vec![IpAddress::V4(192, 0, 2, 1), IpAddress::V6(0x2001, 0xdb8, 0, 0, 0, 0, 0, 1)];
    let targets = with_https_port(&ips);
    assert_eq!(targets[0], SocketTarget { ip: IpAddress::V4(192, 0, 2, 1), port: 443 });
    assert_eq!(targets.len(), 2);
    assert!(matches!(after_system_lookup(Err("nx".into())), LookupStep::AskFallback));
    assert!(matches!(after_system_lookup(Ok(ips.clone())), LookupStep::Resolved(ref v) if v.len() == 2));
    assert_eq!(after_fallback_lookup(Err("servfail".into())), Err("servfail".to_string()));
    assert_eq!(after_fallback_lookup(Ok(vec![])), Ok(vec![]));
}
