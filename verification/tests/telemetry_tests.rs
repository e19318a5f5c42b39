use update_core::telemetry::{is_disabled, ServerProbe};
use update_core::text::u64_from_dec;

fn probe(address: &str, answered: bool) -> ServerProbe {
    ServerProbe {
        address: address.to_string(),
        answered,
    }
}

#[test]
fn no_answering_server_means_disabled() {
    let probes = vec![probe("log.example.com", false), probe("sg.example.com", false)];
    assert_eq!(is_disabled(&probes), None);
    assert_eq!(is_disabled(&Vec::new()), None);
}

#[test]
fn first_answering_server_is_reported() {
    let probes = vec![
        probe("log.example.com", false),
        probe("sg.example.com", true),
        probe("other.example.com", true),
    ];
    assert_eq!(is_disabled(&probes), Some("sg.example.com".to_string()));
}

#[test]
fn decimal_parser_handles_bounds() {
    assert_eq!(u64_from_dec(&b"0".to_vec()), Some(0));
    assert_eq!(u64_from_dec(&b"18446744073709551615".to_vec()), Some(u64::MAX));
    assert_eq!(u64_from_dec(&b"18446744073709551616".to_vec()), None);
    assert_eq!(u64_from_dec(&b"".to_vec()), None);
    assert_eq!(u64_from_dec(&b"12x3".to_vec()), None);
    assert_eq!(u64_from_dec(&b"007".to_vec()), Some(7));
}
