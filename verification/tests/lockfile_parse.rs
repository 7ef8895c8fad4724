use lcu_autopilot::lockfile::parse_lockfile;
use lcu_autopilot::lockfile::parse_port;
use lcu_autopilot::lockfile::split_fields;
use lcu_autopilot::lockfile::trim_bytes;

#[test]
fn parses_a_typical_lockfile_record() {
    let record = b"LeagueClient:8042:54321:sekrit:https\n";
    let f = parse_lockfile(record).unwrap();
    assert_eq!(f.port, 54321);
    assert_eq!(f.password, b"sekrit".to_vec());
    assert_eq!(f.protocol, b"https".to_vec());
}

#[test]
fn rejects_records_with_too_few_fields() {
    assert!(parse_lockfile(b"LeagueClient:8042:54321:sekrit").is_none());
    assert!(parse_lockfile(b"").is_none());
    assert!(parse_lockfile(b"no separators here").is_none());
}

#[test]
fn rejects_bad_port_fields() {
    assert!(parse_lockfile(b"a:b::pw:https").is_none());
    assert!(parse_lockfile(b"a:b:12x4:pw:https").is_none());
    assert!(parse_lockfile(b"a:b:65536:pw:https").is_none());
    assert!(parse_lockfile(b"a:b:65535:pw:https").is_some());
}

#[test]
fn password_is_taken_verbatim_and_protocol_trimmed() {
    let f = parse_lockfile(b"n:1:1: spaced pw :https \r\n").unwrap();
    assert_eq!(f.password, b" spaced pw ".to_vec());
    assert_eq!(f.protocol, b"https".to_vec());
}

#[test]
fn extra_fields_are_tolerated() {
    let f = parse_lockfile(b"n:1:443:pw:https:extra:more").unwrap();
    assert_eq!(f.port, 443);
    assert_eq!(f.protocol, b"https".to_vec());
}

#[test]
fn split_keeps_empty_fields() {
    let parts = split_fields(b"a::b:");
    assert_eq!(
        parts,
        vec![b"a".to_vec(), b"".to_vec(), b"b".to_vec(), b"".to_vec()]
    );
    assert_eq!(split_fields(b""), vec![b"".to_vec()]);
}

#[test]
fn port_parsing_is_exact_decimal() {
    assert_eq!(parse_port(&b"0".to_vec()), Some(0));
    assert_eq!(parse_port(&b"65535".to_vec()), Some(65535));
    assert_eq!(parse_port(&b"65536".to_vec()), None);
    assert_eq!(parse_port(&b"007".to_vec()), Some(7));
    assert_eq!(parse_port(&b"".to_vec()), None);
    assert_eq!(parse_port(&b"+1".to_vec()), None);
    assert_eq!(parse_port(&b"999999999999".to_vec()), None);
}

#[test]
fn trim_strips_surrounding_whitespace_only() {
    assert_eq!(trim_bytes(&b" \t x y \r\n".to_vec()), b"x y".to_vec());
    assert_eq!(trim_bytes(&b"abc".to_vec()), b"abc".to_vec());
    assert_eq!(trim_bytes(&b" \n ".to_vec()), b"".to_vec());
    assert_eq!(trim_bytes(&b"".to_vec()), b"".to_vec());
}
