use dns_monitor::check::cert::{check, days_left, days_remaining, endpoint};
use dns_monitor::check::Address;

const DAY: i64 = 86_400;

/// A value in DER: its tag, its length and its content.
fn tlv(tag: u8, content: &[u8]) -> Vec<u8> {
    let mut out = vec![tag];
    if content.len() < 128 {
        out.push(content.len() as u8);
    } else {
        out.push(0x82);
        out.extend_from_slice(&(content.len() as u16).to_be_bytes());
    }
    out.extend_from_slice(content);
    out
}

/// A certificate that says little more than when it expires.
fn certificate(not_after: &str) -> Vec<u8> {
    let sha256_rsa = [
        tlv(0x06, &[0x2a, 0x86, 0x48, 0x86, 0xf7, 0x0d, 0x01, 0x01, 0x0b]),
        tlv(0x05, &[]),
    ]
    .concat();
    let rsa = [
        tlv(0x06, &[0x2a, 0x86, 0x48, 0x86, 0xf7, 0x0d, 0x01, 0x01, 0x01]),
        tlv(0x05, &[]),
    ]
    .concat();
    let validity = [tlv(0x17, b"200101000000Z"), tlv(0x17, not_after.as_bytes())].concat();
    let key = [tlv(0x30, &rsa), tlv(0x03, &[0, 0x30, 0])].concat();
    let body = [
        tlv(0xa0, &tlv(0x02, &[2])),
        tlv(0x02, &[1]),
        tlv(0x30, &sha256_rsa),
        tlv(0x30, &[]),
        tlv(0x30, &validity),
        tlv(0x30, &[]),
        tlv(0x30, &key),
    ]
    .concat();
    let whole = [tlv(0x30, &body), tlv(0x30, &sha256_rsa), tlv(0x03, &[0, 0])].concat();
    tlv(0x30, &whole)
}

/// Midnight on the first of January 2030, in seconds since the Unix epoch.
const NEW_YEAR_2030: i64 = 1_893_456_000;

#[test]
fn certificate_is_asked_for_at_the_resolved_address() {
    assert_eq!(endpoint(Address::V6(7)), (Address::V6(7), 443));
}

#[test]
fn days_are_counted_to_the_end_of_the_leaf() {
    let chain = vec![certificate("300101000000Z"), certificate("490101000000Z")];
    let days = days_remaining(Ok(Some(chain)), Ok(NEW_YEAR_2030 - 30 * DAY));
    assert_eq!(days, Ok(30));
}

#[test]
fn days_are_whole() {
    assert_eq!(days_left(Ok(DAY - 1), Ok(0)), Ok(0));
    assert_eq!(days_left(Ok(DAY), Ok(0)), Ok(1));
    assert_eq!(days_left(Ok(0), Ok(DAY - 1)), Ok(0));
    assert_eq!(days_left(Ok(0), Ok(DAY + 1)), Ok(-1));
    assert_eq!(days_left(Ok(22 * DAY - 1), Ok(0)), Ok(21));
}

#[test]
fn later_certificate_has_no_fewer_days() {
    let mut last = i64::MIN;
    for expiry in (-3 * DAY..3 * DAY).step_by(7_001) {
        let days = days_left(Ok(expiry), Ok(1_000)).unwrap();
        assert!(days >= last);
        last = days;
    }
}

#[test]
fn connection_error_is_handed_on() {
    assert_eq!(
        days_remaining(Err("could not connect to x: y".to_string()), Ok(0)),
        Err("could not connect to x: y".to_string())
    );
}

#[test]
fn missing_certificate_is_an_error() {
    assert_eq!(
        days_remaining(Ok(None), Ok(0)),
        Err("server presented no certificate".to_string())
    );
    assert_eq!(
        days_remaining(Ok(Some(Vec::new())), Ok(0)),
        Err("server presented an empty chain".to_string())
    );
}

#[test]
fn certificate_that_does_not_parse_is_an_error() {
    let err = days_remaining(Ok(Some(vec![vec![1, 2, 3]])), Ok(0)).err().unwrap();
    assert!(err.starts_with("could not parse certificate: "));
    // It is looked at before the clock is.
    let err = days_left(Err("odd".to_string()), Err("early".to_string()));
    assert_eq!(err, Err("could not parse certificate: odd".to_string()));
}

#[test]
fn clock_before_the_epoch_is_an_error() {
    let chain = vec![certificate("300101000000Z")];
    assert_eq!(
        days_remaining(Ok(Some(chain)), Err("early".to_string())),
        Err("system clock is before the unix epoch: early".to_string())
    );
}

#[test]
fn certificate_with_enough_days_is_up() {
    let outcome = check(21, Ok(21));
    assert!(outcome.up);
    assert_eq!(outcome.msg, "cert ok, 21 days");
    assert_eq!(outcome.ping, 210);
    assert_eq!(outcome.ping_text(), "21");
}

#[test]
fn certificate_near_expiry_is_down_for_good() {
    let outcome = check(21, Ok(20));
    assert!(!outcome.up && !outcome.retryable);
    assert_eq!(outcome.msg, "cert expires in 20 days");
    assert_eq!(outcome.ping, 200);
    let outcome = check(21, Ok(-3));
    assert_eq!(outcome.msg, "cert expires in -3 days");
    assert_eq!(outcome.ping_text(), "-3");
}

#[test]
fn certificate_that_was_not_seen_may_be_looked_at_again() {
    let outcome = check(21, Err("timed out after 8s".to_string()));
    assert!(!outcome.up && outcome.retryable);
    assert_eq!(outcome.msg, "cert: timed out after 8s");
    assert_eq!(outcome.ping, 0);
}
