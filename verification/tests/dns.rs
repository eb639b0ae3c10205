use dns_monitor::check::dns::{judge, judge_body, Query, Reply};

fn query(qname: &str) -> Query {
    Query { id: 0x1234, recursion_desired: true, qname: qname.to_string(), qtype: 1 }
}

/// A response without any records.
fn response(id: u16, rcode: u8) -> Vec<u8> {
    let mut body = id.to_be_bytes().to_vec();
    body.extend_from_slice(&[0x81, 0x80 | rcode, 0, 0, 0, 0, 0, 0, 0, 0]);
    body
}

#[test]
fn query_in_wire_format() {
    let wire = query("a.bc").to_vec().unwrap();
    let expected: Vec<u8> = vec![
        0x12, 0x34, 0x01, 0x00, 0, 1, 0, 0, 0, 0, 0, 0, 1, b'a', 2, b'b', b'c', 0, 0, 1, 0, 1,
    ];
    assert_eq!(wire, expected);
}

#[test]
fn flag_and_type_are_carried() {
    let mut other = query("a.bc");
    other.recursion_desired = false;
    other.qtype = 28;
    let wire = other.to_vec().unwrap();
    assert_eq!(wire[2], 0);
    assert_eq!(wire[wire.len() - 4..].to_vec(), vec![0, 28, 0, 1]);
}

#[test]
fn shortest_and_longest_names_encode() {
    assert_eq!(query(".").to_vec().unwrap().len(), 17);
    let label = "x".repeat(63);
    let longest = format!("{label}.{label}.{label}.{}", "x".repeat(61));
    assert_eq!(query(&longest).to_vec().unwrap().len(), 271);
}

#[test]
fn invalid_name_does_not_encode() {
    assert_eq!(query("a b").to_vec(), Err("unrecognized char:  ".to_string()));
}

#[test]
fn live_response_is_accepted() {
    assert_eq!(judge(7, Ok(Reply { id: 7, rcode: 0 })), Ok(()));
    assert_eq!(judge_body(0x1234, &response(0x1234, 0)), Ok(()));
}

#[test]
fn mismatched_response_is_rejected() {
    assert_eq!(
        judge(7, Ok(Reply { id: 65535, rcode: 3 })),
        Err("response id 65535 does not match query 7".to_string())
    );
    assert_eq!(
        judge_body(0x1234, &response(0x1235, 0)),
        Err("response id 4661 does not match query 4660".to_string())
    );
}

#[test]
fn response_with_an_error_is_rejected() {
    assert_eq!(
        judge_body(9, &response(9, 3)),
        Err("status: Non-Existent Domain".to_string())
    );
    assert_eq!(
        judge(9, Ok(Reply { id: 9, rcode: 2 })),
        Err("status: Server Failure".to_string())
    );
    assert_eq!(
        judge(9, Ok(Reply { id: 9, rcode: 4000 })),
        Err("status: Unknown response code".to_string())
    );
}

#[test]
fn response_that_does_not_parse_is_rejected() {
    assert_eq!(
        judge(9, Err("odd".to_string())),
        Err("could not parse response: odd".to_string())
    );
    let err = judge_body(9, &response(9, 0)[..11]).err().unwrap();
    assert!(err.starts_with("could not parse response: "));
    assert!(judge_body(9, &[]).is_err());
}

#[test]
fn extended_response_code_counts() {
    // An EDNS record carries the upper bits of the code.
    let mut body = response(9, 0);
    body[11] = 1;
    body.extend_from_slice(&[0, 0, 41, 4, 208, 1, 0, 0, 0, 0, 0]);
    assert_eq!(judge_body(9, &body), Err("status: TSIG Failure".to_string()));
}
