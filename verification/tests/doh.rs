use dns_monitor::check::dns::Query;
use dns_monitor::check::doh::{check, check_head, query, Action, Dialogue, Event, HttpVersion};
use dns_monitor::config::Node;

fn request(qname: &str) -> Query {
    Query { id: 0x0102, recursion_desired: true, qname: qname.to_string(), qtype: 1 }
}

fn node() -> Node {
    Node::new("jp-dns2", "bancuh.com")
}

fn response(id: u16, rcode: u8) -> Vec<u8> {
    let mut body = id.to_be_bytes().to_vec();
    body.extend_from_slice(&[0x81, 0x80 | rcode, 0, 0, 0, 0, 0, 0, 0, 0]);
    body
}

fn run(request: &Query, events: Vec<Event>) -> Result<(), String> {
    let (mut state, mut action) = query(request, &node());
    for event in events {
        let (next_state, next_action) = state.step(event);
        state = next_state;
        action = next_action;
    }
    assert!(matches!(state, Dialogue::Finished));
    match action {
        Action::Finish(result) => result,
        _ => panic!("the query is not finished"),
    }
}

fn head(version: HttpVersion, status: u16) -> Event {
    Event::Head { version, status }
}

#[test]
fn query_is_posted_as_a_dns_message() {
    let (state, action) = query(&request("a.bc"), &node());
    assert!(matches!(state, Dialogue::Requesting { id: 0x0102 }));
    match action {
        Action::Send(post) => {
            assert_eq!(post.url, "https://jp-dns2.bancuh.com/dns-query");
            assert_eq!(post.content_type, "application/dns-message");
            assert_eq!(post.accept, "application/dns-message");
            assert_eq!(post.body[..2].to_vec(), vec![1, 2]);
            assert_eq!(post.body.len(), 22);
        }
        _ => panic!("nothing was posted"),
    }
}

#[test]
fn doh_response_is_judged() {
    let answered = |body: Vec<u8>| vec![head(HttpVersion::Http2, 200), Event::Body(body)];
    assert_eq!(run(&request("a.bc"), answered(response(0x0102, 0))), Ok(()));
    assert_eq!(
        run(&request("a.bc"), answered(response(1, 0))),
        Err("response id 1 does not match query 258".to_string())
    );
    assert_eq!(
        run(&request("a.bc"), answered(response(0x0102, 2))),
        Err("status: Server Failure".to_string())
    );
}

#[test]
fn downgrade_is_caught_before_the_status() {
    assert_eq!(
        run(&request("a.bc"), vec![head(HttpVersion::Http11, 400)]),
        Err("did not negotiate HTTP/2 (got HTTP/1.1)".to_string())
    );
    assert_eq!(
        check_head(HttpVersion::Http3, 200),
        Some("did not negotiate HTTP/2 (got HTTP/3.0)".to_string())
    );
    assert_eq!(
        check_head(HttpVersion::Http10, 200),
        Some("did not negotiate HTTP/2 (got HTTP/1.0)".to_string())
    );
    assert_eq!(
        check_head(HttpVersion::Http09, 200),
        Some("did not negotiate HTTP/2 (got HTTP/0.9)".to_string())
    );
    assert_eq!(HttpVersion::Http2.as_str(), "HTTP/2.0");
}

#[test]
fn versions_are_written_as_reqwest_writes_them() {
    let pairs = [
        (HttpVersion::Http09, reqwest::Version::HTTP_09),
        (HttpVersion::Http10, reqwest::Version::HTTP_10),
        (HttpVersion::Http11, reqwest::Version::HTTP_11),
        (HttpVersion::Http2, reqwest::Version::HTTP_2),
        (HttpVersion::Http3, reqwest::Version::HTTP_3),
    ];
    for (ours, theirs) in pairs {
        assert_eq!(ours.as_str(), format!("{theirs:?}"));
    }
}

#[test]
fn only_a_2xx_is_a_success() {
    assert_eq!(check_head(HttpVersion::Http2, 200), None);
    assert_eq!(check_head(HttpVersion::Http2, 299), None);
    assert_eq!(check_head(HttpVersion::Http2, 404), Some("HTTP 404 Not Found".to_string()));
    assert_eq!(check_head(HttpVersion::Http2, 300), Some("HTTP 300 Multiple Choices".to_string()));
    assert_eq!(
        check_head(HttpVersion::Http2, 199),
        Some("HTTP 199 <unknown status code>".to_string())
    );
    assert_eq!(
        run(&request("a.bc"), vec![head(HttpVersion::Http2, 503)]),
        Err("HTTP 503 Service Unavailable".to_string())
    );
}

#[test]
fn failed_request_names_itself() {
    assert_eq!(
        run(&request("a.bc"), vec![Event::Failed("refused".to_string())]),
        Err("request failed: refused".to_string())
    );
    let cut = vec![head(HttpVersion::Http2, 200), Event::Failed("eof".to_string())];
    assert_eq!(run(&request("a.bc"), cut), Err("could not read response: eof".to_string()));
}

#[test]
fn doh_query_that_does_not_encode_is_not_posted() {
    assert_eq!(
        run(&request("a b"), Vec::new()),
        Err("could not encode query: unrecognized char:  ".to_string())
    );
}

#[test]
fn doh_outcome_names_the_protocol() {
    let up = check(Ok(()), 42);
    assert!(up.up);
    assert_eq!(up.msg, "doh ok");
    assert_eq!(up.ping, 42);
    let down = check(Err("HTTP 404 Not Found".to_string()), 7);
    assert!(!down.up && down.retryable);
    assert_eq!(down.msg, "doh: HTTP 404 Not Found");
    assert_eq!(down.ping, 7);
}
