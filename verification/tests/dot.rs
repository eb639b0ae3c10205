use dns_monitor::check::dns::Query;
use dns_monitor::check::Address;
use dns_monitor::check::dot::{announced, check, frame, query, Action, Dialogue, Event};

const ADDR: Address = Address::V4(0x0102_0304);

fn request(qname: &str) -> Query {
    Query { id: 0x0102, recursion_desired: true, qname: qname.to_string(), qtype: 1 }
}

fn response(id: u16, rcode: u8) -> Vec<u8> {
    let mut body = id.to_be_bytes().to_vec();
    body.extend_from_slice(&[0x81, 0x80 | rcode, 0, 0, 0, 0, 0, 0, 0, 0]);
    body
}

/// Answers each action in turn, and gives what the query came to.
fn run(request: &Query, events: Vec<Event>) -> Result<(), String> {
    let (mut state, mut action) = query(request, ADDR);
    for event in events {
        let (next_state, next_action) = state.step(event);
        state = next_state;
        action = next_action;
    }
    assert!(matches!(state, Dialogue::Finished));
    match action {
        Action::Finish(result) => result,
        _ => panic!("the query is not finished"),
    }
}

fn failed(why: &str) -> Event {
    Event::Failed(why.to_string())
}

#[test]
fn message_is_framed_by_its_length() {
    assert_eq!(frame(&vec![7, 8, 9]), vec![0, 3, 7, 8, 9]);
    assert_eq!(frame(&Vec::new()), vec![0, 0]);
    let long = frame(&vec![1; 0x0102]);
    assert_eq!(long[..2].to_vec(), vec![1, 2]);
    assert_eq!(long.len(), 0x0104);
    assert_eq!(announced(&vec![1, 2]), 0x0102);
    assert_eq!(announced(&vec![255, 255]), 65535);
}

#[test]
fn length_of_a_frame_wraps() {
    let long = frame(&vec![0; 0x1_0001]);
    assert_eq!(long[..2].to_vec(), vec![0, 1]);
}

#[test]
fn query_is_sent_flushed_and_answered() {
    let (state, action) = query(&request("a.bc"), ADDR);
    assert!(matches!(action, Action::Connect { addr: ADDR, port: 853 }));
    let (state, action) = state.step(Event::Done);
    match action {
        Action::Send(bytes) => {
            assert_eq!(bytes[..4].to_vec(), vec![0, 22, 1, 2]);
            assert_eq!(bytes.len(), 24);
        }
        _ => panic!("nothing was sent"),
    }
    let (state, action) = state.step(Event::Done);
    assert!(matches!(action, Action::Flush));
    let (state, action) = state.step(Event::Done);
    assert!(matches!(action, Action::Read(2)));
    let (state, action) = state.step(Event::Read(vec![0, 12]));
    assert!(matches!(action, Action::Read(12)));
    let (state, action) = state.step(Event::Read(response(0x0102, 0)));
    assert!(matches!(action, Action::Finish(Ok(()))));
    assert!(matches!(state, Dialogue::Finished));
}

#[test]
fn failing_step_names_itself() {
    let request = request("a.bc");
    assert_eq!(
        run(&request, vec![failed("could not connect to x: y")]),
        Err("could not connect to x: y".to_string())
    );
    assert_eq!(
        run(&request, vec![Event::Done, failed("reset")]),
        Err("could not send query: reset".to_string())
    );
    assert_eq!(
        run(&request, vec![Event::Done, Event::Done, failed("reset")]),
        Err("could not flush query: reset".to_string())
    );
    assert_eq!(
        run(&request, vec![Event::Done, Event::Done, Event::Done, failed("eof")]),
        Err("could not read response length: eof".to_string())
    );
    let short = vec![
        Event::Done,
        Event::Done,
        Event::Done,
        Event::Read(vec![0, 12]),
        failed("eof"),
    ];
    assert_eq!(run(&request, short), Err("could not read response: eof".to_string()));
}

#[test]
fn dot_response_is_judged() {
    let answered = |body: Vec<u8>| {
        let prefix = frame(&body)[..2].to_vec();
        vec![Event::Done, Event::Done, Event::Done, Event::Read(prefix), Event::Read(body)]
    };
    assert_eq!(run(&request("a.bc"), answered(response(0x0102, 0))), Ok(()));
    assert_eq!(
        run(&request("a.bc"), answered(response(0x0103, 0))),
        Err("response id 259 does not match query 258".to_string())
    );
    assert_eq!(
        run(&request("a.bc"), answered(response(0x0102, 5))),
        Err("status: Query Refused".to_string())
    );
    assert!(run(&request("a.bc"), answered(Vec::new())).is_err());
}

#[test]
fn dot_query_that_does_not_encode_is_not_sent() {
    assert_eq!(
        run(&request("a b"), Vec::new()),
        Err("could not encode query: unrecognized char:  ".to_string())
    );
}

#[test]
fn dot_outcome_names_the_protocol() {
    let up = check(Ok(()), 123);
    assert!(up.up);
    assert_eq!(up.msg, "dot ok");
    assert_eq!(up.ping, 123);
    let down = check(Err("timed out after 8s".to_string()), 80_001);
    assert!(!down.up && down.retryable);
    assert_eq!(down.msg, "dot: timed out after 8s");
    assert_eq!(down.ping, 80_001);
    assert_eq!(check(Err("x".repeat(500)), 0).msg.chars().count(), 110);
}
