use dns_monitor::check::{cert, doh, dot, Address, Outcome, Proto};
use dns_monitor::confirm::{
    check_node, confirmed, down_unresolved, reports, resolve_confirmed, Attempt, Next, Plan,
    CONFIRM_DELAY,
};

fn reported(next: Next<Outcome>) -> Outcome {
    match next {
        Next::Report(outcome) => outcome,
        Next::Repeat(_) => panic!("the check is repeated"),
    }
}

fn repeated(next: Next<Outcome>) -> Outcome {
    match next {
        Next::Repeat(outcome) => outcome,
        Next::Report(_) => panic!("the check is not repeated"),
    }
}

#[test]
fn success_is_reported_at_once() {
    let outcome = reported(confirmed(Attempt::First, Outcome::up("doh ok".to_string(), 12)));
    assert_eq!(outcome.msg, "doh ok");
}

#[test]
fn failure_is_repeated_once() {
    let down = || Outcome::down("doh: no".to_string(), 12);
    assert_eq!(repeated(confirmed(Attempt::First, down())).msg, "doh: no");
    assert_eq!(reported(confirmed(Attempt::Second, down())).msg, "doh: no");
    assert_eq!(CONFIRM_DELAY, 2);
}

#[test]
fn second_success_is_what_is_reported() {
    repeated(confirmed(Attempt::First, Outcome::down("dot: no".to_string(), 1)));
    let outcome = reported(confirmed(Attempt::Second, Outcome::up("dot ok".to_string(), 2)));
    assert!(outcome.up);
}

#[test]
fn certificate_near_expiry_is_not_repeated() {
    let outcome = reported(confirmed(Attempt::First, cert::check(21, Ok(3))));
    assert_eq!(outcome.msg, "cert expires in 3 days");
    repeated(confirmed(Attempt::First, cert::check(21, Err("no".to_string()))));
}

#[test]
fn failed_resolution_is_repeated_once() {
    let no = || Err("no such host".to_string());
    assert!(matches!(resolve_confirmed(Attempt::First, no()), Next::Repeat(Err(_))));
    assert!(matches!(resolve_confirmed(Attempt::Second, no()), Next::Report(Err(_))));
    let yes = Ok(Address::V4(1));
    assert!(matches!(
        resolve_confirmed(Attempt::First, yes),
        Next::Report(Ok(Address::V4(1)))
    ));
}

#[test]
fn resolved_node_is_probed() {
    assert!(matches!(check_node(Ok(Address::V6(5))), Plan::Probe(Address::V6(5))));
}

#[test]
fn unresolved_node_has_all_three_checks_down() {
    match check_node(Err("could not resolve x: y".to_string())) {
        Plan::Report(reports) => {
            assert_eq!(reports.len(), 3);
            let expected = [
                (Proto::Doh, "doh: could not resolve x: y"),
                (Proto::Dot, "dot: could not resolve x: y"),
                (Proto::Cert, "cert: could not resolve x: y"),
            ];
            for ((proto, outcome), (wanted, msg)) in reports.into_iter().zip(expected) {
                assert_eq!(proto, wanted);
                assert!(!outcome.up);
                assert_eq!(outcome.msg, msg);
                assert_eq!(outcome.ping, 0);
            }
        }
        Plan::Probe(_) => panic!("there is no address to probe"),
    }
}

#[test]
fn every_check_is_reported() {
    let outcome = |msg: &str| Outcome::up(msg.to_string(), 0);
    let all = reports(outcome("a"), outcome("b"), outcome("c"));
    let told: Vec<(Proto, String)> = all.into_iter().map(|(p, o)| (p, o.msg)).collect();
    assert_eq!(
        told,
        vec![
            (Proto::Doh, "a".to_string()),
            (Proto::Dot, "b".to_string()),
            (Proto::Cert, "c".to_string()),
        ]
    );
}

#[test]
fn long_reason_still_fits() {
    let outcome = down_unresolved(Proto::Cert, &"no\n".repeat(100));
    assert_eq!(outcome.msg.chars().count(), 110);
    assert!(outcome.msg.starts_with("cert: no no no "));
    assert!(!outcome.msg.contains('\n'));
}

#[test]
fn message_names_its_check() {
    for proto in [Proto::Doh, Proto::Dot, Proto::Cert] {
        assert!(down_unresolved(proto, &"x".repeat(300)).msg.starts_with(proto.as_str()));
    }
    assert!(doh::check(Ok(()), 1).msg.starts_with("doh"));
    assert!(doh::check(Err("no".to_string()), 1).msg.starts_with("doh"));
    assert!(dot::check(Ok(()), 1).msg.starts_with("dot"));
    assert!(dot::check(Err("no".to_string()), 1).msg.starts_with("dot"));
    assert!(cert::check(21, Ok(3)).msg.starts_with("cert"));
    assert!(cert::check(21, Ok(30)).msg.starts_with("cert"));
    assert!(cert::check(21, Err("no".to_string())).msg.starts_with("cert"));
}
