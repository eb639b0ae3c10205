use dns_monitor::check::{Outcome, Proto};
use dns_monitor::config::Node;
use dns_monitor::push::gatus::Gatus;
use dns_monitor::push::kuma::Kuma;
use dns_monitor::push::{answered, delivered, Delivery, Method, Request, Target, Targets};

fn node() -> Node {
    Node::new("jp-dns2", "bancuh.com")
}

fn params(request: &Request) -> Vec<(&str, &str)> {
    request.query.iter().map(|(name, value)| (*name, value.as_str())).collect()
}

#[test]
fn certificates_are_left_to_gatus_itself() {
    assert!(Gatus::accepts(Proto::Doh));
    assert!(Gatus::accepts(Proto::Dot));
    assert!(!Gatus::accepts(Proto::Cert));
}

#[test]
fn key_matches_the_group_and_name_in_the_gatus_config() {
    let node = Node::new("jp-dns2", "bancuh.com");
    assert_eq!(Gatus::key(&node, Proto::Doh), "jp-dns2_doh");
    assert_eq!(Gatus::key(&node, Proto::Dot), "jp-dns2_dot");
}

#[test]
fn gatus_is_told_of_a_success() {
    let gatus = Gatus::new("http://gatus//", "secret");
    let outcome = Outcome::up("doh ok".to_string(), 125);
    let request = gatus.push(&node(), Proto::Doh, &outcome).unwrap();
    assert_eq!(request.method, Method::Post);
    assert_eq!(request.url, "http://gatus/api/v1/endpoints/jp-dns2_doh/external");
    assert_eq!(request.bearer, Some("secret".to_string()));
    assert_eq!(params(&request), vec![("success", "true"), ("duration", "13ms")]);
}

#[test]
fn gatus_is_told_of_a_failure() {
    let gatus = Gatus::new("http://gatus", "secret");
    let outcome = Outcome::down("dot: timed out after 8s".to_string(), 80_004);
    let request = gatus.push(&node(), Proto::Dot, &outcome).unwrap();
    assert_eq!(request.url, "http://gatus/api/v1/endpoints/jp-dns2_dot/external");
    assert_eq!(
        params(&request),
        vec![
            ("success", "false"),
            ("error", "dot: timed out after 8s"),
            ("duration", "8000ms"),
        ]
    );
}

#[test]
fn gatus_is_not_told_of_certificates() {
    let gatus = Gatus::new("http://gatus", "secret");
    let outcome = Outcome::up("cert ok, 60 days".to_string(), 600);
    assert!(gatus.push(&node(), Proto::Cert, &outcome).is_none());
}

#[test]
fn kuma_is_told_the_status_message_and_ping() {
    let kuma = Kuma::new("http://kuma/");
    let outcome = Outcome::up("doh ok".to_string(), 123);
    let request = kuma.push(Some("tok".to_string()), &outcome).unwrap();
    assert_eq!(request.method, Method::Get);
    assert_eq!(request.url, "http://kuma/api/push/tok");
    assert_eq!(request.bearer, None);
    assert_eq!(
        params(&request),
        vec![("status", "up"), ("msg", "doh ok"), ("ping", "12.3")]
    );
    let outcome = Outcome::down_final("cert expires in 3 days".to_string(), 30);
    let request = kuma.push(Some("tok".to_string()), &outcome).unwrap();
    assert_eq!(
        params(&request),
        vec![("status", "down"), ("msg", "cert expires in 3 days"), ("ping", "3")]
    );
}

#[test]
fn kuma_is_not_told_without_a_token() {
    let kuma = Kuma::new("http://kuma");
    let outcome = Outcome::up("doh ok".to_string(), 123);
    assert!(kuma.push(None, &outcome).is_none());
    assert!(kuma.push(Some(String::new()), &outcome).is_none());
}

#[test]
fn every_configured_target_is_told() {
    let outcome = Outcome::up("doh ok".to_string(), 123);
    let token = || Some("tok".to_string());
    let told = |targets: &Targets, proto: Proto, token: Option<String>| -> Vec<Target> {
        targets
            .report(&node(), proto, &outcome, token)
            .into_iter()
            .map(|(target, _)| target)
            .collect()
    };
    let both = Targets::new(Some("http://kuma"), Some(("http://gatus", "secret")));
    assert_eq!(told(&both, Proto::Doh, token()), vec![Target::Kuma, Target::Gatus]);
    assert_eq!(told(&both, Proto::Doh, None), vec![Target::Gatus]);
    assert_eq!(told(&both, Proto::Cert, token()), vec![Target::Kuma]);
    assert_eq!(told(&both, Proto::Cert, None), Vec::new());
    let kuma = Targets::new(Some("http://kuma"), None);
    assert_eq!(told(&kuma, Proto::Doh, token()), vec![Target::Kuma]);
    let gatus = Targets::new(None, Some(("http://gatus", "secret")));
    assert_eq!(told(&gatus, Proto::Doh, token()), vec![Target::Gatus]);
    assert!(Targets::default().is_empty());
    assert!(Targets::default().names().is_empty());
    let none = Targets::new(None, None);
    assert!(none.is_empty());
    assert!(none.names().is_empty());
    assert_eq!(told(&none, Proto::Doh, token()), Vec::new());
}

#[test]
fn one_target_does_not_change_what_the_other_is_told() {
    let outcome = Outcome::down("doh: no".to_string(), 5);
    let both = Targets::new(Some("http://kuma"), Some(("http://gatus", "secret")));
    let alone = Targets::new(None, Some(("http://gatus", "secret")));
    let together = both.report(&node(), Proto::Doh, &outcome, Some("tok".to_string()));
    let single = alone.report(&node(), Proto::Doh, &outcome, Some("tok".to_string()));
    assert_eq!(together[1].1.url, single[0].1.url);
    assert_eq!(params(&together[1].1), params(&single[0].1));
}

#[test]
fn failed_push_says_how_it_failed() {
    assert_eq!(delivered(Delivery::Taken), Ok(()));
    assert_eq!(
        delivered(Delivery::Unanswered("refused".to_string())),
        Err("push request failed: refused".to_string())
    );
    assert_eq!(
        delivered(Delivery::Rejected("404".to_string())),
        Err("push rejected: 404".to_string())
    );
    assert_eq!(Target::Kuma.as_str(), "uptime-kuma");
    assert_eq!(Target::Gatus.as_str(), "gatus");
}

#[test]
fn push_is_rejected_by_an_error_status() {
    let outcome = |status: u16| delivered(answered(status, "no".to_string()));
    for taken in [200, 204, 302, 399, 600] {
        assert_eq!(outcome(taken), Ok(()));
    }
    for rejected in [400, 404, 499, 500, 599] {
        assert_eq!(outcome(rejected), Err("push rejected: no".to_string()));
    }
    for status in 100..=999u16 {
        let code = reqwest::StatusCode::from_u16(status).unwrap();
        assert_eq!(outcome(status).is_err(), code.is_client_error() || code.is_server_error());
    }
}
