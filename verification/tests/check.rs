use dns_monitor::check::{
    lookup_target, prefer, resolve, tls_connect, tls_established, truncate, with_timeout, Address,
    Outcome, Prober, Proto,
};
use dns_monitor::config::Node;
use dns_monitor::time::Span;

fn node() -> Node {
    Node::new("jp-dns2", "bancuh.com")
}

#[test]
fn protocols_are_named() {
    assert_eq!(Proto::Doh.as_str(), "doh");
    assert_eq!(Proto::Dot.as_str(), "dot");
    assert_eq!(Proto::Cert.as_str(), "cert");
}

#[test]
fn short_message_is_kept() {
    assert_eq!(truncate("doh: request failed"), "doh: request failed");
    assert_eq!(truncate(""), "");
    let longest = "x".repeat(110);
    assert_eq!(truncate(&longest), longest);
}

#[test]
fn long_message_is_cut_with_an_ellipsis() {
    let cut = truncate(&"x".repeat(111));
    assert_eq!(cut, format!("{}\u{2026}", "x".repeat(109)));
    assert_eq!(cut.chars().count(), 110);
    assert_eq!(truncate(&cut), cut);
}

#[test]
fn message_is_counted_in_characters() {
    let wide = "\u{e9}".repeat(110);
    assert_eq!(truncate(&wide), wide);
    assert_eq!(truncate(&"\u{e9}".repeat(200)), format!("{}\u{2026}", "\u{e9}".repeat(109)));
}

#[test]
fn message_is_put_on_one_line() {
    assert_eq!(truncate("a\nb\n"), "a b ");
    let cut = truncate(&"\n".repeat(120));
    assert_eq!(cut, format!("{}\u{2026}", " ".repeat(109)));
}

#[test]
fn outcomes_say_whether_they_may_be_repeated() {
    let up = Outcome::up("doh ok".to_string(), 123);
    assert!(up.up);
    assert_eq!(up.msg, "doh ok");
    assert_eq!(up.ping, 123);
    assert_eq!(up.status(), "up");
    let down = Outcome::down("doh: no".to_string(), 0);
    assert!(!down.up && down.retryable);
    assert_eq!(down.status(), "down");
    let last = Outcome::down_final("cert expires in 3 days".to_string(), 30);
    assert!(!last.up && !last.retryable);
    assert_eq!(last.status(), "down");
}

#[test]
fn ping_reads_like_the_number_it_stands_for() {
    for tenths in [0i64, 1, 9, 10, 12, 100, 123, 1005, 86_400, -1, -10, -15, -123] {
        let outcome = Outcome::up(String::new(), tenths);
        assert_eq!(outcome.ping_text(), (tenths as f64 / 10.0).to_string());
        assert_eq!(outcome.ping_rounded(), (tenths as f64 / 10.0).round() as i64);
    }
    assert_eq!(Outcome::up(String::new(), 123).ping_text(), "12.3");
    assert_eq!(Outcome::up(String::new(), 120).ping_text(), "12");
    assert_eq!(Outcome::up(String::new(), -5).ping_text(), "-0.5");
    assert_eq!(Outcome::up(String::new(), 125).ping_rounded(), 13);
    assert_eq!(Outcome::up(String::new(), 124).ping_rounded(), 12);
    assert_eq!(Outcome::up(String::new(), -125).ping_rounded(), -13);
    assert_eq!(Outcome::up(String::new(), i64::MIN).ping_text(), "-922337203685477580.8");
    assert_eq!(Outcome::up(String::new(), i64::MIN).ping_rounded(), -922_337_203_685_477_581);
}

#[test]
fn prober_takes_a_valid_name() {
    let prober = Prober::new("careers.opendns.com", Span::from_secs(8), 21).unwrap();
    assert_eq!(prober.qname, "careers.opendns.com");
    assert_eq!(prober.timeout.as_secs(), 8);
    assert_eq!(prober.warn_days, 21);
}

#[test]
fn prober_refuses_an_invalid_name() {
    let err = Prober::new("not a name", Span::from_secs(8), 21).err().unwrap();
    assert_eq!(err.what, "invalid QNAME");
    assert_eq!(err.cause, "unrecognized char:  ");
    let long = "a".repeat(64);
    let err = Prober::new(&long, Span::from_secs(8), 21).err().unwrap();
    assert_eq!(err.what, "invalid QNAME");
    assert!(!err.cause.is_empty());
}

#[test]
fn query_asks_for_addresses_of_the_configured_name() {
    let prober = Prober::new("careers.opendns.com", Span::from_secs(8), 21).unwrap();
    let query = prober.query_with(0x1234);
    assert_eq!(query.id, 0x1234);
    assert!(query.recursion_desired);
    assert_eq!(query.qname, "careers.opendns.com");
    assert_eq!(query.qtype, 1);
    let fresh = prober.query();
    assert!(fresh.recursion_desired);
    assert_eq!(fresh.qname, "careers.opendns.com");
    assert_eq!(fresh.qtype, 1);
}

#[test]
fn query_ids_are_drawn_afresh() {
    let prober = Prober::new("careers.opendns.com", Span::from_secs(8), 21).unwrap();
    let first = prober.query().id;
    assert!((0..64).any(|_| prober.query().id != first));
}

#[test]
fn name_is_looked_up_as_it_stands() {
    assert_eq!(lookup_target(&node()), "jp-dns2.bancuh.com.:0");
}

#[test]
fn ipv4_is_preferred() {
    let (a, b) = (Address::V4(0x0102_0304), Address::V4(0x0506_0708));
    let (x, y) = (Address::V6(1), Address::V6(2));
    assert_eq!(prefer(&vec![x, a, y, b]), Some(a));
    assert_eq!(prefer(&vec![b, a]), Some(b));
    assert_eq!(prefer(&vec![y, x]), Some(y));
    assert_eq!(prefer(&Vec::new()), None);
    assert_eq!(resolve(&node(), Ok(vec![x, a])), Ok(a));
    assert_eq!(resolve(&node(), Ok(vec![x, y])), Ok(x));
}

#[test]
fn failed_resolution_says_what_was_resolved() {
    assert_eq!(
        resolve(&node(), Ok(Vec::new())),
        Err("no address for jp-dns2.bancuh.com".to_string())
    );
    assert_eq!(
        resolve(&node(), Err("no such host".to_string())),
        Err("could not resolve jp-dns2.bancuh.com: no such host".to_string())
    );
}

#[test]
fn handshake_follows_a_connection_to_a_valid_name() {
    assert_eq!(
        tls_connect(&node(), "1.2.3.4:853", Ok(7)),
        Ok(("jp-dns2.bancuh.com".to_string(), 7))
    );
    assert_eq!(tls_established("1.2.3.4:853", Ok(8)), Ok(8));
}

#[test]
fn failed_connection_says_where_to() {
    assert_eq!(
        tls_connect::<()>(&node(), "1.2.3.4:853", Err("refused".to_string())),
        Err("could not connect to 1.2.3.4:853: refused".to_string())
    );
    assert_eq!(
        tls_established::<()>("1.2.3.4:853", Err("expired".to_string())),
        Err("TLS handshake with 1.2.3.4:853 failed: expired".to_string())
    );
}

#[test]
fn invalid_server_name_is_refused() {
    let odd = Node::new("jp dns2", "bancuh.com");
    assert_eq!(
        tls_connect(&odd, "1.2.3.4:853", Ok(())),
        Err("invalid server name jp dns2.bancuh.com: invalid dns name".to_string())
    );
    // The connection is opened before the name is looked at.
    assert_eq!(
        tls_connect::<()>(&odd, "1.2.3.4:853", Err("refused".to_string())),
        Err("could not connect to 1.2.3.4:853: refused".to_string())
    );
}

#[test]
fn overdue_check_says_how_long_it_had() {
    let overdue: Option<Result<(), String>> = None;
    assert_eq!(
        with_timeout(Span::from_secs(8), overdue),
        Err("timed out after 8s".to_string())
    );
    assert_eq!(with_timeout(Span::from_secs(8), Some(Ok(5))), Ok(5));
    let failed: Option<Result<(), String>> = Some(Err("no".to_string()));
    assert_eq!(with_timeout(Span::from_secs(8), failed), Err("no".to_string()));
}
