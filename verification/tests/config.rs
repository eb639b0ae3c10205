use dns_monitor::check::Proto;
use dns_monitor::config::{fleet, sanitised, targets, Node};

#[test]
fn host_is_short_name_in_domain() {
    let node = Node::new("jp-dns2", "bancuh.com");
    assert_eq!(node.host, "jp-dns2.bancuh.com");
}

#[test]
fn token_key_uppercases_and_replaces_dashes() {
    let node = Node::new("jp-dns2", "bancuh.com");
    assert_eq!(node.token_key(Proto::Doh), "TOKEN_JP_DNS2_DOH");
    assert_eq!(node.token_key(Proto::Dot), "TOKEN_JP_DNS2_DOT");
    assert_eq!(node.token_key(Proto::Cert), "TOKEN_JP_DNS2_CERT");
}

#[test]
fn token_key_drops_characters_that_cannot_appear_in_an_env_name() {
    let node = Node::new("jp.dns+2", "bancuh.com");
    assert_eq!(node.token_key(Proto::Doh), "TOKEN_JPDNS2_DOH");
}

#[test]
fn token_key_upper_cases_beyond_ascii() {
    // The upper case of a sharp s is two letters, and that of an umlaut cannot
    // appear in the name of an environment variable.
    let node = Node::new("stra\u{df}e-\u{fc}1", "bancuh.com");
    assert_eq!(node.token_key(Proto::Dot), "TOKEN_STRASSE_1_DOT");
}

#[test]
fn token_key_of_an_empty_name() {
    assert_eq!(Node::new("", "").token_key(Proto::Doh), "TOKEN__DOH");
}

#[test]
fn lower_case_is_not_kept_in_an_env_name() {
    assert_eq!(sanitised("A-b_9 Z"), "A__9Z");
    assert_eq!(sanitised("JP-DNS2"), "JP_DNS2");
}

#[test]
fn keys_of_a_node_differ() {
    let node = Node::new("sg-dns1", "bancuh.com");
    let keys = [
        node.token_key(Proto::Doh),
        node.token_key(Proto::Dot),
        node.token_key(Proto::Cert),
    ];
    assert_ne!(keys[0], keys[1]);
    assert_ne!(keys[0], keys[2]);
    assert_ne!(keys[1], keys[2]);
    for key in keys {
        assert!(key.chars().all(|c| c.is_ascii_uppercase() || c.is_ascii_digit() || c == '_'));
    }
}

#[test]
fn empty_token_is_no_token() {
    assert_eq!(Node::token(None), None);
    assert_eq!(Node::token(Some(String::new())), None);
    assert_eq!(Node::token(Some("abc".to_string())), Some("abc".to_string()));
}

#[test]
fn fleet_is_each_short_name_in_the_domain() {
    let shorts = vec!["jp-dns2".to_string(), "sg-dns1".to_string()];
    let nodes = fleet(&shorts, "bancuh.com").unwrap();
    assert_eq!(nodes.len(), 2);
    assert_eq!(nodes[0].short, "jp-dns2");
    assert_eq!(nodes[0].host, "jp-dns2.bancuh.com");
    assert_eq!(nodes[1].short, "sg-dns1");
    assert_eq!(nodes[1].host, "sg-dns1.bancuh.com");
}

#[test]
fn fleet_without_nodes_is_refused() {
    let err = fleet(&Vec::new(), "bancuh.com").err().unwrap();
    assert_eq!(err, "NODES is empty");
}

#[test]
fn gatus_needs_a_token() {
    let err = targets(Some("http://kuma"), Some("http://gatus"), None).err().unwrap();
    assert_eq!(err, "GATUS is set but GATUS_TOKEN is not");
}

#[test]
fn some_target_is_needed() {
    let err = targets(None, None, None).err().unwrap();
    assert_eq!(err, "no push target configured: set KUMA, GATUS, or both");
    // A token alone makes no target.
    let err = targets(None, None, Some("secret")).err().unwrap();
    assert_eq!(err, "no push target configured: set KUMA, GATUS, or both");
}

#[test]
fn configured_targets_are_named_in_order() {
    let both = targets(Some("http://kuma"), Some("http://gatus"), Some("secret")).unwrap();
    assert_eq!(both.names(), vec!["uptime-kuma", "gatus"]);
    assert!(!both.is_empty());
    let kuma = targets(Some("http://kuma"), None, Some("secret")).unwrap();
    assert_eq!(kuma.names(), vec!["uptime-kuma"]);
    let gatus = targets(None, Some("http://gatus"), Some("secret")).unwrap();
    assert_eq!(gatus.names(), vec!["gatus"]);
}
