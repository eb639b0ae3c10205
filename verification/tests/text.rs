use dns_monitor::text::{context, push_decimal, push_signed, trim_end_slashes, unsigned_abs};

#[test]
fn numbers_are_written_in_decimal() {
    for n in [0u64, 7, 9, 10, 99, 100, 65_535, 1_234_567_890, u64::MAX] {
        let mut out = String::from("n=");
        push_decimal(&mut out, n);
        assert_eq!(out, format!("n={n}"));
    }
    for n in [0i64, 5, -5, -10, 86_400, i64::MAX, i64::MIN] {
        let mut out = String::new();
        push_signed(&mut out, n);
        assert_eq!(out, n.to_string());
        assert!(out.len() <= 20);
        assert_eq!(unsigned_abs(n), n.unsigned_abs());
    }
}

#[test]
fn cause_follows_a_colon() {
    assert_eq!(context("push rejected", "404"), "push rejected: 404");
    assert_eq!(context("", ""), ": ");
}

#[test]
fn trailing_slashes_are_trimmed() {
    for base in ["http://kuma", "http://kuma/", "http://kuma///", "", "/", "///", "a/b/", "\u{e9}//"] {
        let trimmed = trim_end_slashes(base);
        assert_eq!(trimmed, base.trim_end_matches('/'));
        assert_eq!(trim_end_slashes(&trimmed), trimmed);
    }
}
