use dns_monitor::health::{stale_after, Health};
use dns_monitor::time::Span;

fn nanos(span: &Span) -> u128 {
    span.as_secs() as u128 * 1_000_000_000 + span.subsec_nanos() as u128
}

#[test]
fn finished_round_is_healthy() {
    let health = Health::new(Span::from_secs(10), Span::from_secs(360));
    let answer = health.healthz(Span::from_secs(10));
    assert_eq!(answer.status, 200);
    assert_eq!(answer.body, "ok: last round finished 0ns ago\n");
}

#[test]
fn stale_only_once_the_limit_has_passed() {
    let health = Health::new(Span::new(10, 5), Span::from_secs(360));
    let answer = health.healthz(Span::new(370, 5));
    assert_eq!(answer.status, 200);
    assert_eq!(answer.body, "ok: last round finished 360s ago\n");
    let answer = health.healthz(Span::new(370, 6));
    assert_eq!(answer.status, 503);
    assert_eq!(answer.body, "stale: last round finished 360.000000001s ago\n");
    assert_eq!(health.healthz(Span::from_secs(10_000)).status, 503);
}

#[test]
fn completed_round_makes_it_healthy_again() {
    let mut health = Health::new(Span::from_secs(0), Span::from_secs(3));
    assert_eq!(health.healthz(Span::from_secs(4)).status, 503);
    health.round_completed(Span::from_secs(4));
    assert_eq!(health.healthz(Span::from_secs(4)).status, 200);
    assert_eq!(health.healthz(Span::from_secs(7)).status, 200);
    assert_eq!(health.healthz(Span::from_secs(8)).status, 503);
}

#[test]
fn age_counts_from_the_last_round() {
    let health = Health::new(Span::new(1, 900_000_000), Span::from_secs(3));
    let age = health.age(Span::new(4, 400_000_000));
    assert_eq!(nanos(&age), 2_500_000_000);
    // A clock reading from before the round counts as none since.
    assert_eq!(nanos(&health.age(Span::from_secs(0))), 0);
}

#[test]
fn three_missed_rounds_are_stale() {
    assert_eq!(nanos(&stale_after(Span::from_secs(120))), 360_000_000_000);
    assert_eq!(nanos(&stale_after(Span::new(1, 500_000_000))), 4_500_000_000);
}

#[test]
fn spans_compare_and_multiply() {
    let half = Span::new(0, 500_000_000);
    assert!(Span::from_secs(1).exceeds(&half));
    assert!(!half.exceeds(&half));
    assert!(Span::new(1, 2).exceeds(&Span::new(1, 1)));
    assert_eq!(nanos(&half.times(7)), 3_500_000_000);
    assert_eq!(half.times(0).as_secs(), 0);
    assert_eq!(half.text(), "500ms");
    assert_eq!(Span::new(2, 1).text(), "2.000000001s");
}
