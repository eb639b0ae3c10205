//! What a round makes of one node: which failures are repeated, and what is
//! reported in the end.

use vstd::prelude::*;
use crate::check::{
    cert, doh, dot, truncate, truncated, truncated_fits_on_a_line, Address, Outcome, OutcomeView,
    Proto, MAX,
};
use crate::text::{context, signed_decimal_is_short, with_cause};

verus! {

/// Pause before repeating a failed check, in seconds. Long enough not to land
/// in the same instant that just failed, short enough that a whole failing
/// fleet still finishes a round well inside one interval.
pub const CONFIRM_DELAY: u64 = 2;

/// Which attempt a result came from.
#[derive(Debug, Clone, Copy, PartialEq, Eq, Structural)]
pub enum Attempt {
    First,
    Second,
}

/// What to do with a result.
pub enum Next<T> {
    /// It stands.
    Report(T),
    /// It is a failure to be confirmed: pause for `CONFIRM_DELAY`, then make the
    /// second attempt.
    Repeat(T),
}

/// What to do with the outcome of an attempt.
pub open spec fn confirm(attempt: Attempt, outcome: Outcome) -> Next<Outcome> {
    if attempt is First && !outcome.up && outcome.retryable {
        Next::Repeat(outcome)
    } else {
        Next::Report(outcome)
    }
}

/// Repeats a failed check once before reporting it down.
///
/// A single bad probe must not be enough to notify. Confirming spends one extra
/// probe on the rare failing check, and a real outage still reports within the
/// round it started in rather than waiting for the next one.
///
/// Only failures are repeated. A certificate genuinely near expiry is reported
/// the first time, since asking again cannot change the answer.
pub fn confirmed(attempt: Attempt, outcome: Outcome) -> (next: Next<Outcome>)
    ensures
        next == confirm(attempt, outcome),
        next is Repeat <==> attempt is First && !outcome.up && outcome.retryable,
        next matches Next::Repeat(same) ==> same == outcome,
        next matches Next::Report(same) ==> same == outcome,
{
    if outcome.up || !outcome.retryable {
        return Next::Report(outcome);
    }
    match attempt {
        Attempt::First => Next::Repeat(outcome),
        Attempt::Second => Next::Report(outcome),
    }
}

/// What to do with what resolving a node's name came to.
pub open spec fn confirm_resolution(
    attempt: Attempt,
    resolved: Result<Address, String>,
) -> Next<Result<Address, String>> {
    if attempt is First && resolved is Err {
        Next::Repeat(resolved)
    } else {
        Next::Report(resolved)
    }
}

/// Resolution failures take all three of a node's checks down at once, so they
/// are the loudest thing that can happen and are worth confirming too.
pub fn resolve_confirmed(attempt: Attempt, resolved: Result<Address, String>) -> (next: Next<
    Result<Address, String>,
>)
    ensures
        next == confirm_resolution(attempt, resolved),
        next is Repeat <==> attempt is First && resolved is Err,
        next matches Next::Repeat(same) ==> same == resolved,
        next matches Next::Report(same) ==> same == resolved,
{
    match (attempt, resolved) {
        (Attempt::First, Err(err)) => Next::Repeat(Err(err)),
        (_, resolved) => Next::Report(resolved),
    }
}

/// What is reported in the end, given what a first and a second attempt come
/// to.
pub open spec fn settled(first: Outcome, second: Outcome) -> Outcome {
    match confirm(Attempt::First, first) {
        Next::Report(outcome) => outcome,
        Next::Repeat(_) => match confirm(Attempt::Second, second) {
            Next::Report(outcome) => outcome,
            Next::Repeat(outcome) => outcome,
        },
    }
}

/// No check is repeated more than once: the second attempt is always reported.
pub proof fn second_attempt_is_reported(outcome: Outcome, resolved: Result<Address, String>)
    ensures
        confirm(Attempt::Second, outcome) == Next::Report(outcome),
        confirm_resolution(Attempt::Second, resolved) == Next::Report(resolved),
{
}

/// What is repeated is exactly a first attempt that failed: a check if that may be
/// retried, and a resolution always.
pub proof fn repeated_exactly_after_a_first_failure(
    attempt: Attempt,
    outcome: Outcome,
    resolved: Result<Address, String>,
)
    ensures
        confirm(attempt, outcome) == Next::Repeat(outcome) <==> attempt is First && !outcome.up
            && outcome.retryable,
        confirm(attempt, outcome) == Next::Report(outcome) <==> attempt is Second || outcome.up
            || !outcome.retryable,
        confirm_resolution(attempt, resolved) == Next::Repeat(resolved) <==> attempt is First
            && resolved is Err,
        confirm_resolution(attempt, resolved) == Next::Report(resolved) <==> attempt is Second
            || resolved is Ok,
        CONFIRM_DELAY == 2,
{
}

/// What is reported in the end is what one of the attempts came to, and the second
/// only if the first might not fail again.
pub proof fn settled_by_one_of_the_attempts(first: Outcome, second: Outcome)
    ensures
        !first.up && first.retryable ==> settled(first, second) == second,
        first.up || !first.retryable ==> settled(first, second) == first,
        settled(first, second).up <==> first.up || (first.retryable && second.up),
{
}

/// A check that passed, or failed for good, is reported as it is and not
/// repeated.
pub proof fn success_and_final_failure_are_not_repeated(first: Outcome, second: Outcome)
    requires
        first.up || !first.retryable,
    ensures
        confirm(Attempt::First, first) == Next::Report(first),
        settled(first, second) == first,
{
}

/// A check that failed, but might not fail again, is repeated, and reported as
/// the second attempt has it.
pub proof fn confirmed_failure_is_the_second_one(first: Outcome, second: Outcome)
    requires
        !first.up,
        first.retryable,
    ensures
        confirm(Attempt::First, first) == Next::Repeat(first),
        settled(first, second) == second,
{
}

/// A check that might not fail again is reported down only if both attempts
/// failed: a single bad probe is not enough.
pub proof fn one_bad_probe_is_not_enough(first: Outcome, second: Outcome)
    requires
        !settled(first, second).up,
    ensures
        !first.up,
        first.retryable ==> !second.up,
{
}

/// A certificate near expiry is reported at the first attempt, whatever the
/// second would find.
pub proof fn near_expiry_is_reported_at_once(
    warn_days: int,
    days: int,
    first: Outcome,
    second: Outcome,
)
    requires
        days < warn_days,
        first@ == cert::reported(warn_days, Ok(days)),
    ensures
        !first.up,
        settled(first, second) == first,
{
}

/// A report of one of a node's checks, with plain values.
pub open spec fn report_view(report: (Proto, Outcome)) -> (Proto, OutcomeView) {
    (report.0, report.1@)
}

/// Reports, with plain values.
pub open spec fn reports_view(reports: Seq<(Proto, Outcome)>) -> Seq<(Proto, OutcomeView)> {
    reports.map_values(|report: (Proto, Outcome)| report_view(report))
}

/// What is reported of a check when the node's name did not resolve.
pub open spec fn unresolved(proto: Proto, err: Seq<char>) -> OutcomeView {
    OutcomeView::down(truncated(with_cause(proto.name(), err)), 0)
}

/// A check whose node has no address is down, whatever kept it from being found.
/// It may be retried, took no time, and shows the check's name and what went
/// wrong.
pub proof fn unresolved_is_down(proto: Proto, err: Seq<char>)
    ensures
        !unresolved(proto, err).up,
        unresolved(proto, err).retryable,
        unresolved(proto, err).ping == 0,
        unresolved(proto, err).msg == truncated(proto.name() + ": "@ + err),
{
}

/// Reports are shown in order, each with its check.
pub proof fn view_shows_the_reports(reports: Seq<(Proto, Outcome)>)
    ensures
        reports_view(reports).len() == reports.len(),
        forall|i: int|
            0 <= i < reports.len() ==> #[trigger] reports_view(reports)[i] == (
                reports[i].0,
                reports[i].1@,
            ),
{
}

/// How a node's checks go on once its name was looked up.
pub enum Plan {
    /// Run the three checks against this address.
    Probe(Address),
    /// Report these outcomes; there is nothing to probe.
    Report(Vec<(Proto, Outcome)>),
}

/// Reports one of a node's checks down for want of an address.
pub fn down_unresolved(proto: Proto, err: &str) -> (outcome: Outcome)
    ensures
        outcome@ == unresolved(proto, err@),
        !outcome.up,
        outcome.retryable,
        outcome.ping == 0,
        outcome.msg@ == truncated(proto.name() + ": "@ + err@),
{
    Outcome::down(truncate(context(proto.as_str(), err).as_str()), 0)
}

/// Decides how a node's checks go on. The name is resolved once for the round,
/// so all three checks address the same server.
///
/// All three checks depend on the name, so without it all three are down. Each
/// is reported separately so its own monitor still gets a heartbeat.
pub fn check_node(resolved: Result<Address, String>) -> (plan: Plan)
    ensures
        match resolved {
            Ok(addr) => plan == Plan::Probe(addr),
            Err(err) => {
                &&& plan matches Plan::Report(reports)
                &&& reports_view(reports@) == seq![
                    (Proto::Doh, unresolved(Proto::Doh, err@)),
                    (Proto::Dot, unresolved(Proto::Dot, err@)),
                    (Proto::Cert, unresolved(Proto::Cert, err@)),
                ]
            },
        },
        plan is Probe <==> resolved is Ok,
        resolved matches Err(err) ==> {
            &&& plan matches Plan::Report(reports)
            &&& reports@.len() == 3
            &&& reports@[0].0 == Proto::Doh
            &&& reports@[1].0 == Proto::Dot
            &&& reports@[2].0 == Proto::Cert
            &&& forall|i: int|
                0 <= i < 3 ==> {
                    &&& !(#[trigger] reports@[i]).1.up
                    &&& reports@[i].1.retryable
                    &&& reports@[i].1.ping == 0
                    &&& reports@[i].1.msg@ == truncated(reports@[i].0.name() + ": "@ + err@)
                }
        },
{
    match resolved {
        Ok(addr) => Plan::Probe(addr),
        Err(err) => {
            let doh = down_unresolved(Proto::Doh, err.as_str());
            let dot = down_unresolved(Proto::Dot, err.as_str());
            let cert = down_unresolved(Proto::Cert, err.as_str());
            Plan::Report(reports(doh, dot, cert))
        },
    }
}

/// What is reported of a node, given what its three checks came to.
pub fn reports(doh: Outcome, dot: Outcome, cert: Outcome) -> (reports: Vec<(Proto, Outcome)>)
    ensures
        reports@ == seq![(Proto::Doh, doh), (Proto::Dot, dot), (Proto::Cert, cert)],
        reports_view(reports@) == seq![
            (Proto::Doh, doh@),
            (Proto::Dot, dot@),
            (Proto::Cert, cert@),
        ],
{
    let mut reports: Vec<(Proto, Outcome)> = Vec::new();
    reports.push((Proto::Doh, doh));
    reports.push((Proto::Dot, dot));
    reports.push((Proto::Cert, cert));
    assert(reports_view(reports@) =~= seq![
        (Proto::Doh, doh@),
        (Proto::Dot, dot@),
        (Proto::Cert, cert@),
    ]);
    reports
}

/// Whether a message reads on one line of the monitor list.
pub open spec fn fits(msg: Seq<char>) -> bool {
    &&& msg.len() <= MAX
    &&& forall|i: int| 0 <= i < msg.len() ==> msg[i] != '\n'
}

/// Every message that is pushed fits on one line of the monitor list: that of
/// each check, whatever it came to, and that of a node without an address.
pub proof fn every_message_fits(
    result: Result<(), Seq<char>>,
    ms: int,
    warn_days: int,
    days: Result<i64, String>,
    proto: Proto,
    err: Seq<char>,
)
    ensures
        fits(doh::reported(result, ms).msg),
        fits(dot::reported(result, ms).msg),
        fits(cert::reported(warn_days, cert::days_view(days)).msg),
        fits(unresolved(proto, err).msg),
{
    if let Err(cause) = result {
        truncated_fits_on_a_line(with_cause("doh"@, cause));
        truncated_fits_on_a_line(with_cause("dot"@, cause));
    }
    match days {
        Err(cause) => truncated_fits_on_a_line(with_cause("cert"@, cause@)),
        Ok(days) => signed_decimal_is_short(days),
    }
    truncated_fits_on_a_line(with_cause(proto.name(), err));
    reveal_strlit("doh ok");
    reveal_strlit("dot ok");
    reveal_strlit("cert ok, ");
    reveal_strlit("cert expires in ");
    reveal_strlit(" days");
}

/// Every message that is pushed starts with the name of its check, so a reader
/// can tell which of a node's checks it is about.
pub proof fn every_message_names_its_check(
    result: Result<(), Seq<char>>,
    ms: int,
    warn_days: int,
    days: Result<int, Seq<char>>,
    proto: Proto,
    err: Seq<char>,
)
    ensures
        Proto::Doh.name().is_prefix_of(doh::reported(result, ms).msg),
        Proto::Dot.name().is_prefix_of(dot::reported(result, ms).msg),
        Proto::Cert.name().is_prefix_of(cert::reported(warn_days, days).msg),
        proto.name().is_prefix_of(unresolved(proto, err).msg),
{
    if let Err(cause) = result {
        truncating_keeps_the_name(Proto::Doh, cause);
        truncating_keeps_the_name(Proto::Dot, cause);
    }
    if let Err(cause) = days {
        truncating_keeps_the_name(Proto::Cert, cause);
    }
    truncating_keeps_the_name(proto, err);
    reveal_strlit("doh");
    reveal_strlit("dot");
    reveal_strlit("cert");
    reveal_strlit("doh ok");
    reveal_strlit("dot ok");
    reveal_strlit("cert ok, ");
    reveal_strlit("cert expires in ");
    let (doh, dot, cert) = (
        doh::reported(result, ms).msg,
        dot::reported(result, ms).msg,
        cert::reported(warn_days, days).msg,
    );
    if result is Ok {
        assert(Proto::Doh.name() =~= doh.take(3));
        assert(Proto::Dot.name() =~= dot.take(3));
    }
    if days is Ok {
        assert(Proto::Cert.name() =~= cert.take(4));
    }
}

/// A check's name survives in front of whatever cause follows it.
proof fn truncating_keeps_the_name(proto: Proto, cause: Seq<char>)
    ensures
        proto.name().is_prefix_of(truncated(with_cause(proto.name(), cause))),
{
    reveal_strlit("doh");
    reveal_strlit("dot");
    reveal_strlit("cert");
    let name = proto.name();
    let kept = truncated(with_cause(name, cause));
    assert(name =~= kept.take(name.len() as int));
}

} // verus!
