//! The check of a certificate's remaining life.

use vstd::prelude::*;
use x509_parser::certificate::X509Certificate;
use x509_parser::prelude::FromDer;
use crate::check::{truncate, truncated, Address, Outcome, OutcomeView};
use crate::text::{context, plain, push_signed, signed_decimal, with_cause};

verus! {

/// The port of HTTPS, where the certificate is presented.
pub const PORT: u16 = 443;

/// The most days that a ping can count, in tenths, either way.
pub const MAX_DAYS: i64 = 922_337_203_685_477_580;

/// When a DER-encoded certificate expires, in seconds since the Unix epoch, as
/// `x509_parser` reads it; or the text of its error, causes and all.
pub uninterp spec fn expiry_of(der: Seq<u8>) -> Result<i64, Seq<char>>;

/// Calls `x509_parser::certificate::X509Certificate::from_der`, and reads the
/// end of the certificate's validity off what it gives. Both are a function of
/// the bytes. How a certificate is parsed is not spelled out.
#[verifier::external_body]
fn parse_expiry(der: &[u8]) -> (result: Result<i64, String>)
    ensures
        plain(result) == expiry_of(der@),
{
    match X509Certificate::from_der(der) {
        Ok((_, cert)) => Ok(cert.validity().not_after.timestamp()),
        Err(err) => Err(format!("{:#}", anyhow::Error::from(err))),
    }
}

/// The whole days, of 86 400 seconds each, in a number of seconds, rounded
/// towards zero.
pub open spec fn whole_days(secs: int) -> int {
    if secs < 0 {
        -((-secs) / 86_400)
    } else {
        secs / 86_400
    }
}

/// Whole days take up no more than the time there is, and one more day would
/// take up more. Time that is past is counted in the same way.
pub proof fn days_are_whole(secs: int)
    ensures
        secs >= 0 ==> whole_days(secs) * 86_400 <= secs < (whole_days(secs) + 1) * 86_400,
        secs < 0 ==> (whole_days(secs) - 1) * 86_400 < secs <= whole_days(secs) * 86_400,
        secs < 0 ==> whole_days(secs) <= 0,
{
}

/// How many days are left, given when the certificate expires and what time it
/// is.
pub open spec fn days_until(
    expiry: Result<i64, Seq<char>>,
    now: Result<i64, Seq<char>>,
) -> Result<int, Seq<char>> {
    match expiry {
        Err(cause) => Err(with_cause("could not parse certificate"@, cause)),
        Ok(not_after) => match now {
            Err(cause) => Err(with_cause("system clock is before the unix epoch"@, cause)),
            Ok(now) => Ok(whole_days(not_after - now)),
        },
    }
}

/// A number of days, or an error's text.
pub open spec fn days_view(days: Result<i64, String>) -> Result<int, Seq<char>> {
    match days {
        Ok(days) => Ok(days as int),
        Err(err) => Err(err@),
    }
}

/// Whether a ping can count these days.
pub open spec fn countable(days: Result<i64, String>) -> bool {
    days matches Ok(days) ==> -MAX_DAYS <= days <= MAX_DAYS
}

/// Days can be counted by a ping exactly when ten times as many fit into it.
pub proof fn countable_exactly_in_tenths(days: Result<i64, String>)
    ensures
        countable(days) <==> (days matches Ok(count) ==> i64::MIN <= count * 10 <= i64::MAX),
{
}

/// A number of days, or the error, is shown as it is.
pub proof fn view_shows_the_days(days: Result<i64, String>)
    ensures
        days matches Ok(count) ==> days_view(days) == Ok::<int, Seq<char>>(count as int),
        days matches Err(err) ==> days_view(days) == Err::<int, Seq<char>>(err@),
{
}

/// The days that are left are counted exactly when the certificate parsed and the
/// clock was read. They are the whole days from now until it expires.
pub proof fn days_left_are_the_whole_days(
    expiry: Result<i64, Seq<char>>,
    now: Result<i64, Seq<char>>,
)
    ensures
        days_until(expiry, now) is Ok <==> expiry is Ok && now is Ok,
        expiry is Ok && now is Ok ==> {
            let left = expiry->Ok_0 - now->Ok_0;
            let days = days_until(expiry, now)->Ok_0;
            &&& left >= 0 ==> days * 86_400 <= left < (days + 1) * 86_400
            &&& left < 0 ==> (days - 1) * 86_400 < left <= days * 86_400 && days <= 0
        },
        expiry matches Err(cause) ==> days_until(expiry, now) == Err::<int, Seq<char>>(
            "could not parse certificate"@ + ": "@ + cause,
        ),
        expiry is Ok ==> (now matches Err(cause) ==> days_until(expiry, now) == Err::<
            int,
            Seq<char>,
        >("system clock is before the unix epoch"@ + ": "@ + cause)),
{
}

/// A certificate that is valid for a day longer has one more day left, as long as
/// it is not expired.
pub proof fn a_day_more_counts_one_more(not_after: i64, later: i64, now: i64)
    requires
        now <= not_after,
        later == not_after + 86_400,
    ensures
        days_until(Ok(later), Ok(now))->Ok_0 == days_until(Ok(not_after), Ok(now))->Ok_0 + 1,
{
}

/// Counts the days that are left, given when the certificate expires and what
/// time it is.
pub fn days_left(expiry: Result<i64, String>, now: Result<i64, String>) -> (result: Result<
    i64,
    String,
>)
    ensures
        days_view(result) == days_until(plain(expiry), plain(now)),
        countable(result),
        result is Ok <==> expiry is Ok && now is Ok,
        result matches Ok(days) ==> {
            let left = expiry->Ok_0 - now->Ok_0;
            &&& left >= 0 ==> days * 86_400 <= left < (days + 1) * 86_400
            &&& left < 0 ==> (days - 1) * 86_400 < left <= days * 86_400 && days <= 0
        },
        expiry matches Err(cause) ==> (result matches Err(err) && err@
            == "could not parse certificate"@ + ": "@ + cause@),
        expiry is Ok ==> (now matches Err(cause) ==> (result matches Err(err) && err@
            == "system clock is before the unix epoch"@ + ": "@ + cause@)),
{
    let not_after: i64 = match expiry {
        Ok(not_after) => not_after,
        Err(err) => return Err(context("could not parse certificate", err.as_str())),
    };
    let now: i64 = match now {
        Ok(now) => now,
        Err(err) => return Err(context("system clock is before the unix epoch", err.as_str())),
    };
    let secs: i128 = not_after as i128 - now as i128;
    if secs < 0 {
        let days: i128 = (-secs) / 86_400;
        Ok(-(days as i64))
    } else {
        let days: i128 = secs / 86_400;
        Ok(days as i64)
    }
}

/// Where the certificate is asked for: at the address that was resolved for the
/// round.
pub fn endpoint(addr: Address) -> (target: (Address, u16))
    ensures
        target == (addr, PORT),
        target == (addr, 443u16),
{
    (addr, PORT)
}

/// Counts the days that are left on the certificate that a server presented.
///
/// `presented` is the chain from an open connection, or why there is none. The
/// chain is leaf-first. Taking a later entry would track a Let's Encrypt
/// intermediate's multi-year expiry and never alert.
pub fn days_remaining(
    presented: Result<Option<Vec<Vec<u8>>>, String>,
    now: Result<i64, String>,
) -> (result: Result<i64, String>)
    ensures
        days_view(result) == match presented {
            Err(err) => Err(err@),
            Ok(None) => Err("server presented no certificate"@),
            Ok(Some(chain)) => if chain@.len() == 0 {
                Err("server presented an empty chain"@)
            } else {
                days_until(expiry_of(chain@[0]@), plain(now))
            },
        },
        countable(result),
        result is Ok <==> {
            &&& presented matches Ok(Some(chain))
            &&& chain@.len() > 0
            &&& expiry_of(chain@[0]@) is Ok
            &&& now is Ok
        },
        result matches Ok(days) ==> {
            let left = expiry_of(presented->Ok_0->0@[0]@)->Ok_0 - now->Ok_0;
            &&& left >= 0 ==> days * 86_400 <= left < (days + 1) * 86_400
            &&& left < 0 ==> (days - 1) * 86_400 < left <= days * 86_400 && days <= 0
        },
        presented matches Err(cause) ==> (result matches Err(err) && err@ == cause@),
{
    match presented {
        Err(err) => Err(err),
        Ok(None) => Err("server presented no certificate".to_owned()),
        Ok(Some(chain)) => if chain.len() == 0 {
            Err("server presented an empty chain".to_owned())
        } else {
            days_left(parse_expiry(chain[0].as_slice()), now)
        },
    }
}

/// What the check reports of a number of days.
pub open spec fn reported(warn_days: int, days: Result<int, Seq<char>>) -> OutcomeView {
    match days {
        Err(err) => OutcomeView::down(truncated(with_cause("cert"@, err)), 0),
        Ok(days) => if days < warn_days {
            OutcomeView::down_final(
                "cert expires in "@ + signed_decimal(days) + " days"@,
                days * 10,
            )
        } else {
            OutcomeView::up("cert ok, "@ + signed_decimal(days) + " days"@, days * 10)
        },
    }
}

/// What the check reports, given how many days are left.
///
/// Days remaining is pushed as the ping value so uptime-kuma graphs it. A
/// healthy fleet shows a sawtooth resetting at each renewal; a line trending
/// to zero means renewal has stopped working, visible weeks before an outage.
pub fn check(warn_days: i64, days: Result<i64, String>) -> (outcome: Outcome)
    requires
        countable(days),
    ensures
        outcome@ == reported(warn_days as int, days_view(days)),
        outcome.up <==> (days matches Ok(left) && left >= warn_days),
        outcome.retryable <==> days is Err,
        days matches Ok(left) ==> {
            &&& outcome.ping == left * 10
            &&& left >= warn_days ==> outcome.msg@ == "cert ok, "@ + signed_decimal(left as int)
                + " days"@
            &&& left < warn_days ==> outcome.msg@ == "cert expires in "@ + signed_decimal(
                left as int,
            ) + " days"@
        },
        days matches Err(cause) ==> outcome.ping == 0 && outcome.msg@ == truncated(
            "cert"@ + ": "@ + cause@,
        ),
{
    let days: i64 = match days {
        Ok(days) => days,
        Err(err) => return Outcome::down(truncate(context("cert", err.as_str()).as_str()), 0),
    };
    if days < warn_days {
        let mut msg = "cert expires in ".to_owned();
        push_signed(&mut msg, days);
        msg.append(" days");
        Outcome::down_final(msg, days * 10)
    } else {
        let mut msg = "cert ok, ".to_owned();
        push_signed(&mut msg, days);
        msg.append(" days");
        Outcome::up(msg, days * 10)
    }
}

/// A certificate is up exactly when its days were counted and there are at
/// least as many of them as there should be.
pub proof fn up_exactly_with_enough_days(warn_days: int, days: Result<int, Seq<char>>)
    ensures
        reported(warn_days, days).up <==> (days matches Ok(left) && left >= warn_days),
{
}

/// The ping of a certificate counts its days in tenths, and its message shows
/// them. One whose days were not counted has a ping of zero, and shows why.
pub proof fn report_shows_the_days(warn_days: int, days: Result<int, Seq<char>>)
    ensures
        days matches Ok(left) ==> {
            &&& reported(warn_days, days).ping == left * 10
            &&& left >= warn_days ==> reported(warn_days, days).msg == "cert ok, "@
                + signed_decimal(left) + " days"@
            &&& left < warn_days ==> reported(warn_days, days).msg == "cert expires in "@
                + signed_decimal(left) + " days"@
        },
        days matches Err(cause) ==> {
            &&& reported(warn_days, days).ping == 0
            &&& reported(warn_days, days).retryable
            &&& reported(warn_days, days).msg == truncated("cert"@ + ": "@ + cause)
        },
        reported(warn_days, days).up ==> !reported(warn_days, days).retryable,
{
}

/// A certificate whose days were counted is up exactly when it is valid for as
/// many days as there should be, of 86 400 seconds each.
pub proof fn up_exactly_when_valid_long_enough(warn_days: int, not_after: i64, now: i64)
    requires
        0 < warn_days,
    ensures
        reported(warn_days, days_until(Ok(not_after), Ok(now))).up <==> not_after - now
            >= warn_days * 86_400,
{
}

/// A certificate near expiry is a final failure, while one that could not be
/// looked at may be looked at again.
pub proof fn near_expiry_is_final(warn_days: int, days: Result<int, Seq<char>>)
    requires
        !reported(warn_days, days).up,
    ensures
        reported(warn_days, days).retryable <==> days is Err,
{
}

/// A certificate that expires later never has fewer days left.
pub proof fn later_expiry_leaves_no_fewer_days(sooner: i64, later: i64, now: i64)
    requires
        sooner <= later,
    ensures
        days_until(Ok(sooner), Ok(now))->Ok_0 <= days_until(Ok(later), Ok(now))->Ok_0,
{
}

/// Counting the days and then checking them raises the alarm exactly when the
/// certificate is valid for fewer days than it should be, of 86 400 seconds each.
pub proof fn alarm_exactly_when_too_little_is_left(
    not_after: i64,
    now: i64,
    warn_days: i64,
    days: Result<i64, String>,
    outcome: Outcome,
)
    requires
        0 < warn_days,
        call_ensures(days_left, (Ok(not_after), Ok(now)), days),
        call_ensures(check, (warn_days, days), outcome),
    ensures
        outcome.up <==> not_after - now >= warn_days * 86_400,
        !outcome.retryable,
        not_after >= now ==> outcome.ping * 8_640 <= not_after - now < (outcome.ping + 10) * 8_640,
{
}

/// Only the first certificate of a chain counts, whatever follows it.
pub proof fn only_the_leaf_counts(
    chain: Vec<Vec<u8>>,
    other: Vec<Vec<u8>>,
    now: Result<i64, String>,
    days: Result<i64, String>,
    other_days: Result<i64, String>,
)
    requires
        chain@.len() > 0,
        other@.len() > 0,
        chain@[0]@ == other@[0]@,
        call_ensures(days_remaining, (Ok(Some(chain)), now), days),
        call_ensures(days_remaining, (Ok(Some(other)), now), other_days),
    ensures
        plain(days) == plain(other_days),
        days matches Ok(count) ==> {
            let left = expiry_of(chain@[0]@)->Ok_0 - now->Ok_0;
            &&& left >= 0 ==> count * 86_400 <= left < (count + 1) * 86_400
            &&& left < 0 ==> (count - 1) * 86_400 < left <= count * 86_400 && count <= 0
        },
{
}

/// Without a certificate there are no days to count, and each way of having none
/// says so.
pub proof fn without_a_certificate_there_are_no_days(
    why: String,
    chain: Vec<Vec<u8>>,
    now: Result<i64, String>,
    failed: Result<i64, String>,
    none: Result<i64, String>,
    empty: Result<i64, String>,
)
    requires
        chain@.len() == 0,
        call_ensures(days_remaining, (Err(why), now), failed),
        call_ensures(days_remaining, (Ok(None), now), none),
        call_ensures(days_remaining, (Ok(Some(chain)), now), empty),
    ensures
        plain(failed) == Err::<i64, Seq<char>>(why@),
        plain(none) == Err::<i64, Seq<char>>("server presented no certificate"@),
        plain(empty) == Err::<i64, Seq<char>>("server presented an empty chain"@),
{
}

/// The certificate is asked for at the address of the round, where HTTPS is
/// served.
pub proof fn certificate_is_asked_for_at_the_address(addr: Address, target: (Address, u16))
    requires
        call_ensures(endpoint, (addr,), target),
    ensures
        target.0 == addr,
        target.1 == 443,
{
}

} // verus!
