//! The three checks of a resolver, and what they share.

pub mod cert;
pub mod dns;
pub mod doh;
pub mod dot;

use vstd::prelude::*;
use rustls::pki_types::ServerName;
use crate::check::dns::{check_name, fresh_id, name_problem, Query};
use crate::config::Node;
use crate::text::{
    all_ascii, ascii_upper, context, decimal, decimal_reads_back, digit, is_numeral, magnitude,
    map_cause, number, plain, push_decimal, unsigned_abs, with_cause,
};
use crate::time::{duration_text, Span};

verus! {

#[derive(Debug, Clone, Copy, PartialEq, Eq, Structural)]
pub enum Proto {
    Doh,
    Dot,
    Cert,
}

impl Proto {
    /// The check's name.
    pub open spec fn name(self) -> Seq<char> {
        match self {
            Proto::Doh => "doh"@,
            Proto::Dot => "dot"@,
            Proto::Cert => "cert"@,
        }
    }

    /// The check's name as it ends an environment key.
    pub open spec fn env_label(self) -> Seq<char> {
        match self {
            Proto::Doh => "DOH"@,
            Proto::Dot => "DOT"@,
            Proto::Cert => "CERT"@,
        }
    }

    pub fn as_str(&self) -> (name: &'static str)
        ensures
            name@ == self.name(),
            *self == Proto::Doh ==> name@ == "doh"@,
            *self == Proto::Dot ==> name@ == "dot"@,
            *self == Proto::Cert ==> name@ == "cert"@,
    {
        match self {
            Proto::Doh => "doh",
            Proto::Dot => "dot",
            Proto::Cert => "cert",
        }
    }

    /// The checks are named after what they look at.
    pub proof fn names_are_fixed(self)
        ensures
            self == Proto::Doh <==> self.name() == "doh"@,
            self == Proto::Dot <==> self.name() == "dot"@,
            self == Proto::Cert <==> self.name() == "cert"@,
            self == Proto::Doh <==> self.env_label() == "DOH"@,
            self == Proto::Dot <==> self.env_label() == "DOT"@,
            self == Proto::Cert <==> self.env_label() == "CERT"@,
    {
        reveal_strlit("doh");
        reveal_strlit("dot");
        reveal_strlit("cert");
        reveal_strlit("DOH");
        reveal_strlit("DOT");
        reveal_strlit("CERT");
        assert("doh"@[2] != "dot"@[2]);
        assert("DOH"@[2] != "DOT"@[2]);
    }

    /// The label of an environment key is the check's name in upper case.
    pub proof fn label_is_upper_case_name(self)
        ensures
            all_ascii(self.name()),
            self.env_label() == self.name().map_values(|c: char| ascii_upper(c)),
    {
        reveal_strlit("doh");
        reveal_strlit("dot");
        reveal_strlit("cert");
        reveal_strlit("DOH");
        reveal_strlit("DOT");
        reveal_strlit("CERT");
        assert(self.env_label() =~= self.name().map_values(|c: char| ascii_upper(c)));
    }
}

/// The result of one check, in the shape uptime-kuma's push API takes.
#[derive(Debug, Clone)]
pub struct Outcome {
    pub up: bool,
    /// Whether asking again could change a failure into a success.
    pub retryable: bool,
    pub msg: String,
    /// Latency in ms for `doh`/`dot`; days remaining for `cert`. Counted in
    /// tenths, which is the precision it is reported with.
    pub ping: i64,
}

/// An outcome, with its message as text and its ping as a number of tenths.
pub struct OutcomeView {
    pub up: bool,
    pub retryable: bool,
    pub msg: Seq<char>,
    pub ping: int,
}

impl OutcomeView {
    /// The outcome of a check that passed.
    pub open spec fn up(msg: Seq<char>, ping: int) -> Self {
        OutcomeView { up: true, retryable: false, msg, ping }
    }

    /// The outcome of a check that failed, and might not fail again.
    pub open spec fn down(msg: Seq<char>, ping: int) -> Self {
        OutcomeView { up: false, retryable: true, msg, ping }
    }

    /// The outcome of a check that would fail again.
    pub open spec fn down_final(msg: Seq<char>, ping: int) -> Self {
        OutcomeView { up: false, retryable: false, msg, ping }
    }
}

impl View for Outcome {
    type V = OutcomeView;

    open spec fn view(&self) -> OutcomeView {
        OutcomeView {
            up: self.up,
            retryable: self.retryable,
            msg: self.msg@,
            ping: self.ping as int,
        }
    }
}

/// The view of an outcome shows all of it: whether it is up, whether it may be
/// retried, its message and its ping.
pub proof fn view_shows_the_outcome(outcome: Outcome)
    ensures
        outcome@.up == outcome.up,
        outcome@.retryable == outcome.retryable,
        outcome@.msg == outcome.msg@,
        outcome@.ping == outcome.ping,
{
}

/// Of the three kinds of outcome one is up and two are not, and of the latter
/// one may be retried. All of them carry the message and the ping they were
/// given.
pub proof fn kinds_of_outcome(msg: Seq<char>, ping: int)
    ensures
        OutcomeView::up(msg, ping).up,
        !OutcomeView::up(msg, ping).retryable,
        !OutcomeView::down(msg, ping).up,
        OutcomeView::down(msg, ping).retryable,
        !OutcomeView::down_final(msg, ping).up,
        !OutcomeView::down_final(msg, ping).retryable,
        OutcomeView::up(msg, ping).msg == msg,
        OutcomeView::down(msg, ping).msg == msg,
        OutcomeView::down_final(msg, ping).msg == msg,
        OutcomeView::up(msg, ping).ping == ping,
        OutcomeView::down(msg, ping).ping == ping,
        OutcomeView::down_final(msg, ping).ping == ping,
{
}

/// A number of tenths in decimal notation. A whole number has no decimal point.
pub open spec fn tenths_text(tenths: int) -> Seq<char> {
    let size = magnitude(tenths);
    let sign = if tenths < 0 {
        seq!['-']
    } else {
        Seq::<char>::empty()
    };
    let whole = decimal(size / 10);
    if size % 10 == 0 {
        sign + whole
    } else {
        sign + whole + seq!['.', digit((size % 10) as int)]
    }
}

/// A number of tenths to the nearest whole number, and away from zero where two
/// are equally near.
pub open spec fn round_tenths(tenths: int) -> int {
    if tenths < 0 {
        -((5 - tenths) / 10)
    } else {
        (tenths + 5) / 10
    }
}

/// A number of tenths reads as the number it is. A minus sign stands in front
/// exactly if it is negative. What follows is a numeral if it is whole, and
/// otherwise a numeral, a point and one digit; either way ten times what it
/// stands for is the number of tenths.
pub proof fn tenths_read_back(tenths: int)
    ensures
        ({
            let text = tenths_text(tenths);
            let size = if tenths < 0 {
                -tenths
            } else {
                tenths
            };
            let shown = if tenths < 0 {
                text.skip(1)
            } else {
                text
            };
            let len = shown.len() as int;
            &&& tenths < 0 <==> text[0] == '-'
            &&& size % 10 == 0 ==> is_numeral(shown) && 10 * number(shown) == size
            &&& size % 10 != 0 ==> {
                &&& len >= 3
                &&& shown[len - 2] == '.'
                &&& is_numeral(shown.take(len - 2))
                &&& '1' <= shown[len - 1] && shown[len - 1] <= '9'
                &&& 10 * number(shown.take(len - 2)) + (shown[len - 1] as int - '0' as int) == size
            }
        }),
{
    let size = magnitude(tenths);
    let text = tenths_text(tenths);
    let whole = decimal(size / 10);
    decimal_reads_back(size / 10);
    assert('0' <= whole[0] && whole[0] <= '9');
    let shown = if tenths < 0 {
        text.skip(1)
    } else {
        text
    };
    if size % 10 == 0 {
        assert(shown =~= whole);
    } else {
        assert(shown =~= whole + seq!['.', digit((size % 10) as int)]);
        assert(shown.take(shown.len() - 2) =~= whole);
    }
}

/// Rounding moves a number by at most half, and where that leaves two choices
/// it moves away from zero.
pub proof fn rounding_goes_to_the_nearest(tenths: int)
    ensures
        -5 <= 10 * round_tenths(tenths) - tenths <= 5,
        10 * round_tenths(tenths) - tenths == 5 ==> tenths >= 0,
        10 * round_tenths(tenths) - tenths == -5 ==> tenths <= 0,
{
}

impl Outcome {
    pub fn up(msg: String, ping: i64) -> (outcome: Self)
        ensures
            outcome@ == OutcomeView::up(msg@, ping as int),
            outcome.up,
            !outcome.retryable,
            outcome.msg@ == msg@,
            outcome.ping == ping,
    {
        Outcome { up: true, retryable: false, msg, ping }
    }

    pub fn down(msg: String, ping: i64) -> (outcome: Self)
        ensures
            outcome@ == OutcomeView::down(msg@, ping as int),
            !outcome.up,
            outcome.retryable,
            outcome.msg@ == msg@,
            outcome.ping == ping,
    {
        Outcome { up: false, retryable: true, msg, ping }
    }

    /// A failure that is reported as it is, since asking again cannot change
    /// the answer.
    pub fn down_final(msg: String, ping: i64) -> (outcome: Self)
        ensures
            outcome@ == OutcomeView::down_final(msg@, ping as int),
            !outcome.up,
            !outcome.retryable,
            outcome.msg@ == msg@,
            outcome.ping == ping,
    {
        Outcome { up: false, retryable: false, msg, ping }
    }

    pub fn status(&self) -> (status: &'static str)
        ensures
            status@ == if self.up {
                "up"@
            } else {
                "down"@
            },
    {
        if self.up {
            "up"
        } else {
            "down"
        }
    }

    /// The ping in decimal notation.
    pub fn ping_text(&self) -> (text: String)
        ensures
            text@ == tenths_text(self.ping as int),
    {
        let mut text = String::new();
        let size: u64 = unsigned_abs(self.ping);
        if self.ping < 0 {
            text.push('-');
        }
        push_decimal(&mut text, size / 10);
        if size % 10 != 0 {
            text.push('.');
            text.push((48u8 + (size % 10) as u8) as char);
        }
        assert(text@ =~= tenths_text(self.ping as int));
        text
    }

    /// The ping to the nearest whole number.
    pub fn ping_rounded(&self) -> (rounded: i64)
        ensures
            rounded == round_tenths(self.ping as int),
            -5 <= 10 * rounded - self.ping <= 5,
            10 * rounded - self.ping == 5 ==> self.ping >= 0,
            10 * rounded - self.ping == -5 ==> self.ping <= 0,
    {
        let size: u64 = unsigned_abs(self.ping);
        let whole: i64 = (size / 10) as i64 + if size % 10 >= 5 {
            1i64
        } else {
            0i64
        };
        if self.ping < 0 {
            -whole
        } else {
            whole
        }
    }
}

/// Everything the three checks share for a round.
pub struct Prober {
    pub qname: String,
    pub timeout: Span,
    pub warn_days: i64,
}

/// Why a prober could not be made: what was wrong, and the cause.
#[derive(Debug)]
pub struct Refusal {
    pub what: &'static str,
    pub cause: String,
}

impl Prober {
    /// Whether the name to resolve is one that can be asked for.
    pub open spec fn well_formed(self) -> bool {
        name_problem(self.qname@) is None
    }

    pub fn new(qname: &str, timeout: Span, warn_days: i64) -> (result: Result<Self, Refusal>)
        ensures
            result is Ok <==> name_problem(qname@) is None,
            match name_problem(qname@) {
                Some(problem) => {
                    &&& result matches Err(refusal)
                    &&& refusal.what@ == "invalid QNAME"@
                    &&& refusal.cause@ == problem
                },
                None => {
                    &&& result matches Ok(prober)
                    &&& prober.well_formed()
                    &&& prober.qname@ == qname@
                    &&& prober.timeout == timeout
                    &&& prober.warn_days == warn_days
                },
            },
    {
        match check_name(qname) {
            Ok(()) => Ok(Prober { qname: qname.to_owned(), timeout, warn_days }),
            Err(cause) => Err(Refusal { what: "invalid QNAME", cause }),
        }
    }

    /// The query for the configured name that carries this id: it asks for the
    /// name's address records, and for recursion.
    pub fn query_with(&self, id: u16) -> (query: Query)
        ensures
            query.id == id,
            query.recursion_desired,
            query.qname@ == self.qname@,
            query.qtype == dns::A,
            query.qtype == 1,
            self.well_formed() ==> query.encodable(),
    {
        Query {
            id,
            recursion_desired: true,
            qname: self.qname.as_str().to_owned(),
            qtype: dns::A,
        }
    }

    /// A fresh query for the configured name. The id is randomised per query,
    /// and both checks verify it on the way back, so a stale or mismatched
    /// response cannot be mistaken for a live one.
    pub fn query(&self) -> (query: Query)
        ensures
            query.recursion_desired,
            query.qname@ == self.qname@,
            query.qtype == dns::A,
            query.qtype == 1,
            self.well_formed() ==> query.encodable(),
    {
        self.query_with(fresh_id())
    }
}

/// The address of a host.
#[derive(Debug, Clone, Copy, PartialEq, Eq, Structural)]
pub enum Address {
    V4(u32),
    V6(u128),
}

/// The first IPv4 address, if there is one.
pub open spec fn first_v4(addrs: Seq<Address>) -> Option<Address>
    decreases addrs.len(),
{
    if addrs.len() == 0 {
        None
    } else if addrs[0] is V4 {
        Some(addrs[0])
    } else {
        first_v4(addrs.drop_first())
    }
}

/// The address that is checked, of those that a name resolves to: the first
/// IPv4 address if there is one, and otherwise the first address.
pub open spec fn preferred(addrs: Seq<Address>) -> Option<Address> {
    if first_v4(addrs) is Some {
        first_v4(addrs)
    } else if addrs.len() > 0 {
        Some(addrs[0])
    } else {
        None
    }
}

/// What a node's name is looked up as.
pub fn lookup_target(node: &Node) -> (target: String)
    ensures
        target@ == node.host@ + ".:0"@,
{
    let mut target = node.host.as_str().to_owned();
    target.append(".:0");
    target
}

/// Picks a node's address once per round, so all three of its checks target
/// the same server and a partial round-robin cannot produce mixed results.
///
/// `found` is what looking up the node's `lookup_target` gave. The trailing dot
/// in that matters: a Kubernetes pod's resolv.conf carries `ndots:5` and search
/// domains, and without it the search list is tried first.
///
/// IPv4 is preferred rather than taking whichever address the resolver happened
/// to return first. These nodes are dual stack, and an arbitrary choice would
/// make the DoT and certificate checks, which connect to this address, disagree
/// with the DoH check, which resolves and falls back on its own -- showing a
/// node as half down when it is not.
pub fn resolve(node: &Node, found: Result<Vec<Address>, String>) -> (result: Result<
    Address,
    String,
>)
    ensures
        plain(result) == match found {
            Err(err) => Err(with_cause("could not resolve "@ + node.host@, err@)),
            Ok(addrs) => match preferred(addrs@) {
                Some(addr) => Ok(addr),
                None => Err("no address for "@ + node.host@),
            },
        },
        result is Ok <==> (found matches Ok(addrs) && addrs@.len() > 0),
        found matches Err(cause) ==> (result matches Err(err) && err@ == "could not resolve "@
            + node.host@ + ": "@ + cause@),
        found matches Ok(addrs) ==> {
            &&& addrs@.len() == 0 ==> (result matches Err(err) && err@ == "no address for "@
                + node.host@)
            &&& forall|i: int|
                0 <= i < addrs@.len() && addrs@[i] is V4 && (forall|j: int|
                    0 <= j < i ==> addrs@[j] is V6) ==> result == Ok::<Address, String>(
                    #[trigger] addrs@[i],
                )
            &&& addrs@.len() > 0 && (forall|i: int| 0 <= i < addrs@.len() ==> addrs@[i] is V6)
                ==> result == Ok::<Address, String>(addrs@[0])
        },
{
    match found {
        Err(err) => {
            let mut what = "could not resolve ".to_owned();
            what.append(node.host.as_str());
            Err(context(what.as_str(), err.as_str()))
        },
        Ok(addrs) => match prefer(&addrs) {
            Some(addr) => Ok(addr),
            None => {
                let mut msg = "no address for ".to_owned();
                msg.append(node.host.as_str());
                Err(msg)
            },
        },
    }
}

/// The address to check, of those that a name resolves to.
pub fn prefer(addrs: &Vec<Address>) -> (choice: Option<Address>)
    ensures
        choice == preferred(addrs@),
        choice is None <==> addrs@.len() == 0,
        forall|i: int|
            0 <= i < addrs@.len() && addrs@[i] is V4 && (forall|j: int|
                0 <= j < i ==> addrs@[j] is V6) ==> choice == Some(#[trigger] addrs@[i]),
        addrs@.len() > 0 && (forall|i: int| 0 <= i < addrs@.len() ==> addrs@[i] is V6) ==> choice
            == Some(addrs@[0]),
{
    let mut i: usize = 0;
    assert(addrs@.skip(0) =~= addrs@);
    while i < addrs.len()
        invariant
            i <= addrs.len(),
            first_v4(addrs@) == first_v4(addrs@.skip(i as int)),
            forall|j: int| 0 <= j < i ==> addrs@[j] is V6,
        decreases addrs.len() - i,
    {
        if let Address::V4(bits) = addrs[i] {
            return Some(Address::V4(bits));
        }
        assert(addrs@.skip(i as int).drop_first() =~= addrs@.skip(i + 1));
        i = i + 1;
    }
    if addrs.len() > 0 {
        Some(addrs[0])
    } else {
        None
    }
}

/// A chosen address is one of those that were found, and is an IPv4 address if
/// any of them is. There is none only if nothing was found.
pub proof fn preferred_address_was_found(addrs: Seq<Address>)
    ensures
        preferred(addrs) is None <==> addrs.len() == 0,
        preferred(addrs) matches Some(addr) ==> addrs.contains(addr),
        forall|i: int|
            0 <= i < addrs.len() && addrs[i] is V4 ==> (preferred(addrs) matches Some(addr)
                && addr is V4),
{
    first_v4_is_found(addrs);
    if addrs.len() > 0 {
        assert(addrs.contains(addrs[0]));
    }
}

proof fn first_v4_is_found(addrs: Seq<Address>)
    ensures
        first_v4(addrs) matches Some(addr) ==> addr is V4 && addrs.contains(addr),
        first_v4(addrs) is None ==> forall|i: int| 0 <= i < addrs.len() ==> addrs[i] is V6,
    decreases addrs.len(),
{
    if addrs.len() > 0 && !(addrs[0] is V4) {
        let rest = addrs.drop_first();
        first_v4_is_found(rest);
        if let Some(addr) = first_v4(rest) {
            let i = choose|i: int| 0 <= i < rest.len() && rest[i] == addr;
            assert(addrs[i + 1] == addr);
        } else {
            assert forall|i: int| 0 <= i < addrs.len() implies addrs[i] is V6 by {
                if i > 0 {
                    assert(rest[i - 1] is V6);
                }
            }
        }
    }
}

/// The choice is the first IPv4 address, whatever IPv6 addresses stand before it
/// and whatever follows it.
pub proof fn only_the_first_v4_counts(before: Seq<Address>, v4: Address, after: Seq<Address>)
    requires
        v4 is V4,
        forall|i: int| 0 <= i < before.len() ==> before[i] is V6,
    ensures
        preferred(before + seq![v4] + after) == Some(v4),
    decreases before.len(),
{
    let addrs = before + seq![v4] + after;
    if before.len() > 0 {
        only_the_first_v4_counts(before.drop_first(), v4, after);
        assert(addrs.drop_first() =~= before.drop_first() + seq![v4] + after);
        assert(addrs[0] == before[0]);
        first_v4_is_found(before.drop_first() + seq![v4] + after);
        assert((before.drop_first() + seq![v4] + after)[before.len() - 1] == v4);
    } else {
        assert(addrs[0] == v4);
    }
}

/// Without an IPv4 address the choice is the first address of all.
pub proof fn without_v4_the_first_address_counts(addrs: Seq<Address>)
    requires
        addrs.len() > 0,
        forall|i: int| 0 <= i < addrs.len() ==> addrs[i] is V6,
    ensures
        preferred(addrs) == Some(addrs[0]),
{
    first_v4_is_found(addrs);
    if let Some(addr) = first_v4(addrs) {
        let i = choose|i: int| 0 <= i < addrs.len() && addrs[i] == addr;
        assert(addrs[i] is V6);
    }
}

/// What `rustls::pki_types::ServerName::try_from` has against a name, if
/// anything: the text of its error.
pub uninterp spec fn server_name_problem(host: Seq<char>) -> Option<Seq<char>>;

/// Calls `rustls::pki_types::ServerName::try_from` for its verdict on a name.
/// That verdict is a function of the name alone; which names it takes is not
/// spelled out.
#[verifier::external_body]
fn check_server_name(host: &str) -> (result: Result<(), String>)
    ensures
        plain(result) == match server_name_problem(host@) {
            Some(problem) => Err(problem),
            None => Ok(()),
        },
{
    match ServerName::try_from(host.to_owned()) {
        Ok(_) => Ok(()),
        Err(err) => Err(format!("{:#}", anyhow::Error::from(err))),
    }
}

/// The name to offer in the TLS handshake with one of a node's ports, and the
/// connection to shake hands over, given how connecting went; or why the
/// handshake cannot go ahead.
///
/// `addr` is the address already resolved for this round with the port, while
/// the name offered for SNI and checked against the certificate is the node's
/// hostname.
pub fn tls_connect<T>(node: &Node, addr: &str, connected: Result<T, String>) -> (result: Result<
    (String, T),
    String,
>)
    ensures
        result is Ok <==> connected is Ok && server_name_problem(node.host@) is None,
        connected matches Err(cause) ==> (result matches Err(err) && err@
            == "could not connect to "@ + addr@ + ": "@ + cause@),
        connected is Ok ==> (server_name_problem(node.host@) matches Some(problem) ==> (
        result matches Err(err) && err@ == "invalid server name "@ + node.host@ + ": "@ + problem)),
        match connected {
            Err(cause) => result matches Err(err) && err@ == with_cause(
                "could not connect to "@ + addr@,
                cause@,
            ),
            Ok(connection) => match server_name_problem(node.host@) {
                Some(problem) => result matches Err(err) && err@ == with_cause(
                    "invalid server name "@ + node.host@,
                    problem,
                ),
                None => {
                    &&& result matches Ok((name, over))
                    &&& name@ == node.host@
                    &&& over == connection
                },
            },
        },
{
    let connection = match connected {
        Ok(connection) => connection,
        Err(err) => {
            let mut what = "could not connect to ".to_owned();
            what.append(addr);
            return Err(context(what.as_str(), err.as_str()));
        },
    };
    match check_server_name(node.host.as_str()) {
        Ok(()) => Ok((node.host.as_str().to_owned(), connection)),
        Err(err) => {
            let mut what = "invalid server name ".to_owned();
            what.append(node.host.as_str());
            Err(context(what.as_str(), err.as_str()))
        },
    }
}

/// The verified TLS connection that stands, given how the handshake went; or why
/// none does.
///
/// Verification is on, so a stale or expired certificate fails here rather than
/// being silently accepted.
pub fn tls_established<T>(addr: &str, handshake: Result<T, String>) -> (result: Result<T, String>)
    ensures
        plain(result) == map_cause(plain(handshake), "TLS handshake with "@ + addr@ + " failed"@),
        handshake matches Ok(connection) ==> result == Ok::<T, String>(connection),
        handshake matches Err(cause) ==> (result matches Err(err) && err@
            == "TLS handshake with "@ + addr@ + " failed"@ + ": "@ + cause@),
{
    match handshake {
        Ok(connection) => Ok(connection),
        Err(err) => {
            let mut what = "TLS handshake with ".to_owned();
            what.append(addr);
            what.append(" failed");
            Err(context(what.as_str(), err.as_str()))
        },
    }
}

/// Bounds a check, so one unreachable node cannot hold up the round it is in.
///
/// `finished` is what the check came to, if it came to anything in time.
pub fn with_timeout<T>(duration: Span, finished: Option<Result<T, String>>) -> (result: Result<
    T,
    String,
>)
    ensures
        match finished {
            Some(in_time) => result == in_time,
            None => result matches Err(err) && err@ == "timed out after "@ + duration.reads(),
        },
        finished is None ==> (result matches Err(err) && err@ == "timed out after "@
            + duration_text(duration.secs(), duration.nanos())),
{
    match finished {
        Some(in_time) => in_time,
        None => {
            let mut msg = "timed out after ".to_owned();
            msg.append(duration.text().as_str());
            Err(msg)
        },
    }
}

/// A message on a single line.
pub open spec fn single_line(msg: Seq<char>) -> Seq<char> {
    msg.map_values(
        |c: char|
            if c == '\n' {
                ' '
            } else {
                c
            },
    )
}

/// The longest message that is shown whole.
pub const MAX: usize = 110;

/// What `truncate` keeps of a message.
pub open spec fn truncated(msg: Seq<char>) -> Seq<char> {
    let line = single_line(msg);
    if line.len() <= MAX {
        line
    } else {
        line.take(MAX - 1).push('\u{2026}')
    }
}

/// uptime-kuma stores a push message verbatim and shows it on one line, so keep
/// it to something that reads in the monitor list.
pub fn truncate(msg: &str) -> (out: String)
    ensures
        out@ == truncated(msg@),
        msg@.len() <= 110 ==> out@.len() == msg@.len(),
        msg@.len() > 110 ==> out@.len() == 110 && out@[109] == '\u{2026}',
        forall|i: int|
            0 <= i < msg@.len() && (msg@.len() <= 110 || i < 109) ==> #[trigger] out@[i] == (
            if msg@[i] == '\n' {
                ' '
            } else {
                msg@[i]
            }),
{
    let mut line = String::new();
    for c in it: msg.chars()
        invariant
            it.seq() == msg@,
            line@ == single_line(msg@.take(it.index())),
    {
        let ghost before = msg@.take(it.index());
        let c = if c == '\n' {
            ' '
        } else {
            c
        };
        line.push(c);
        assert(msg@.take(it.index() + 1) =~= before.push(msg@[it.index()]));
        assert(single_line(before.push(msg@[it.index()])) =~= single_line(before).push(c));
    }
    assert(msg@.take(msg@.len() as int) =~= msg@);
    if line.as_str().unicode_len() <= MAX {
        return line;
    }
    let mut out = line.as_str().substring_char(0, MAX - 1).to_owned();
    out.push('\u{2026}');
    assert(line@.subrange(0, MAX - 1) =~= line@.take(MAX - 1));
    out
}

/// A message of up to 110 characters is kept whole, and of a longer one the
/// first 109 are kept and an ellipsis follows. What is kept stays in its place,
/// but for each end of a line, which becomes a space.
pub proof fn truncating_keeps_the_front(msg: Seq<char>)
    ensures
        msg.len() <= 110 ==> truncated(msg).len() == msg.len(),
        msg.len() > 110 ==> truncated(msg).len() == 110 && truncated(msg)[109] == '\u{2026}',
        forall|i: int|
            0 <= i < msg.len() && (msg.len() <= 110 || i < 109) ==> {
                &&& msg[i] == '\n' ==> #[trigger] truncated(msg)[i] == ' '
                &&& msg[i] != '\n' ==> truncated(msg)[i] == msg[i]
            },
{
}

/// A truncated message has at most so many characters, none of which ends the
/// line.
pub proof fn truncated_fits_on_a_line(msg: Seq<char>)
    ensures
        truncated(msg).len() <= MAX,
        forall|i: int| 0 <= i < truncated(msg).len() ==> truncated(msg)[i] != '\n',
{
}

/// A message that fits and is on one line already is left as it is.
pub proof fn short_line_is_kept(msg: Seq<char>)
    requires
        msg.len() <= MAX,
        forall|i: int| 0 <= i < msg.len() ==> msg[i] != '\n',
    ensures
        truncated(msg) == msg,
{
    assert(single_line(msg) =~= msg);
}

/// Truncating a message a second time changes nothing.
pub proof fn truncating_twice_changes_nothing(msg: Seq<char>)
    ensures
        truncated(truncated(msg)) == truncated(msg),
{
    truncated_fits_on_a_line(msg);
    short_line_is_kept(truncated(msg));
}

/// A name is looked up as it is, with a dot behind it that ends it.
pub proof fn lookup_is_of_the_whole_name(node: Node, target: String)
    requires
        call_ensures(lookup_target, (&node,), target),
    ensures
        target@.len() == node.host@.len() + 3,
        target@.take(node.host@.len() as int) == node.host@,
        target@[node.host@.len() as int] == '.',
        target@.skip(node.host@.len() as int + 1) == ":0"@,
{
    reveal_strlit(".:0");
    reveal_strlit(":0");
    assert(target@.take(node.host@.len() as int) =~= node.host@);
    assert(target@.skip(node.host@.len() as int + 1) =~= ":0"@);
}

/// A name that resolves to anything has an address, which is one of those found,
/// whatever the name; one that does not has none.
pub proof fn resolving_takes_a_found_address(
    node: Node,
    found: Result<Vec<Address>, String>,
    result: Result<Address, String>,
)
    requires
        call_ensures(resolve, (&node, found), result),
    ensures
        result is Ok <==> found is Ok && found->Ok_0@.len() > 0,
        result matches Ok(addr) ==> found->Ok_0@.contains(addr),
        result matches Ok(addr) ==> (addr is V6 ==> {
            &&& addr == found->Ok_0@[0]
            &&& forall|i: int| 0 <= i < found->Ok_0@.len() ==> found->Ok_0@[i] is V6
        }),
{
    if let Ok(addrs) = found {
        preferred_address_was_found(addrs@);
        first_v4_is_found(addrs@);
    }
}

/// The name that is offered is the node's, whatever address was connected to, and
/// a connection is never swapped for another.
pub proof fn name_offered_is_that_of_the_node<T>(
    node: Node,
    addr: &str,
    connection: T,
    result: Result<(String, T), String>,
)
    requires
        call_ensures(tls_connect::<T>, (&node, addr, Ok(connection)), result),
    ensures
        result is Ok <==> server_name_problem(node.host@) is None,
        result matches Ok((name, over)) ==> name@ == node.host@ && over == connection,
{
}

/// A connection that failed, or that could not be verified, is never gone on with.
pub proof fn failed_connection_is_not_used<T>(
    node: Node,
    addr: &str,
    why: String,
    connected: Result<(String, T), String>,
    established: Result<T, String>,
)
    requires
        call_ensures(tls_connect::<T>, (&node, addr, Err(why)), connected),
        call_ensures(tls_established::<T>, (addr, Err(why)), established),
    ensures
        connected is Err,
        established is Err,
{
}

/// What a check came to in time stands, and nothing else counts as success.
pub proof fn in_time_or_not_at_all<T>(
    duration: Span,
    finished: Option<Result<T, String>>,
    result: Result<T, String>,
)
    requires
        call_ensures(with_timeout::<T>, (duration, finished), result),
    ensures
        finished is Some ==> result == finished->0,
        result is Ok ==> finished == Some(result),
{
}

/// A prober asks for the name it was made with, and warns as early as it was told
/// to. Every query of it can be put on the wire.
pub proof fn prober_asks_for_its_name(
    qname: &str,
    timeout: Span,
    warn_days: i64,
    result: Result<Prober, Refusal>,
    id: u16,
    query: Query,
)
    requires
        call_ensures(Prober::new, (qname, timeout, warn_days), result),
        result is Ok,
        call_ensures(Prober::query_with, (&result->Ok_0, id), query),
    ensures
        result->Ok_0.timeout == timeout,
        result->Ok_0.warn_days == warn_days,
        query.qname@ == qname@,
        query.id == id,
        query.recursion_desired,
        query.qtype == 1,
        name_problem(query.qname@) is None,
{
}

/// An outcome's status is `up` exactly when it is.
pub proof fn status_tells_up_from_down(outcome: Outcome, status: &'static str)
    requires
        call_ensures(Outcome::status, (&outcome,), status),
    ensures
        status@ == "up"@ <==> outcome.up,
        status@ == "down"@ <==> !outcome.up,
{
    reveal_strlit("up");
    reveal_strlit("down");
    assert("up"@.len() != "down"@.len());
}

} // verus!
