//! The check of DNS over HTTPS.

use vstd::pervasive::unreached;
use vstd::prelude::*;
use crate::check::dns::{
    answers, is_query, judge_body, name_problem, query_wire, reply_of, verdict, Query,
};
use crate::check::{truncate, truncated, truncating_keeps_the_front, Outcome, OutcomeView};
use crate::config::Node;
use crate::text::{context, decimal, plain, with_cause};

verus! {

/// The media type of a DNS message.
pub open spec fn dns_message() -> Seq<char> {
    "application/dns-message"@
}

/// A version of HTTP.
#[derive(Debug, Clone, Copy, PartialEq, Eq, Structural)]
pub enum HttpVersion {
    Http09,
    Http10,
    Http11,
    Http2,
    Http3,
}

impl HttpVersion {
    /// How the version is written.
    pub open spec fn name(self) -> Seq<char> {
        match self {
            HttpVersion::Http09 => "HTTP/0.9"@,
            HttpVersion::Http10 => "HTTP/1.0"@,
            HttpVersion::Http11 => "HTTP/1.1"@,
            HttpVersion::Http2 => "HTTP/2.0"@,
            HttpVersion::Http3 => "HTTP/3.0"@,
        }
    }

    pub fn as_str(&self) -> (name: &'static str)
        ensures
            name@ == self.name(),
            *self == HttpVersion::Http09 ==> name@ == "HTTP/0.9"@,
            *self == HttpVersion::Http10 ==> name@ == "HTTP/1.0"@,
            *self == HttpVersion::Http11 ==> name@ == "HTTP/1.1"@,
            *self == HttpVersion::Http2 ==> name@ == "HTTP/2.0"@,
            *self == HttpVersion::Http3 ==> name@ == "HTTP/3.0"@,
    {
        match self {
            HttpVersion::Http09 => "HTTP/0.9",
            HttpVersion::Http10 => "HTTP/1.0",
            HttpVersion::Http11 => "HTTP/1.1",
            HttpVersion::Http2 => "HTTP/2.0",
            HttpVersion::Http3 => "HTTP/3.0",
        }
    }
}

/// How `reqwest::StatusCode` spells out a status: the number, a space, and the
/// reason phrase that goes with it.
pub uninterp spec fn status_text(status: u16) -> Seq<char>;

/// Formats a `reqwest::StatusCode` with its `Display` implementation. The text
/// is a function of the status, and begins with its number and a space; the
/// table of reason phrases is not spelled out.
#[verifier::external_body]
fn status_display(status: u16) -> (text: String)
    requires
        100 <= status <= 999,
    ensures
        text@ == status_text(status),
        (decimal(status as nat) + " "@).is_prefix_of(text@),
{
    match reqwest::StatusCode::from_u16(status) {
        Ok(status) => status.to_string(),
        Err(err) => err.to_string(),
    }
}

/// Whether a status reports success.
pub open spec fn is_success(status: u16) -> bool {
    200 <= status < 300
}

/// A request for a DNS message, made of one.
pub struct Post {
    pub url: String,
    pub content_type: &'static str,
    pub accept: &'static str,
    pub body: Vec<u8>,
}

/// Where a query over HTTPS stands.
pub enum Dialogue {
    /// The request, made of a query with this id, is on its way.
    Requesting { id: u16 },
    /// The body of the response is being read.
    Reading { id: u16 },
    /// There is nothing left to do.
    Finished,
}

/// What is to be done next.
pub enum Action {
    /// Send this request, and wait for the head of the response.
    Send(Post),
    /// Read the body of the response.
    ReadBody,
    /// Stop: this is what the query came to.
    Finish(Result<(), String>),
}

/// How it went.
pub enum Event {
    /// The head of the response arrived.
    Head { version: HttpVersion, status: u16 },
    /// The body of the response was read.
    Body(Vec<u8>),
    /// It failed, for this reason.
    Failed(String),
}

/// An action, with plain values for what it carries.
pub enum ActionView {
    Send { url: Seq<char>, content_type: Seq<char>, accept: Seq<char>, body: Seq<u8> },
    ReadBody,
    Finish(Result<(), Seq<char>>),
}

impl View for Action {
    type V = ActionView;

    open spec fn view(&self) -> ActionView {
        match *self {
            Action::Send(post) => ActionView::Send {
                url: post.url@,
                content_type: post.content_type@,
                accept: post.accept@,
                body: post.body@,
            },
            Action::ReadBody => ActionView::ReadBody,
            Action::Finish(result) => ActionView::Finish(plain(result)),
        }
    }
}

/// What is wrong with the head of a response, if anything.
///
/// dnsdist 1.9+ enforces RFC 8484 section 5.2 and rejects DoH over HTTP/1.1
/// with a 400, so in practice a 2xx already implies h2. It is asserted anyway:
/// that assertion is the reason this check exists rather than an uptime-kuma
/// HTTP(s) monitor, and a 2xx alone would not catch a downgrade.
pub open spec fn head_problem(version: HttpVersion, status: u16) -> Option<Seq<char>> {
    if version != HttpVersion::Http2 {
        Some("did not negotiate HTTP/2 (got "@ + version.name() + ")"@)
    } else if !is_success(status) {
        Some("HTTP "@ + status_text(status))
    } else {
        None
    }
}

/// Looks for what is wrong with the head of a response: first its version, then
/// its status.
pub fn check_head(version: HttpVersion, status: u16) -> (problem: Option<String>)
    requires
        100 <= status <= 999,
    ensures
        match head_problem(version, status) {
            Some(text) => problem matches Some(found) && found@ == text,
            None => problem is None,
        },
        problem is None <==> version == HttpVersion::Http2 && 200 <= status <= 299,
        version != HttpVersion::Http2 ==> (problem matches Some(found) && found@
            == "did not negotiate HTTP/2 (got "@ + version.name() + ")"@),
        version == HttpVersion::Http2 ==> (problem matches Some(found) ==> {
            &&& found@ == "HTTP "@ + status_text(status)
            &&& ("HTTP "@ + decimal(status as nat) + " "@).is_prefix_of(found@)
        }),
{
    if version != HttpVersion::Http2 {
        let mut msg = "did not negotiate HTTP/2 (got ".to_owned();
        msg.append(version.as_str());
        msg.append(")");
        Some(msg)
    } else if status < 200 || 300 <= status {
        let mut msg = "HTTP ".to_owned();
        msg.append(status_display(status).as_str());
        proof {
            let front = decimal(status as nat) + " "@;
            let text = status_text(status);
            assert(front.is_prefix_of(text));
            assert("HTTP "@ + decimal(status as nat) + " "@ =~= "HTTP "@ + front);
            assert forall|i: int| 0 <= i < front.len() implies front[i] == text[i] by {
                assert(front == text.take(front.len() as int));
            }
            assert("HTTP "@ + front =~= ("HTTP "@ + text).take(("HTTP "@ + front).len() as int));
        }
        Some(msg)
    } else {
        None
    }
}

/// The head of a response is as it should be exactly when it came over HTTP/2
/// with a 2xx. Another version is found before the status is looked at.
pub proof fn good_head_exactly_over_http2_with_a_2xx(
    version: HttpVersion,
    status: u16,
    other: u16,
)
    ensures
        head_problem(version, status) is None <==> version == HttpVersion::Http2 && 200 <= status
            <= 299,
        version != HttpVersion::Http2 ==> {
            &&& head_problem(version, status) == head_problem(version, other)
            &&& head_problem(version, status) == Some(
                "did not negotiate HTTP/2 (got "@ + version.name() + ")"@,
            )
        },
        version == HttpVersion::Http2 && !(200 <= status <= 299) ==> head_problem(version, status)
            == Some("HTTP "@ + status_text(status)),
        is_success(status) <==> 200 <= status <= 299,
{
}

/// Each version of HTTP is written with its number.
pub proof fn versions_are_written_with_their_number(version: HttpVersion)
    ensures
        version == HttpVersion::Http09 ==> version.name() == "HTTP/0.9"@,
        version == HttpVersion::Http10 ==> version.name() == "HTTP/1.0"@,
        version == HttpVersion::Http11 ==> version.name() == "HTTP/1.1"@,
        version == HttpVersion::Http2 ==> version.name() == "HTTP/2.0"@,
        version == HttpVersion::Http3 ==> version.name() == "HTTP/3.0"@,
        dns_message() == "application/dns-message"@,
{
}

/// The view of an action shows all that it carries.
pub proof fn view_shows_the_action(action: Action)
    ensures
        action matches Action::Send(post) ==> (action@ matches ActionView::Send {
            url,
            content_type,
            accept,
            body,
        } && url == post.url@ && content_type == post.content_type@ && accept == post.accept@
            && body == post.body@),
        action is ReadBody <==> action@ is ReadBody,
        action matches Action::Finish(Ok(_)) ==> action@ == ActionView::Finish(Ok(())),
        action matches Action::Finish(Err(err)) ==> action@ == ActionView::Finish(Err(err@)),
{
}

impl Dialogue {
    /// Whether an event answers what was asked for in this state.
    pub open spec fn awaits(self, event: Event) -> bool {
        match self {
            Dialogue::Requesting { .. } => match event {
                Event::Head { status, .. } => 100 <= status <= 999,
                Event::Body(_) => false,
                Event::Failed(_) => true,
            },
            Dialogue::Reading { .. } => !(event is Head),
            Dialogue::Finished => false,
        }
    }

    /// The error that a failure in this state ends the query with.
    pub open spec fn failure(self, why: Seq<char>) -> Seq<char> {
        match self {
            Dialogue::Requesting { .. } => with_cause("request failed"@, why),
            Dialogue::Reading { .. } => with_cause("could not read response"@, why),
            Dialogue::Finished => why,
        }
    }

    /// The id of the query.
    pub open spec fn id(self) -> u16 {
        match self {
            Dialogue::Requesting { id } => id,
            Dialogue::Reading { id } => id,
            Dialogue::Finished => 0,
        }
    }

    /// What follows an event.
    pub open spec fn after(self, event: Event) -> (Dialogue, ActionView) {
        match event {
            Event::Failed(why) => (
                Dialogue::Finished,
                ActionView::Finish(Err(self.failure(why@))),
            ),
            Event::Head { version, status } => match head_problem(version, status) {
                Some(problem) => (Dialogue::Finished, ActionView::Finish(Err(problem))),
                None => (Dialogue::Reading { id: self.id() }, ActionView::ReadBody),
            },
            Event::Body(bytes) => (
                Dialogue::Finished,
                ActionView::Finish(verdict(self.id(), reply_of(bytes@))),
            ),
        }
    }

    /// Takes the query one step further. It is up only if the response that was
    /// read answers it.
    pub fn step(self, event: Event) -> (next: (Dialogue, Action))
        requires
            self.awaits(event),
        ensures
            (next.0, next.1@) == self.after(event),
            next.1@ == ActionView::Finish(Ok(())) ==> {
                &&& self matches Dialogue::Reading { id }
                &&& event matches Event::Body(bytes)
                &&& answers(id, bytes@)
            },
            match event {
                Event::Head { version, status } => if version == HttpVersion::Http2 && 200
                    <= status <= 299 {
                    &&& self matches Dialogue::Requesting { id }
                    &&& next.0 == Dialogue::Reading { id }
                    &&& next.1 is ReadBody
                } else {
                    &&& next.0 is Finished
                    &&& next.1 matches Action::Finish(Err(_))
                },
                Event::Body(bytes) => {
                    &&& self matches Dialogue::Reading { id }
                    &&& next.0 is Finished
                    &&& next.1 matches Action::Finish(result)
                    &&& result is Ok <==> reply_of(bytes@) == Ok::<(u16, u16), Seq<char>>((id, 0))
                },
                Event::Failed(why) => {
                    &&& next.0 is Finished
                    &&& next.1 matches Action::Finish(Err(err))
                    &&& self is Requesting ==> err@ == "request failed"@ + ": "@ + why@
                    &&& self is Reading ==> err@ == "could not read response"@ + ": "@ + why@
                },
            },
    {
        match self {
            Dialogue::Requesting { id } => match event {
                Event::Failed(why) => (
                    Dialogue::Finished,
                    Action::Finish(Err(context("request failed", why.as_str()))),
                ),
                Event::Head { version, status } => match check_head(version, status) {
                    Some(problem) => (Dialogue::Finished, Action::Finish(Err(problem))),
                    None => (Dialogue::Reading { id }, Action::ReadBody),
                },
                Event::Body(_) => unreached(),
            },
            Dialogue::Reading { id } => match event {
                Event::Failed(why) => (
                    Dialogue::Finished,
                    Action::Finish(Err(context("could not read response", why.as_str()))),
                ),
                Event::Body(bytes) => (
                    Dialogue::Finished,
                    Action::Finish(judge_body(id, bytes.as_slice())),
                ),
                Event::Head { .. } => unreached(),
            },
            Dialogue::Finished => unreached(),
        }
    }
}

/// While the request is on its way, a head with any status or a failure may come;
/// while the body is being read, a body or a failure; and after that nothing.
pub proof fn what_is_awaited(state: Dialogue, event: Event)
    ensures
        state is Requesting ==> (state.awaits(event) <==> match event {
            Event::Head { status, .. } => 100 <= status <= 999,
            Event::Body(_) => false,
            Event::Failed(_) => true,
        }),
        state is Reading ==> (state.awaits(event) <==> event is Body || event is Failed),
        state is Finished ==> !state.awaits(event),
{
}

/// A query comes to success exactly when the body of its response was read, and
/// that parses, carries the query's id, and reports no error.
pub proof fn success_takes_a_live_response(state: Dialogue, event: Event)
    requires
        state.awaits(event),
    ensures
        state.after(event).1 == ActionView::Finish(Ok(())) <==> {
            &&& state matches Dialogue::Reading { id }
            &&& event matches Event::Body(bytes)
            &&& reply_of(bytes@) == Ok::<(u16, u16), Seq<char>>((id, 0))
        },
{
}

/// A query goes on exactly when a head arrived over HTTP/2 with a 2xx: then the
/// body is read for the same query. Everything else is the end of it.
pub proof fn query_goes_on_after_a_good_head_only(state: Dialogue, event: Event)
    requires
        state.awaits(event),
    ensures
        state.after(event).0 is Finished <==> state.after(event).1 is Finish,
        !(state.after(event).0 is Finished) <==> {
            &&& event matches Event::Head { version, status }
            &&& version == HttpVersion::Http2
            &&& 200 <= status <= 299
        },
        !(state.after(event).0 is Finished) ==> {
            &&& state matches Dialogue::Requesting { id }
            &&& state.after(event) == (Dialogue::Reading { id }, ActionView::ReadBody)
        },
{
}

/// A failure ends the query with what it got in the way of, and its reason.
pub proof fn failure_says_what_it_got_in_the_way_of(state: Dialogue, why: String)
    requires
        !(state is Finished),
    ensures
        ({
            let (next, action) = state.after(Event::Failed(why));
            &&& next is Finished
            &&& action matches ActionView::Finish(Err(err))
            &&& state is Requesting ==> err == "request failed"@ + ": "@ + why@
            &&& state is Reading ==> err == "could not read response"@ + ": "@ + why@
        }),
{
}

/// Starts a query: it is encoded, and posted to the node as a DNS message for
/// which one is accepted in return.
pub fn query(request: &Query, node: &Node) -> (first: (Dialogue, Action))
    ensures
        match name_problem(request.qname@) {
            Some(problem) => {
                &&& first.0 is Finished
                &&& first.1@ == ActionView::Finish(
                    Err(with_cause("could not encode query"@, problem)),
                )
            },
            None => {
                &&& first.0 == Dialogue::Requesting { id: request.id }
                &&& first.1@ == ActionView::Send {
                    url: "https://"@ + node.host@ + "/dns-query"@,
                    content_type: dns_message(),
                    accept: dns_message(),
                    body: request.wire(),
                }
                &&& is_query(
                    request.wire(),
                    request.id,
                    request.recursion_desired,
                    request.qtype,
                )
            },
        },
        name_problem(request.qname@) matches Some(problem) ==> {
            &&& first.1 matches Action::Finish(Err(err))
            &&& err@ == "could not encode query"@ + ": "@ + problem
        },
        name_problem(request.qname@) is None ==> {
            &&& first.1 matches Action::Send(post)
            &&& post.url@ == "https://"@ + node.host@ + "/dns-query"@
            &&& post.content_type@ == "application/dns-message"@
            &&& post.accept@ == "application/dns-message"@
            &&& post.body@ == query_wire(
                request.id,
                request.recursion_desired,
                request.qname@,
                request.qtype,
            )
            &&& post.body@[0] * 256 + post.body@[1] == request.id
        },
{
    match request.to_vec() {
        Ok(wire) => {
            let mut url = "https://".to_owned();
            url.append(node.host.as_str());
            url.append("/dns-query");
            (
                Dialogue::Requesting { id: request.id },
                Action::Send(
                    Post {
                        url,
                        content_type: "application/dns-message",
                        accept: "application/dns-message",
                        body: wire,
                    },
                ),
            )
        },
        Err(err) => (
            Dialogue::Finished,
            Action::Finish(Err(context("could not encode query", err.as_str()))),
        ),
    }
}

/// A query that is answered over HTTP/2 with a 2xx comes to the verdict on the
/// body of the answer.
pub proof fn undisturbed_query_comes_to_the_verdict(id: u16, status: u16, body: Vec<u8>)
    requires
        is_success(status),
    ensures
        ({
            let asked = Dialogue::Requesting { id };
            let head = Event::Head { version: HttpVersion::Http2, status };
            let reading = asked.after(head);
            let done = reading.0.after(Event::Body(body));
            &&& asked.awaits(head)
            &&& reading.1 == ActionView::ReadBody
            &&& reading.0.awaits(Event::Body(body))
            &&& done == (
                Dialogue::Finished,
                ActionView::Finish(verdict(id, reply_of(body@))),
            )
        }),
{
}

/// An answer that was not given over HTTP/2 fails the query whatever its
/// status, and so does one without a 2xx whatever its version. Its body is not
/// read.
pub proof fn downgrade_or_bad_status_fails(id: u16, version: HttpVersion, status: u16)
    requires
        version != HttpVersion::Http2 || !is_success(status),
    ensures
        ({
            let next = Dialogue::Requesting { id }.after(Event::Head { version, status });
            &&& next.0 is Finished
            &&& next.1 matches ActionView::Finish(result)
            &&& result is Err
        }),
{
}

/// What the check reports of what a query came to.
pub open spec fn reported(result: Result<(), Seq<char>>, ms: int) -> OutcomeView {
    match result {
        Ok(()) => OutcomeView::up("doh ok"@, ms),
        Err(err) => OutcomeView::down(truncated(with_cause("doh"@, err)), ms),
    }
}

/// A check is up exactly when its query was answered, however long that took and
/// whatever went wrong. A failure may be retried, and shows what went wrong.
/// The ping is the time it took.
pub proof fn up_exactly_when_answered(result: Result<(), Seq<char>>, ms: int)
    ensures
        reported(result, ms).up <==> result is Ok,
        reported(result, ms).retryable <==> result is Err,
        reported(result, ms).ping == ms,
        result is Ok ==> reported(result, ms).msg == "doh ok"@,
        result matches Err(cause) ==> reported(result, ms).msg == truncated(
            "doh"@ + ": "@ + cause,
        ),
{
}

/// How long a query took changes nothing but the ping, and what went wrong
/// changes nothing but the message.
pub proof fn time_and_cause_are_independent(
    result: Result<(), Seq<char>>,
    ms: int,
    other_ms: int,
    cause: Seq<char>,
    other_cause: Seq<char>,
)
    ensures
        reported(result, ms).up == reported(result, other_ms).up,
        reported(result, ms).retryable == reported(result, other_ms).retryable,
        reported(result, ms).msg == reported(result, other_ms).msg,
        reported(Err(cause), ms).up == reported(Err(other_cause), ms).up,
        reported(Err(cause), ms).retryable == reported(Err(other_cause), ms).retryable,
        reported(Err(cause), ms).ping == reported(Err(other_cause), ms).ping,
{
}

/// What the check reports, given what the query came to and how long it took in
/// tenths of a millisecond.
pub fn check(result: Result<(), String>, ms: i64) -> (outcome: Outcome)
    ensures
        outcome@ == reported(plain(result), ms as int),
        outcome.up <==> result is Ok,
        outcome.retryable <==> result is Err,
        outcome.ping == ms,
        result is Ok ==> outcome.msg@ == "doh ok"@,
        result matches Err(cause) ==> outcome.msg@ == truncated("doh"@ + ": "@ + cause@),
{
    match result {
        Ok(()) => Outcome::up("doh ok".to_owned(), ms),
        Err(err) => Outcome::down(truncate(context("doh", err.as_str()).as_str()), ms),
    }
}

/// Of any two runs of the check, the one whose query was answered is up and the
/// one whose query was not is down, however long either took. What is up is
/// never retried, and what is down always may be.
pub proof fn check_tells_answered_from_failed(
    answered: i64,
    failed: i64,
    why: String,
    up: Outcome,
    down: Outcome,
)
    requires
        call_ensures(check, (Ok(()), answered), up),
        call_ensures(check, (Err(why), failed), down),
    ensures
        up.up && !down.up,
        !up.retryable && down.retryable,
        up.ping == answered && down.ping == failed,
        up.msg@ != down.msg@,
{
    reveal_strlit("doh ok");
    reveal_strlit("doh");
    reveal_strlit(": ");
    truncating_keeps_the_front("doh"@ + ": "@ + why@);
    assert(("doh"@ + ": "@ + why@)[3] == ':');
    assert(down.msg@[3] == ':');
    assert(up.msg@[3] == ' ');
}

/// A query that can be put on the wire is posted to the node's host over HTTPS, as
/// a DNS message for which one is accepted, and its id is waited for.
pub proof fn query_is_posted_to_the_node(request: Query, node: Node, first: (Dialogue, Action))
    requires
        call_ensures(query, (&request, &node), first),
    ensures
        first.1 is Finish <==> name_problem(request.qname@) is Some,
        first.0 is Finished <==> first.1 is Finish,
        first.1 matches Action::Send(post) ==> {
            &&& first.0 == (Dialogue::Requesting { id: request.id })
            &&& post.url@ == "https://"@ + node.host@ + "/dns-query"@
            &&& post.content_type@ == "application/dns-message"@
            &&& post.accept@ == "application/dns-message"@
            &&& post.body@[0] * 256 + post.body@[1] == request.id
        },
        first.1 matches Action::Finish(result) ==> result is Err,
{
}

} // verus!
