//! The check of DNS over TLS.

use vstd::pervasive::unreached;
use vstd::prelude::*;
use crate::check::dns::{
    answers, be16, is_query, judge_body, name_problem, query_wire, reply_of, verdict, Query,
};
use crate::check::{truncate, truncated, truncating_keeps_the_front, Address, Outcome, OutcomeView};
use crate::text::{context, plain, with_cause};

verus! {

/// The port of DNS over TLS.
pub const PORT: u16 = 853;

/// A message behind its length, which is counted in two octets.
///
/// DNS over TCP, and so over TLS, frames each message with a two-byte
/// big-endian length prefix (RFC 1035 section 4.2.2).
pub open spec fn framed(wire: Seq<u8>) -> Seq<u8> {
    let len = wire.len() % 0x1_0000;
    seq![(len / 256) as u8, (len % 256) as u8] + wire
}

/// Puts a message behind its length.
pub fn frame(wire: &Vec<u8>) -> (out: Vec<u8>)
    ensures
        out@ == framed(wire@),
        out@.len() == wire@.len() + 2,
        out@[0] * 256 + out@[1] == wire@.len() % 0x1_0000,
        out@.skip(2) == wire@,
{
    let len: usize = wire.len() % 0x1_0000;
    let mut out: Vec<u8> = Vec::new();
    out.push((len / 256) as u8);
    out.push((len % 256) as u8);
    out.extend_from_slice(wire.as_slice());
    assert(out@ =~= framed(wire@));
    assert(out@.skip(2) =~= wire@);
    out
}

/// The length that a prefix announces.
pub fn announced(prefix: &Vec<u8>) -> (len: u16)
    requires
        prefix.len() == 2,
    ensures
        len == be16(prefix@[0], prefix@[1]),
        len == prefix@[0] * 256 + prefix@[1],
{
    prefix[0] as u16 * 256 + prefix[1] as u16
}

/// The length in front of a message that it can count is the message's length,
/// and what follows is the message.
pub proof fn frame_announces_its_message(wire: Seq<u8>)
    requires
        wire.len() < 0x1_0000,
    ensures
        be16(framed(wire)[0], framed(wire)[1]) == wire.len(),
        framed(wire).skip(2) == wire,
{
    assert(framed(wire).skip(2) =~= wire);
}

/// A frame is two octets longer than its message, which follows them unchanged.
/// The first counts for 256 times the second, and together they count the
/// message's length as far as two octets go.
pub proof fn frame_is_its_message_behind_its_length(wire: Seq<u8>)
    ensures
        framed(wire).len() == wire.len() + 2,
        framed(wire)[0] * 256 + framed(wire)[1] == wire.len() % 0x1_0000,
        forall|i: int| 0 <= i < wire.len() ==> framed(wire)[i + 2] == #[trigger] wire[i],
{
}

/// Where a query over TLS stands.
pub enum Dialogue {
    /// The connection is being opened, for a query with this id and frame.
    Connecting { id: u16, frame: Vec<u8> },
    /// The frame is being written.
    Sending { id: u16 },
    /// What was written is being flushed.
    Flushing { id: u16 },
    /// The length of the response is being read.
    ReadingLength { id: u16 },
    /// The response, of this length, is being read.
    ReadingBody { id: u16, len: u16 },
    /// There is nothing left to do.
    Finished,
}

/// What is to be done on the connection next.
pub enum Action {
    /// Open a verified TLS connection to this address, on this port.
    Connect { addr: Address, port: u16 },
    /// Write these octets, all of them.
    Send(Vec<u8>),
    /// Flush what was written.
    Flush,
    /// Read exactly so many octets.
    Read(usize),
    /// Stop: this is what the query came to.
    Finish(Result<(), String>),
}

/// How it went.
pub enum Event {
    /// What was asked for is done.
    Done,
    /// These octets were read.
    Read(Vec<u8>),
    /// It failed, for this reason.
    Failed(String),
}

/// An action, with plain values for what it carries.
pub enum ActionView {
    Connect { addr: Address, port: u16 },
    Send(Seq<u8>),
    Flush,
    Read(int),
    Finish(Result<(), Seq<char>>),
}

impl View for Action {
    type V = ActionView;

    open spec fn view(&self) -> ActionView {
        match *self {
            Action::Connect { addr, port } => ActionView::Connect { addr, port },
            Action::Send(bytes) => ActionView::Send(bytes@),
            Action::Flush => ActionView::Flush,
            Action::Read(count) => ActionView::Read(count as int),
            Action::Finish(result) => ActionView::Finish(plain(result)),
        }
    }
}

/// The view of an action shows all that it carries.
pub proof fn view_shows_the_action(action: Action)
    ensures
        action matches Action::Connect { addr, port } ==> action@ == (ActionView::Connect {
            addr,
            port,
        }),
        action matches Action::Send(bytes) ==> action@ == ActionView::Send(bytes@),
        action is Flush <==> action@ is Flush,
        action matches Action::Read(count) ==> action@ == ActionView::Read(count as int),
        action matches Action::Finish(Ok(_)) ==> action@ == ActionView::Finish(Ok(())),
        action matches Action::Finish(Err(err)) ==> action@ == ActionView::Finish(Err(err@)),
{
}

impl Dialogue {
    /// Whether an event answers what was asked for in this state.
    pub open spec fn awaits(self, event: Event) -> bool {
        match self {
            Dialogue::Finished => false,
            Dialogue::ReadingLength { .. } => match event {
                Event::Read(bytes) => bytes@.len() == 2,
                Event::Done => false,
                Event::Failed(_) => true,
            },
            Dialogue::ReadingBody { len, .. } => match event {
                Event::Read(bytes) => bytes@.len() == len,
                Event::Done => false,
                Event::Failed(_) => true,
            },
            _ => !(event is Read),
        }
    }

    /// The error that a failure in this state ends the query with. Opening a
    /// connection names what it was doing by itself.
    pub open spec fn failure(self, why: Seq<char>) -> Seq<char> {
        match self {
            Dialogue::Sending { .. } => with_cause("could not send query"@, why),
            Dialogue::Flushing { .. } => with_cause("could not flush query"@, why),
            Dialogue::ReadingLength { .. } => with_cause("could not read response length"@, why),
            Dialogue::ReadingBody { .. } => with_cause("could not read response"@, why),
            _ => why,
        }
    }

    /// What follows when everything asked for in this state was done, and these
    /// octets were read if any were asked for. Nothing is asked for once the
    /// query is finished.
    pub open spec fn success(self, bytes: Seq<u8>) -> (Dialogue, ActionView) {
        match self {
            Dialogue::Connecting { id, frame } => (
                Dialogue::Sending { id },
                ActionView::Send(frame@),
            ),
            Dialogue::Sending { id } => (Dialogue::Flushing { id }, ActionView::Flush),
            Dialogue::Flushing { id } => (Dialogue::ReadingLength { id }, ActionView::Read(2)),
            Dialogue::ReadingLength { id } => {
                let len = be16(bytes[0], bytes[1]) as u16;
                (Dialogue::ReadingBody { id, len }, ActionView::Read(len as int))
            },
            Dialogue::ReadingBody { id, .. } => (
                Dialogue::Finished,
                ActionView::Finish(verdict(id, reply_of(bytes))),
            ),
            Dialogue::Finished => (Dialogue::Finished, ActionView::Finish(Err(Seq::empty()))),
        }
    }

    /// What follows an event.
    pub open spec fn after(self, event: Event) -> (Dialogue, ActionView) {
        match event {
            Event::Failed(why) => (
                Dialogue::Finished,
                ActionView::Finish(Err(self.failure(why@))),
            ),
            Event::Done => self.success(Seq::empty()),
            Event::Read(bytes) => self.success(bytes@),
        }
    }

    /// Takes the query one step further. It is up only if the response that was
    /// read answers it.
    pub fn step(self, event: Event) -> (next: (Dialogue, Action))
        requires
            self.awaits(event),
        ensures
            (next.0, next.1@) == self.after(event),
            next.1@ == ActionView::Finish(Ok(())) ==> {
                &&& self matches Dialogue::ReadingBody { id, .. }
                &&& event matches Event::Read(bytes)
                &&& answers(id, bytes@)
            },
            event matches Event::Failed(why) ==> {
                &&& next.0 is Finished
                &&& next.1 matches Action::Finish(Err(err))
                &&& self is Connecting ==> err@ == why@
                &&& self is Sending ==> err@ == "could not send query"@ + ": "@ + why@
                &&& self is Flushing ==> err@ == "could not flush query"@ + ": "@ + why@
                &&& self is ReadingLength ==> err@ == "could not read response length"@ + ": "@
                    + why@
                &&& self is ReadingBody ==> err@ == "could not read response"@ + ": "@ + why@
            },
            event is Done ==> match self {
                Dialogue::Connecting { id, frame } => {
                    &&& next.0 == Dialogue::Sending { id }
                    &&& next.1 matches Action::Send(bytes)
                    &&& bytes@ == frame@
                },
                Dialogue::Sending { id } => {
                    &&& next.0 == Dialogue::Flushing { id }
                    &&& next.1 is Flush
                },
                Dialogue::Flushing { id } => {
                    &&& next.0 == Dialogue::ReadingLength { id }
                    &&& next.1 == Action::Read(2)
                },
                _ => false,
            },
            event matches Event::Read(bytes) ==> match self {
                Dialogue::ReadingLength { id } => {
                    &&& next.0 matches Dialogue::ReadingBody { id: same, len }
                    &&& same == id
                    &&& len == bytes@[0] * 256 + bytes@[1]
                    &&& next.1 matches Action::Read(count)
                    &&& count == len
                },
                Dialogue::ReadingBody { id, .. } => {
                    &&& next.0 is Finished
                    &&& next.1 matches Action::Finish(result)
                    &&& result is Ok <==> reply_of(bytes@) == Ok::<(u16, u16), Seq<char>>((id, 0))
                },
                _ => false,
            },
    {
        match event {
            Event::Failed(why) => (
                Dialogue::Finished,
                Action::Finish(Err(self.explain(why))),
            ),
            Event::Done => match self {
                Dialogue::Connecting { id, frame } => (
                    Dialogue::Sending { id },
                    Action::Send(frame),
                ),
                Dialogue::Sending { id } => (Dialogue::Flushing { id }, Action::Flush),
                Dialogue::Flushing { id } => (Dialogue::ReadingLength { id }, Action::Read(2)),
                _ => unreached(),
            },
            Event::Read(bytes) => match self {
                Dialogue::ReadingLength { id } => {
                    let len: u16 = announced(&bytes);
                    (Dialogue::ReadingBody { id, len }, Action::Read(len as usize))
                },
                Dialogue::ReadingBody { id, .. } => (
                    Dialogue::Finished,
                    Action::Finish(judge_body(id, bytes.as_slice())),
                ),
                _ => unreached(),
            },
        }
    }

    /// Says what a failure in this state got in the way of.
    fn explain(&self, why: String) -> (text: String)
        ensures
            text@ == self.failure(why@),
    {
        match self {
            Dialogue::Sending { .. } => context("could not send query", why.as_str()),
            Dialogue::Flushing { .. } => context("could not flush query", why.as_str()),
            Dialogue::ReadingLength { .. } => context(
                "could not read response length",
                why.as_str(),
            ),
            Dialogue::ReadingBody { .. } => context("could not read response", why.as_str()),
            _ => why,
        }
    }
}

/// Starts a query: it is encoded before a connection is opened, to the address
/// that was resolved for the round, and goes out behind its length.
pub fn query(request: &Query, addr: Address) -> (first: (Dialogue, Action))
    ensures
        match name_problem(request.qname@) {
            Some(problem) => {
                &&& first.0 is Finished
                &&& first.1@ == ActionView::Finish(
                    Err(with_cause("could not encode query"@, problem)),
                )
            },
            None => {
                &&& first.0 matches Dialogue::Connecting { id, frame }
                &&& id == request.id
                &&& frame@ == framed(request.wire())
                &&& be16(frame@[0], frame@[1]) == request.wire().len()
                &&& is_query(request.wire(), id, request.recursion_desired, request.qtype)
                &&& first.1@ == ActionView::Connect { addr, port: PORT }
            },
        },
        name_problem(request.qname@) matches Some(problem) ==> {
            &&& first.1 matches Action::Finish(Err(err))
            &&& err@ == "could not encode query"@ + ": "@ + problem
        },
        name_problem(request.qname@) is None ==> {
            &&& first.0 matches Dialogue::Connecting { id, frame }
            &&& frame@.skip(2) == query_wire(
                request.id,
                request.recursion_desired,
                request.qname@,
                request.qtype,
            )
            &&& frame@[0] * 256 + frame@[1] == frame@.len() - 2
            &&& frame@[2] * 256 + frame@[3] == request.id
            &&& first.1 == (Action::Connect { addr, port: 853 })
        },
{
    match request.to_vec() {
        Ok(wire) => {
            proof {
                frame_announces_its_message(wire@);
            }
            (
                Dialogue::Connecting { id: request.id, frame: frame(&wire) },
                Action::Connect { addr, port: PORT },
            )
        },
        Err(err) => (
            Dialogue::Finished,
            Action::Finish(Err(context("could not encode query", err.as_str()))),
        ),
    }
}

/// A query that nothing goes wrong with is written, flushed, and answered, in
/// this order, and comes to the verdict on its response. As many octets are
/// read for the response as its prefix announces.
pub proof fn undisturbed_query_comes_to_the_verdict(
    id: u16,
    frame: Vec<u8>,
    prefix: Vec<u8>,
    body: Vec<u8>,
)
    requires
        prefix@.len() == 2,
        body@.len() == be16(prefix@[0], prefix@[1]),
    ensures
        ({
            let opened = Dialogue::Connecting { id, frame };
            let sent = opened.after(Event::Done);
            let flushed = sent.0.after(Event::Done);
            let waiting = flushed.0.after(Event::Done);
            let reading = waiting.0.after(Event::Read(prefix));
            let done = reading.0.after(Event::Read(body));
            &&& opened.awaits(Event::Done)
            &&& sent.1 == ActionView::Send(frame@)
            &&& sent.0.awaits(Event::Done)
            &&& flushed.1 == ActionView::Flush
            &&& flushed.0.awaits(Event::Done)
            &&& waiting.1 == ActionView::Read(2)
            &&& waiting.0.awaits(Event::Read(prefix))
            &&& reading.1 == ActionView::Read(body@.len() as int)
            &&& reading.0.awaits(Event::Read(body))
            &&& done == (
                Dialogue::Finished,
                ActionView::Finish(verdict(id, reply_of(body@))),
            )
        }),
{
}

/// Octets are awaited only while a response is being read: two for its length,
/// and then as many as that announced. Everything else is awaited to be done. A
/// failure may come at any time before the query is finished.
pub proof fn what_is_awaited(state: Dialogue, why: String, bytes: Vec<u8>)
    ensures
        state.awaits(Event::Failed(why)) <==> !(state is Finished),
        state.awaits(Event::Done) <==> state is Connecting || state is Sending || state is Flushing,
        state.awaits(Event::Read(bytes)) <==> match state {
            Dialogue::ReadingLength { .. } => bytes@.len() == 2,
            Dialogue::ReadingBody { len, .. } => bytes@.len() == len,
            _ => false,
        },
{
}

/// A query comes to success exactly when the response was read whole, and that
/// parses, carries the query's id, and reports no error.
pub proof fn success_takes_a_live_response(state: Dialogue, event: Event)
    requires
        state.awaits(event),
    ensures
        state.after(event).1 == ActionView::Finish(Ok(())) <==> {
            &&& state matches Dialogue::ReadingBody { id, .. }
            &&& event matches Event::Read(bytes)
            &&& reply_of(bytes@) == Ok::<(u16, u16), Seq<char>>((id, 0))
        },
{
}

/// A failure ends the query with what it got in the way of, and its reason. A
/// connection that could not be opened says so by itself.
pub proof fn failure_says_what_it_got_in_the_way_of(state: Dialogue, why: String)
    requires
        !(state is Finished),
    ensures
        ({
            let (next, action) = state.after(Event::Failed(why));
            &&& next is Finished
            &&& action matches ActionView::Finish(Err(err))
            &&& state is Connecting ==> err == why@
            &&& state is Sending ==> err == "could not send query"@ + ": "@ + why@
            &&& state is Flushing ==> err == "could not flush query"@ + ": "@ + why@
            &&& state is ReadingLength ==> err == "could not read response length"@ + ": "@ + why@
            &&& state is ReadingBody ==> err == "could not read response"@ + ": "@ + why@
        }),
{
}

/// A failure ends the query at once, wherever it comes.
pub proof fn failure_ends_the_query(state: Dialogue, why: String)
    ensures
        state.after(Event::Failed(why)) == (
            Dialogue::Finished,
            ActionView::Finish(Err(state.failure(why@))),
        ),
{
}

/// What the check reports of what a query came to.
pub open spec fn reported(result: Result<(), Seq<char>>, ms: int) -> OutcomeView {
    match result {
        Ok(()) => OutcomeView::up("dot ok"@, ms),
        Err(err) => OutcomeView::down(truncated(with_cause("dot"@, err)), ms),
    }
}

/// A check is up exactly when its query was answered, however long that took and
/// whatever went wrong. A failure may be retried, and shows what went wrong.
/// The ping is the time it took.
pub proof fn up_exactly_when_answered(result: Result<(), Seq<char>>, ms: int)
    ensures
        reported(result, ms).up <==> result is Ok,
        reported(result, ms).retryable <==> result is Err,
        reported(result, ms).ping == ms,
        result is Ok ==> reported(result, ms).msg == "dot ok"@,
        result matches Err(cause) ==> reported(result, ms).msg == truncated(
            "dot"@ + ": "@ + cause,
        ),
{
}

/// How long a query took changes nothing but the ping, and what went wrong
/// changes nothing but the message.
pub proof fn time_and_cause_are_independent(
    result: Result<(), Seq<char>>,
    ms: int,
    other_ms: int,
    cause: Seq<char>,
    other_cause: Seq<char>,
)
    ensures
        reported(result, ms).up == reported(result, other_ms).up,
        reported(result, ms).retryable == reported(result, other_ms).retryable,
        reported(result, ms).msg == reported(result, other_ms).msg,
        reported(Err(cause), ms).up == reported(Err(other_cause), ms).up,
        reported(Err(cause), ms).retryable == reported(Err(other_cause), ms).retryable,
        reported(Err(cause), ms).ping == reported(Err(other_cause), ms).ping,
{
}

/// What the check reports, given what the query came to and how long it took in
/// tenths of a millisecond.
pub fn check(result: Result<(), String>, ms: i64) -> (outcome: Outcome)
    ensures
        outcome@ == reported(plain(result), ms as int),
        outcome.up <==> result is Ok,
        outcome.retryable <==> result is Err,
        outcome.ping == ms,
        result is Ok ==> outcome.msg@ == "dot ok"@,
        result matches Err(cause) ==> outcome.msg@ == truncated("dot"@ + ": "@ + cause@),
{
    match result {
        Ok(()) => Outcome::up("dot ok".to_owned(), ms),
        Err(err) => Outcome::down(truncate(context("dot", err.as_str()).as_str()), ms),
    }
}

/// Of any two runs of the check, the one whose query was answered is up and the
/// one whose query was not is down, however long either took. What is up is
/// never retried, and what is down always may be.
pub proof fn check_tells_answered_from_failed(
    answered: i64,
    failed: i64,
    why: String,
    up: Outcome,
    down: Outcome,
)
    requires
        call_ensures(check, (Ok(()), answered), up),
        call_ensures(check, (Err(why), failed), down),
    ensures
        up.up && !down.up,
        !up.retryable && down.retryable,
        up.ping == answered && down.ping == failed,
        up.msg@ != down.msg@,
{
    reveal_strlit("dot ok");
    reveal_strlit("dot");
    reveal_strlit(": ");
    truncating_keeps_the_front("dot"@ + ": "@ + why@);
    assert(("dot"@ + ": "@ + why@)[3] == ':');
    assert(down.msg@[3] == ':');
    assert(up.msg@[3] == ' ');
}

/// A query that can be put on the wire opens a connection to the address of the
/// round, on the port of DNS over TLS; what is to be sent is the query behind its
/// length.
pub proof fn query_goes_to_the_address(request: Query, addr: Address, first: (Dialogue, Action))
    requires
        call_ensures(query, (&request, addr), first),
    ensures
        first.1 is Finish <==> name_problem(request.qname@) is Some,
        first.0 is Finished <==> first.1 is Finish,
        first.0 matches Dialogue::Connecting { id, frame } ==> {
            &&& first.1 == (Action::Connect { addr, port: 853 })
            &&& id == request.id
            &&& frame@[0] * 256 + frame@[1] == frame@.len() - 2
            &&& frame@[2] * 256 + frame@[3] == request.id
        },
        first.1 matches Action::Finish(result) ==> result is Err,
{
}

} // verus!
