//! DNS messages: the query that goes out, and what makes a response count.

use vstd::prelude::*;
use hickory_proto::op::{Message, MessageType, OpCode, ResponseCode};
use hickory_proto::rr::{Name, RecordType};
use crate::text::{context, decimal, plain, push_decimal, with_cause};

verus! {

/// The type of an address record.
pub const A: u16 = 1;

/// The response code of a query that was answered.
pub const NO_ERROR: u16 = 0;

/// What `hickory_proto::rr::Name::from_ascii` has against a name, if anything:
/// the text of its error, causes and all.
pub uninterp spec fn name_problem(name: Seq<char>) -> Option<Seq<char>>;

/// The wire format that `hickory_proto::op::Message::to_vec` gives a standard
/// query with this id, this recursion-desired flag, and one question of this
/// name and type in the class IN.
pub uninterp spec fn query_wire(
    id: u16,
    recursion_desired: bool,
    qname: Seq<char>,
    qtype: u16,
) -> Seq<u8>;

/// What `hickory_proto::op::Message::from_vec` reads off a message: its id and
/// its response code, or the text of the error, causes and all.
pub uninterp spec fn reply_of(body: Seq<u8>) -> Result<(u16, u16), Seq<char>>;

/// How `hickory_proto::op::ResponseCode` spells out a response code.
pub uninterp spec fn rcode_text(code: u16) -> Seq<char>;

/// Two octets as a number, the more significant one first.
pub open spec fn be16(high: u8, low: u8) -> int {
    high * 256 + low
}

/// Whether `wire` starts with the header of a standard query that carries this
/// id, this recursion-desired flag and a single question, and ends with that
/// question's type and the class IN.
pub open spec fn is_query(wire: Seq<u8>, id: u16, recursion_desired: bool, qtype: u16) -> bool {
    let len = wire.len() as int;
    &&& 17 <= len <= 271
    &&& be16(wire[0], wire[1]) == id
    &&& wire[2] == if recursion_desired {
        1u8
    } else {
        0u8
    }
    &&& wire[3] == 0
    &&& be16(wire[4], wire[5]) == 1
    &&& forall|i: int| 6 <= i < 12 ==> wire[i] == 0
    &&& be16(wire[len - 4], wire[len - 3]) == qtype
    &&& be16(wire[len - 2], wire[len - 1]) == 1
}

/// Whether the header of a response names this id, and its response code, as
/// far as the header holds it, is that of no error.
pub open spec fn answers(id: u16, body: Seq<u8>) -> bool {
    &&& body.len() >= 12
    &&& be16(body[0], body[1]) == id
    &&& body[3] % 16 == 0
}

/// Calls `hickory_proto::rr::Name::from_ascii` for its verdict on a name. That
/// verdict is a function of the name alone.
#[verifier::external_body]
pub(crate) fn check_name(name: &str) -> (result: Result<(), String>)
    ensures
        plain(result) == match name_problem(name@) {
            Some(problem) => Err(problem),
            None => Ok(()),
        },
{
    match Name::from_ascii(name) {
        Ok(_) => Ok(()),
        Err(err) => Err(format!("{:#}", anyhow::Error::from(err))),
    }
}

/// Calls `hickory_proto::op::Message::query` for the id that it drew. Nothing is
/// promised of it: the ids are random.
#[verifier::external_body]
pub(crate) fn fresh_id() -> (id: u16) {
    Message::query().metadata.id
}

/// Builds a standard query with `hickory_proto::op::Message` and calls `to_vec`
/// on it. The bytes are a function of the arguments. A name that
/// `Name::from_ascii` takes always encodes: its labels and its length are within
/// the limits that the encoder enforces, so the message ends after at most 12
/// octets of header, 255 of name and 4 of question. How the name itself is laid
/// out is not spelled out.
#[verifier::external_body]
fn encode_query(id: u16, recursion_desired: bool, qname: &str, qtype: u16) -> (result: Result<
    Vec<u8>,
    String,
>)
    ensures
        match name_problem(qname@) {
            Some(problem) => result matches Err(err) && err@ == problem,
            None => {
                &&& result matches Ok(wire)
                &&& wire@ == query_wire(id, recursion_desired, qname@, qtype)
                &&& is_query(wire@, id, recursion_desired, qtype)
            },
        },
{
    let question = match Name::from_ascii(qname) {
        Ok(name) => hickory_proto::op::Query::query(name, RecordType::from(qtype)),
        Err(err) => return Err(format!("{:#}", anyhow::Error::from(err))),
    };
    let mut message = Message::new(id, MessageType::Query, OpCode::Query);
    message.metadata.recursion_desired = recursion_desired;
    message.add_query(question);
    match message.to_vec() {
        Ok(wire) => Ok(wire),
        Err(err) => Err(format!("{:#}", anyhow::Error::from(err))),
    }
}

/// What was read off a response.
#[derive(Debug, Clone, Copy, PartialEq, Eq)]
pub struct Reply {
    pub id: u16,
    pub rcode: u16,
}

/// A parsed response as plain values.
pub open spec fn reply_view(reply: Result<Reply, String>) -> Result<(u16, u16), Seq<char>> {
    match reply {
        Ok(reply) => Ok((reply.id, reply.rcode)),
        Err(err) => Err(err@),
    }
}

/// Calls `hickory_proto::op::Message::from_vec`. What it reads is a function of
/// the bytes. The header of a message is its first 12 octets, and a message
/// that parses has them: the id is the first two, and the low four bits of the
/// fourth are the low four of the response code, whose others come from an EDNS
/// record.
#[verifier::external_body]
fn decode_reply(body: &[u8]) -> (result: Result<Reply, String>)
    ensures
        reply_view(result) == reply_of(body@),
        result matches Ok(reply) ==> {
            &&& body@.len() >= 12
            &&& be16(body@[0], body@[1]) == reply.id
            &&& body@[3] % 16 == reply.rcode % 16
        },
{
    match Message::from_vec(body) {
        Ok(message) => Ok(
            Reply { id: message.metadata.id, rcode: u16::from(message.metadata.response_code) },
        ),
        Err(err) => Err(format!("{:#}", anyhow::Error::from(err))),
    }
}

/// Formats a `hickory_proto::op::ResponseCode` with its `Display`
/// implementation. The text is a function of the code; the table of texts is
/// not spelled out.
#[verifier::external_body]
fn rcode_display(code: u16) -> (text: String)
    ensures
        text@ == rcode_text(code),
{
    let code: ResponseCode = code.into();
    code.to_string()
}

/// A DNS query with a single question.
pub struct Query {
    pub id: u16,
    pub recursion_desired: bool,
    pub qname: String,
    pub qtype: u16,
}

impl Query {
    /// What goes over the wire.
    pub open spec fn wire(self) -> Seq<u8> {
        query_wire(self.id, self.recursion_desired, self.qname@, self.qtype)
    }

    /// Whether the query can be put on the wire.
    pub open spec fn encodable(self) -> bool {
        name_problem(self.qname@) is None
    }

    /// The query in wire format.
    pub fn to_vec(&self) -> (result: Result<Vec<u8>, String>)
        ensures
            match name_problem(self.qname@) {
                Some(problem) => result matches Err(err) && err@ == problem,
                None => {
                    &&& result matches Ok(wire)
                    &&& wire@ == self.wire()
                    &&& is_query(wire@, self.id, self.recursion_desired, self.qtype)
                },
            },
            result is Ok <==> name_problem(self.qname@) is None,
            result matches Ok(wire) ==> {
                &&& wire@ == query_wire(self.id, self.recursion_desired, self.qname@, self.qtype)
                &&& 17 <= wire@.len() <= 271
                &&& wire@[0] * 256 + wire@[1] == self.id
                &&& wire@[2] == 1 <==> self.recursion_desired
                &&& wire@[wire@.len() - 4] * 256 + wire@[wire@.len() - 3] == self.qtype
            },
    {
        encode_query(self.id, self.recursion_desired, self.qname.as_str(), self.qtype)
    }
}

/// A query carries its id in its first two octets, asks for recursion with the
/// last bit of the third, and holds one question and no records.
pub proof fn query_says_what_it_asks(
    wire: Seq<u8>,
    id: u16,
    recursion_desired: bool,
    qtype: u16,
)
    requires
        is_query(wire, id, recursion_desired, qtype),
    ensures
        wire[0] * 256 + wire[1] == id,
        recursion_desired ==> wire[2] == 1,
        !recursion_desired ==> wire[2] == 0,
        wire[3] == 0,
        wire[4] == 0 && wire[5] == 1,
        forall|i: int| 6 <= i < 12 ==> wire[i] == 0,
        wire[wire.len() - 4] * 256 + wire[wire.len() - 3] == qtype,
        wire[wire.len() - 2] == 0 && wire[wire.len() - 1] == 1,
{
}

/// A query can be put on the wire exactly when nothing is wrong with its name.
pub proof fn encodable_exactly_with_a_good_name(query: Query)
    ensures
        query.encodable() <==> name_problem(query.qname@) is None,
        query.wire() == query_wire(
            query.id,
            query.recursion_desired,
            query.qname@,
            query.qtype,
        ),
{
}

/// What becomes of a query, given what was read off the response to it.
pub open spec fn verdict(id: u16, reply: Result<(u16, u16), Seq<char>>) -> Result<(), Seq<char>> {
    match reply {
        Err(cause) => Err(with_cause("could not parse response"@, cause)),
        Ok((got, rcode)) => if got != id {
            Err(
                "response id "@ + decimal(got as nat) + " does not match query "@ + decimal(
                    id as nat,
                ),
            )
        } else if rcode != NO_ERROR {
            Err("status: "@ + rcode_text(rcode))
        } else {
            Ok(())
        },
    }
}

/// Passes judgement on a response: it has to parse, to carry the id of the
/// query, and to report no error, in this order.
pub fn judge(id: u16, reply: Result<Reply, String>) -> (result: Result<(), String>)
    ensures
        plain(result) == verdict(id, reply_view(reply)),
        result is Ok <==> (reply matches Ok(got) && got.id == id && got.rcode == 0),
        reply matches Err(cause) ==> (result matches Err(err) && err@
            == "could not parse response"@ + ": "@ + cause@),
        reply matches Ok(got) ==> {
            &&& got.id != id ==> (result matches Err(err) && err@ == "response id "@ + decimal(
                got.id as nat,
            ) + " does not match query "@ + decimal(id as nat))
            &&& got.id == id && got.rcode != 0 ==> (result matches Err(err) && err@ == "status: "@
                + rcode_text(got.rcode))
        },
{
    match reply {
        Err(err) => Err(context("could not parse response", err.as_str())),
        Ok(reply) => if reply.id != id {
            let mut msg = "response id ".to_owned();
            push_decimal(&mut msg, reply.id as u64);
            msg.append(" does not match query ");
            push_decimal(&mut msg, id as u64);
            Err(msg)
        } else if reply.rcode != NO_ERROR {
            let mut msg = "status: ".to_owned();
            msg.append(rcode_display(reply.rcode).as_str());
            Err(msg)
        } else {
            Ok(())
        },
    }
}

/// Passes judgement on the bytes of a response. A response that is accepted
/// carries the id of the query, so a stale or mismatched one cannot be mistaken
/// for a live one.
pub fn judge_body(id: u16, body: &[u8]) -> (result: Result<(), String>)
    ensures
        plain(result) == verdict(id, reply_of(body@)),
        result is Ok ==> answers(id, body@),
        result is Ok <==> reply_of(body@) == Ok::<(u16, u16), Seq<char>>((id, 0)),
        result is Ok ==> {
            &&& body@.len() >= 12
            &&& body@[0] * 256 + body@[1] == id
            &&& body@[3] % 16 == 0
        },
{
    judge(id, decode_reply(body))
}

/// A response that names another id is never accepted, whatever else it says.
pub proof fn mismatched_id_is_rejected(id: u16, got: u16, rcode: u16)
    requires
        got != id,
    ensures
        verdict(id, Ok((got, rcode))) is Err,
{
}

/// A response is accepted exactly when it parsed, carries the id of the query,
/// and reports no error.
pub proof fn accepted_exactly_when_live(id: u16, reply: Result<(u16, u16), Seq<char>>)
    ensures
        verdict(id, reply) is Ok <==> reply == Ok::<(u16, u16), Seq<char>>((id, NO_ERROR)),
        verdict(id, reply) is Ok <==> reply == Ok::<(u16, u16), Seq<char>>((id, 0)),
{
}

/// A response to another query is told apart by its id before its response code
/// is looked at, and the error shows both ids.
pub proof fn mismatch_is_found_first(id: u16, got: u16, rcode: u16, other: u16)
    requires
        got != id,
    ensures
        verdict(id, Ok((got, rcode))) == verdict(id, Ok((got, other))),
        verdict(id, Ok((got, rcode))) == Err::<(), Seq<char>>(
            "response id "@ + decimal(got as nat) + " does not match query "@ + decimal(id as nat),
        ),
{
}

/// A live response that reports an error fails with that error, and one that did
/// not parse fails with what the parser had against it, whatever the id.
pub proof fn failure_shows_its_cause(id: u16, other: u16, rcode: u16, cause: Seq<char>)
    ensures
        rcode != 0 ==> verdict(id, Ok((id, rcode))) == Err::<(), Seq<char>>(
            "status: "@ + rcode_text(rcode),
        ),
        verdict(id, Err(cause)) == verdict(other, Err(cause)),
        verdict(id, Err(cause)) == Err::<(), Seq<char>>(
            "could not parse response"@ + ": "@ + cause,
        ),
{
}

/// What was read off a response is shown whole: its id, its response code, or
/// the error.
pub proof fn view_shows_the_reply(reply: Result<Reply, String>)
    ensures
        reply matches Ok(got) ==> reply_view(reply) == Ok::<(u16, u16), Seq<char>>(
            (got.id, got.rcode),
        ),
        reply matches Err(err) ==> reply_view(reply) == Err::<(u16, u16), Seq<char>>(err@),
{
}

} // verus!
