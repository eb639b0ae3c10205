//! Pushes to Gatus.

use vstd::prelude::*;
use crate::check::{round_tenths, Outcome, OutcomeView, Proto};
use crate::config::Node;
use crate::push::{params_view, request_view, Method, Request, RequestView};
use crate::text::{push_signed, signed_decimal, trim_end_slashes, trim_slashes};

verus! {

/// Client for Gatus's external endpoint API.
///
/// Gatus checks most of the fleet itself, but it speaks HTTP/1.1 only -- its
/// transport sets TLSClientConfig without ForceAttemptHTTP2, which switches off
/// Go's automatic HTTP/2 -- and dnsdist 1.9+ answers DoH over HTTP/1.1 with a
/// 400. It also has no way to send a query over a DoT connection. So the two
/// checks that need a real resolution are pushed in from here.
pub struct Gatus {
    base: String,
    token: String,
}

/// The key of an external endpoint.
pub open spec fn endpoint_key(short: Seq<char>, proto: Proto) -> Seq<char> {
    short + "_"@ + proto.name()
}

impl Gatus {
    /// The base URL, without a slash at its end.
    pub closed spec fn base(self) -> Seq<char> {
        self.base@
    }

    /// The bearer token.
    pub closed spec fn token(self) -> Seq<char> {
        self.token@
    }

    pub fn new(base: &str, token: &str) -> (gatus: Self)
        ensures
            gatus.base() == trim_slashes(base@),
            gatus.token() == token@,
    {
        Gatus { base: trim_end_slashes(base), token: token.to_owned() }
    }

    /// Gatus addresses an external endpoint by `<group>_<name>`, which is how
    /// it is keyed in the config rather than anything derived at runtime.
    pub fn key(node: &Node, proto: Proto) -> (key: String)
        ensures
            key@ == endpoint_key(node.short@, proto),
            proto == Proto::Doh ==> key@ == node.short@ + "_"@ + "doh"@,
            proto == Proto::Dot ==> key@ == node.short@ + "_"@ + "dot"@,
            proto == Proto::Cert ==> key@ == node.short@ + "_"@ + "cert"@,
    {
        let mut key = node.short.as_str().to_owned();
        key.append("_");
        key.append(proto.as_str());
        key
    }

    /// Whether Gatus wants this check pushed at all.
    ///
    /// Certificates are checked by Gatus itself, with a `tls://` endpoint and a
    /// `[CERTIFICATE_EXPIRATION]` condition, so pushing them as well would give
    /// two sources for one fact. It only takes what Gatus cannot do: a query
    /// that has to actually be resolved over DoH or DoT.
    pub fn accepts(proto: Proto) -> (accepted: bool)
        ensures
            accepted == (proto != Proto::Cert),
    {
        match proto {
            Proto::Cert => false,
            Proto::Doh => true,
            Proto::Dot => true,
        }
    }

    /// The query parameters that describe an outcome. Its message is given only
    /// if it is a failure.
    pub open spec fn params(outcome: OutcomeView) -> Seq<(Seq<char>, Seq<char>)> {
        let duration = ("duration"@, signed_decimal(round_tenths(outcome.ping)) + "ms"@);
        if outcome.up {
            seq![("success"@, "true"@), duration]
        } else {
            seq![("success"@, "false"@), ("error"@, outcome.msg), duration]
        }
    }

    /// The request that tells Gatus about an outcome.
    pub open spec fn request(self, short: Seq<char>, proto: Proto, outcome: OutcomeView) -> Option<
        RequestView,
    > {
        if proto == Proto::Cert {
            None
        } else {
            Some(
                RequestView {
                    method: Method::Post,
                    url: self.base() + "/api/v1/endpoints/"@ + endpoint_key(short, proto)
                        + "/external"@,
                    bearer: Some(self.token()),
                    query: Self::params(outcome),
                },
            )
        }
    }

    /// Pushes an outcome, unless Gatus does not want it.
    pub fn push(&self, node: &Node, proto: Proto, outcome: &Outcome) -> (request: Option<Request>)
        ensures
            request_view(request) == self.request(node.short@, proto, outcome@),
            request is None <==> proto == Proto::Cert,
            request matches Some(made) ==> {
                &&& made.method == Method::Post
                &&& made.url@ == self.base() + "/api/v1/endpoints/"@ + (node.short@ + "_"@
                    + proto.name()) + "/external"@
                &&& made.bearer matches Some(token)
                &&& token@ == self.token()
                &&& made.query@[0].0@ == "success"@
                &&& outcome.up ==> made.query@.len() == 2 && made.query@[0].1@ == "true"@
                &&& !outcome.up ==> {
                    &&& made.query@.len() == 3
                    &&& made.query@[0].1@ == "false"@
                    &&& made.query@[1].0@ == "error"@
                    &&& made.query@[1].1@ == outcome.msg@
                }
                &&& made.query@.last().0@ == "duration"@
                &&& made.query@.last().1@ == signed_decimal(round_tenths(outcome.ping as int))
                    + "ms"@
            },
    {
        if !Gatus::accepts(proto) {
            return None;
        }
        let mut query: Vec<(&'static str, String)> = Vec::new();
        if outcome.up {
            query.push(("success", "true".to_owned()));
        } else {
            query.push(("success", "false".to_owned()));
            query.push(("error", outcome.msg.as_str().to_owned()));
        }
        // Only doh and dot reach here, and for both the ping value is a latency.
        let mut duration = String::new();
        push_signed(&mut duration, outcome.ping_rounded());
        duration.append("ms");
        query.push(("duration", duration));
        let mut url = self.base.as_str().to_owned();
        url.append("/api/v1/endpoints/");
        url.append(Gatus::key(node, proto).as_str());
        url.append("/external");
        let request = Request {
            method: Method::Post,
            url,
            bearer: Some(self.token.as_str().to_owned()),
            query,
        };
        assert(duration@ =~= signed_decimal(round_tenths(outcome.ping as int)) + "ms"@);
        assert(params_view(request.query@) =~= Self::params(outcome@));
        Some(request)
    }

    /// Certificates are left to Gatus itself, and everything else is pushed.
    pub proof fn only_certificates_are_left_out(
        self,
        short: Seq<char>,
        proto: Proto,
        outcome: OutcomeView,
    )
        ensures
            self.request(short, proto, outcome) is None <==> proto == Proto::Cert,
    {
    }

    /// Gatus is told of a success exactly when the outcome is up, whatever its
    /// ping, and is given the message as an error exactly when it is not. It is
    /// told the duration either way, and last.
    pub proof fn success_is_that_of_the_outcome(
        self,
        short: Seq<char>,
        proto: Proto,
        outcome: OutcomeView,
    )
        ensures
            self.request(short, proto, outcome) matches Some(request) ==> {
                let query = request.query;
                &&& query[0].0 == "success"@
                &&& query[0].1 == "true"@ <==> outcome.up
                &&& query[0].1 == "false"@ <==> !outcome.up
                &&& query.contains(("error"@, outcome.msg)) <==> !outcome.up
                &&& (exists|i: int| 0 <= i < query.len() && #[trigger] query[i].0 == "error"@)
                    <==> !outcome.up
                &&& forall|i: int|
                    0 < i < query.len() ==> #[trigger] query[i].0 == "error"@ || query[i].0
                        == "duration"@
                &&& query.len() == if outcome.up {
                    2int
                } else {
                    3int
                }
                &&& query.last().0 == "duration"@
                &&& query.last().1 == signed_decimal(round_tenths(outcome.ping)) + "ms"@
            },
    {
        reveal_strlit("true");
        reveal_strlit("false");
        reveal_strlit("success");
        reveal_strlit("error");
        reveal_strlit("duration");
        assert("true"@.len() != "false"@.len());
        assert("error"@.len() != "success"@.len());
        assert("error"@.len() != "duration"@.len());
        if let Some(request) = self.request(short, proto, outcome) {
            let query = request.query;
            if outcome.up {
                assert(query[0].0.len() != "error"@.len() && query[1].0.len() != "error"@.len());
            } else {
                assert(query[1] == ("error"@, outcome.msg) && query[1].0 == "error"@);
            }
        }
    }

    /// What comes of pushing any outcome tells whether it is up, and what went
    /// wrong if it is not.
    pub proof fn push_tells_up_from_down(
        &self,
        node: Node,
        proto: Proto,
        outcome: Outcome,
        request: Option<Request>,
    )
        requires
            call_ensures(Gatus::push, (self, &node, proto, &outcome), request),
        ensures
            request matches Some(made) ==> {
                &&& made.query@[0].0@ == "success"@
                &&& made.query@[0].1@ == "true"@ <==> outcome.up
                &&& made.query@[0].1@ == "false"@ <==> !outcome.up
                &&& made.query@[1].0@ == "error"@ <==> !outcome.up
                &&& !outcome.up ==> made.query@[1].1@ == outcome.msg@
            },
    {
        reveal_strlit("true");
        reveal_strlit("false");
        reveal_strlit("error");
        reveal_strlit("duration");
        assert("true"@.len() != "false"@.len());
        assert("error"@.len() != "duration"@.len());
    }

    /// The duration that is shown is within half a millisecond of the ping.
    pub proof fn duration_is_the_ping_in_milliseconds(outcome: OutcomeView)
        ensures
            exists|ms: int|
                {
                    &&& #[trigger] Self::params(outcome).last() == (
                        "duration"@,
                        signed_decimal(ms) + "ms"@,
                    )
                    &&& -5 <= 10 * ms - outcome.ping <= 5
                },
    {
        let ms = round_tenths(outcome.ping);
        assert(Self::params(outcome).last() == ("duration"@, signed_decimal(ms) + "ms"@));
    }

    /// A push goes to the endpoint of the node's check, with the token, whatever
    /// the outcome is.
    pub proof fn endpoint_is_that_of_the_check(
        self,
        short: Seq<char>,
        proto: Proto,
        outcome: OutcomeView,
    )
        ensures
            self.request(short, proto, outcome) matches Some(request) ==> {
                &&& request.method == Method::Post
                &&& request.bearer == Some(self.token())
                &&& request.url == self.base() + "/api/v1/endpoints/"@ + (short + "_"@
                    + proto.name()) + "/external"@
            },
    {
    }
}

/// The checks of a node are reported under different keys.
pub proof fn keys_tell_checks_apart(short: Seq<char>, a: Proto, b: Proto)
    requires
        a != b,
    ensures
        endpoint_key(short, a) != endpoint_key(short, b),
{
    reveal_strlit("doh");
    reveal_strlit("dot");
    reveal_strlit("cert");
    reveal_strlit("_");
    let at = short.len() as int + 1;
    assert(endpoint_key(short, a).skip(at) =~= a.name());
    assert(endpoint_key(short, b).skip(at) =~= b.name());
    assert(a.name()[1] != b.name()[1] || a.name()[2] != b.name()[2]);
}

} // verus!
