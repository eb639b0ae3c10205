//! Pushes to uptime-kuma.

use vstd::prelude::*;
use crate::check::{tenths_text, Outcome, OutcomeView};
use crate::config::Node;
use crate::push::{params_view, request_view, Method, Request, RequestView};
use crate::text::{trim_end_slashes, trim_slashes};

verus! {

/// Client for uptime-kuma's push API.
pub struct Kuma {
    base: String,
}

/// Whether the environment holds a token: it has to be set, and not be empty.
pub open spec fn has_token(token: Option<String>) -> bool {
    token matches Some(text) && text@.len() > 0
}

impl Kuma {
    /// The base URL, without a slash at its end.
    pub closed spec fn base(self) -> Seq<char> {
        self.base@
    }

    pub fn new(base: &str) -> (kuma: Self)
        ensures
            kuma.base() == trim_slashes(base@),
    {
        Kuma { base: trim_end_slashes(base) }
    }

    /// The request that tells uptime-kuma about an outcome.
    pub open spec fn request(self, token: Option<String>, outcome: OutcomeView) -> Option<
        RequestView,
    > {
        if has_token(token) {
            Some(
                RequestView {
                    method: Method::Get,
                    url: self.base() + "/api/push/"@ + token->0@,
                    bearer: None,
                    query: seq![
                        (
                            "status"@,
                            if outcome.up {
                                "up"@
                            } else {
                                "down"@
                            },
                        ),
                        ("msg"@, outcome.msg),
                        ("ping"@, tenths_text(outcome.ping)),
                    ],
                },
            )
        } else {
            None
        }
    }

    /// Pushes an outcome, unless there is no token to push it with. `token` is
    /// what the environment holds under the check's token key.
    pub fn push(&self, token: Option<String>, outcome: &Outcome) -> (request: Option<Request>)
        ensures
            request_view(request) == self.request(token, outcome@),
            request is Some <==> (token matches Some(text) && text@.len() > 0),
            request matches Some(made) ==> {
                &&& made.method == Method::Get
                &&& made.url@ == self.base() + "/api/push/"@ + token->0@
                &&& made.bearer is None
                &&& made.query@.len() == 3
                &&& made.query@[0].0@ == "status"@
                &&& outcome.up ==> made.query@[0].1@ == "up"@
                &&& !outcome.up ==> made.query@[0].1@ == "down"@
                &&& made.query@[1].0@ == "msg"@
                &&& made.query@[1].1@ == outcome.msg@
                &&& made.query@[2].0@ == "ping"@
                &&& made.query@[2].1@ == tenths_text(outcome.ping as int)
            },
    {
        match Node::token(token) {
            None => None,
            Some(token) => {
                let mut url = self.base.as_str().to_owned();
                url.append("/api/push/");
                url.append(token.as_str());
                let mut query: Vec<(&'static str, String)> = Vec::new();
                query.push(("status", outcome.status().to_owned()));
                query.push(("msg", outcome.msg.as_str().to_owned()));
                query.push(("ping", outcome.ping_text()));
                let request = Request { method: Method::Get, url, bearer: None, query };
                assert(params_view(request.query@) =~= self.request(
                    Some(token),
                    outcome@,
                )->0.query);
                Some(request)
            },
        }
    }

    /// A check without a token, or with an empty one, is not pushed.
    pub proof fn nothing_is_pushed_without_a_token(
        self,
        token: Option<String>,
        outcome: OutcomeView,
    )
        ensures
            self.request(token, outcome) is Some <==> has_token(token),
            self.request(token, outcome) is Some <==> (token matches Some(text) && text@.len() > 0),
    {
    }

    /// uptime-kuma is told `up` exactly of an outcome that is up, and `down`
    /// exactly of one that is not, whether or not that may be retried. It is told
    /// once, with the outcome's message and its ping.
    pub proof fn status_is_that_of_the_outcome(self, token: Option<String>, outcome: OutcomeView)
        ensures
            self.request(token, outcome) matches Some(request) ==> {
                &&& request.query.len() == 3
                &&& request.query[0].0 == "status"@
                &&& request.query[0].1 == "up"@ <==> outcome.up
                &&& request.query[0].1 == "down"@ <==> !outcome.up
                &&& request.query[1] == ("msg"@, outcome.msg)
                &&& request.query[2] == ("ping"@, tenths_text(outcome.ping))
            },
    {
        reveal_strlit("up");
        reveal_strlit("down");
        assert("up"@.len() != "down"@.len());
    }

    /// The token stands at the end of the address that is asked for, and nowhere
    /// else. Nothing of the outcome is in the address.
    pub proof fn token_ends_the_address(
        self,
        token: Option<String>,
        outcome: OutcomeView,
        other: OutcomeView,
    )
        ensures
            self.request(token, outcome) matches Some(request) ==> {
                &&& request.method == Method::Get
                &&& request.bearer is None
                &&& request.url == self.base() + "/api/push/"@ + token->0@
                &&& self.request(token, other)->0.url == request.url
            },
    {
    }

    /// What comes of pushing any outcome tells whether it is up.
    pub proof fn push_tells_up_from_down(
        &self,
        token: Option<String>,
        outcome: Outcome,
        request: Option<Request>,
    )
        requires
            call_ensures(Kuma::push, (self, token, &outcome), request),
        ensures
            request matches Some(made) ==> {
                &&& made.query@[0].0@ == "status"@
                &&& made.query@[0].1@ == "up"@ <==> outcome.up
                &&& made.query@[0].1@ == "down"@ <==> !outcome.up
            },
    {
        reveal_strlit("up");
        reveal_strlit("down");
        assert("up"@.len() != "down"@.len());
    }

    /// Whether a failure may be retried makes no difference to what is pushed.
    pub proof fn retryable_is_not_pushed(
        self,
        token: Option<String>,
        outcome: OutcomeView,
        other: OutcomeView,
    )
        requires
            outcome.up == other.up,
            outcome.msg == other.msg,
            outcome.ping == other.ping,
        ensures
            self.request(token, outcome) == self.request(token, other),
    {
    }
}

} // verus!
