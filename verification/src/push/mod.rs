//! Where results are reported, and how.

pub mod gatus;
pub mod kuma;

use vstd::prelude::*;
use crate::check::{Outcome, OutcomeView, Proto};
use crate::config::Node;
use crate::push::gatus::Gatus;
use crate::push::kuma::Kuma;
use crate::text::{context, plain, trim_slashes, with_cause};

verus! {

/// The method of a request.
#[derive(Debug, Clone, Copy, PartialEq, Eq, Structural)]
pub enum Method {
    Get,
    Post,
}

/// A request that tells a target about an outcome.
pub struct Request {
    pub method: Method,
    pub url: String,
    /// The bearer token that goes with it, if any.
    pub bearer: Option<String>,
    /// The query parameters, in order, not yet encoded.
    pub query: Vec<(&'static str, String)>,
}

/// A request, with plain values for what it carries.
pub struct RequestView {
    pub method: Method,
    pub url: Seq<char>,
    pub bearer: Option<Seq<char>>,
    pub query: Seq<(Seq<char>, Seq<char>)>,
}

/// Query parameters, with plain values.
pub open spec fn params_view(params: Seq<(&'static str, String)>) -> Seq<(Seq<char>, Seq<char>)> {
    params.map_values(|param: (&'static str, String)| (param.0@, param.1@))
}

impl View for Request {
    type V = RequestView;

    open spec fn view(&self) -> RequestView {
        RequestView {
            method: self.method,
            url: self.url@,
            bearer: match self.bearer {
                Some(token) => Some(token@),
                None => None,
            },
            query: params_view(self.query@),
        }
    }
}

/// A request, if there is one, with plain values.
pub open spec fn request_view(request: Option<Request>) -> Option<RequestView> {
    match request {
        Some(request) => Some(request@),
        None => None,
    }
}

/// The view of a request shows all of it. Each parameter stays in its place.
pub proof fn view_shows_the_request(request: Request)
    ensures
        request@.method == request.method,
        request@.url == request.url@,
        request.bearer matches Some(token) ==> request@.bearer == Some(token@),
        request.bearer is None ==> request@.bearer is None,
        request@.query.len() == request.query@.len(),
        forall|i: int|
            0 <= i < request.query@.len() ==> #[trigger] request@.query[i] == (
                request.query@[i].0@,
                request.query@[i].1@,
            ),
        request_view(Some(request)) == Some(request@),
        request_view(None) is None,
{
}

/// What came of a request.
pub enum Delivery {
    /// It was not answered, for this reason.
    Unanswered(String),
    /// It was answered with an error, which reads so.
    Rejected(String),
    /// It was taken.
    Taken,
}

/// Whether a status reports an error, the client's or the server's.
pub open spec fn is_error(status: u16) -> bool {
    400 <= status <= 599
}

/// What came of a request that was answered with this status.
pub open spec fn answer(status: u16, reason: String) -> Delivery {
    if is_error(status) {
        Delivery::Rejected(reason)
    } else {
        Delivery::Taken
    }
}

/// What came of a request that was answered with this status. `reason` is how
/// the error reads, if the status reports one.
pub fn answered(status: u16, reason: String) -> (delivery: Delivery)
    ensures
        delivery == answer(status, reason),
        400 <= status <= 599 ==> delivery == Delivery::Rejected(reason),
        status < 400 || 599 < status ==> delivery is Taken,
{
    if 400 <= status && status <= 599 {
        Delivery::Rejected(reason)
    } else {
        Delivery::Taken
    }
}

/// What a push came to, given what came of its request.
pub open spec fn push_result(delivery: Delivery) -> Result<(), Seq<char>> {
    match delivery {
        Delivery::Unanswered(err) => Err(with_cause("push request failed"@, err@)),
        Delivery::Rejected(err) => Err(with_cause("push rejected"@, err@)),
        Delivery::Taken => Ok(()),
    }
}

/// A push that was answered fails exactly when the status of the answer reports
/// an error.
pub proof fn answered_push_fails_exactly_on_an_error(status: u16, reason: String)
    ensures
        push_result(answer(status, reason)) is Err <==> is_error(status),
        push_result(answer(status, reason)) is Err <==> 400 <= status <= 599,
        400 <= status <= 599 ==> push_result(answer(status, reason)) == Err::<(), Seq<char>>(
            "push rejected"@ + ": "@ + reason@,
        ),
{
}

/// A push succeeds exactly when its request was taken, and otherwise says how it
/// failed and why.
pub proof fn push_succeeds_exactly_when_taken(delivery: Delivery)
    ensures
        push_result(delivery) is Ok <==> delivery is Taken,
        delivery matches Delivery::Unanswered(why) ==> push_result(delivery) == Err::<
            (),
            Seq<char>,
        >("push request failed"@ + ": "@ + why@),
        delivery matches Delivery::Rejected(why) ==> push_result(delivery) == Err::<
            (),
            Seq<char>,
        >("push rejected"@ + ": "@ + why@),
{
}

/// Says what a push came to, given what came of its request.
pub fn delivered(delivery: Delivery) -> (result: Result<(), String>)
    ensures
        plain(result) == push_result(delivery),
        result is Ok <==> delivery is Taken,
        delivery matches Delivery::Unanswered(why) ==> (result matches Err(err) && err@
            == "push request failed"@ + ": "@ + why@),
        delivery matches Delivery::Rejected(why) ==> (result matches Err(err) && err@
            == "push rejected"@ + ": "@ + why@),
{
    match delivery {
        Delivery::Unanswered(err) => Err(context("push request failed", err.as_str())),
        Delivery::Rejected(err) => Err(context("push rejected", err.as_str())),
        Delivery::Taken => Ok(()),
    }
}

/// Where results are reported. Both targets can be configured at once, which is
/// what makes a migration between them observable: each keeps a full history,
/// so they can be compared before either is switched off.
pub struct Targets {
    kuma: Option<Kuma>,
    gatus: Option<Gatus>,
}

impl Default for Targets {
    /// No target at all.
    fn default() -> (targets: Self)
        ensures
            targets.kuma() is None,
            targets.gatus() is None,
    {
        Targets { kuma: None, gatus: None }
    }
}

/// One of the targets.
#[derive(Debug, Clone, Copy, PartialEq, Eq, Structural)]
pub enum Target {
    Kuma,
    Gatus,
}

impl Target {
    /// The target's name.
    pub open spec fn name(self) -> Seq<char> {
        match self {
            Target::Kuma => "uptime-kuma"@,
            Target::Gatus => "gatus"@,
        }
    }

    pub fn as_str(&self) -> (name: &'static str)
        ensures
            name@ == self.name(),
            *self == Target::Kuma ==> name@ == "uptime-kuma"@,
            *self == Target::Gatus ==> name@ == "gatus"@,
    {
        match self {
            Target::Kuma => "uptime-kuma",
            Target::Gatus => "gatus",
        }
    }
}

/// The pushes of one outcome, with plain values.
pub open spec fn pushes_view(pushes: Seq<(Target, Request)>) -> Seq<(Target, RequestView)> {
    pushes.map_values(|push: (Target, Request)| (push.0, push.1@))
}

/// A push to one target, if there is anything to push.
pub open spec fn push_to(target: Target, request: Option<RequestView>) -> Seq<
    (Target, RequestView),
> {
    match request {
        Some(request) => seq![(target, request)],
        None => seq![],
    }
}

impl Targets {
    /// The uptime-kuma that is pushed to, if any.
    pub closed spec fn kuma(self) -> Option<Kuma> {
        self.kuma
    }

    /// The Gatus that is pushed to, if any.
    pub closed spec fn gatus(self) -> Option<Gatus> {
        self.gatus
    }

    /// The targets that are configured, in the order they are named in.
    pub open spec fn configured(self) -> Seq<Target> {
        (if self.kuma() is Some {
            seq![Target::Kuma]
        } else {
            seq![]
        }) + (if self.gatus() is Some {
            seq![Target::Gatus]
        } else {
            seq![]
        })
    }

    /// Takes the base URL of each target, and for Gatus the token that goes
    /// with it.
    pub fn new(kuma: Option<&str>, gatus: Option<(&str, &str)>) -> (targets: Self)
        ensures
            match kuma {
                Some(base) => targets.kuma() matches Some(found) && found.base() == trim_slashes(
                    base@,
                ),
                None => targets.kuma() is None,
            },
            match gatus {
                Some((base, token)) => {
                    &&& targets.gatus() matches Some(found)
                    &&& found.base() == trim_slashes(base@)
                    &&& found.token() == token@
                },
                None => targets.gatus() is None,
            },
    {
        Targets {
            kuma: match kuma {
                Some(base) => Some(Kuma::new(base)),
                None => None,
            },
            gatus: match gatus {
                Some((base, token)) => Some(Gatus::new(base, token)),
                None => None,
            },
        }
    }

    pub fn is_empty(&self) -> (empty: bool)
        ensures
            empty == (self.kuma() is None && self.gatus() is None),
    {
        self.kuma.is_none() && self.gatus.is_none()
    }

    pub fn names(&self) -> (names: Vec<&'static str>)
        ensures
            names@.map_values(|name: &'static str| name@) == self.configured().map_values(
                |target: Target| target.name(),
            ),
            names@.len() == (if self.kuma() is Some {
                1int
            } else {
                0int
            }) + (if self.gatus() is Some {
                1int
            } else {
                0int
            }),
            self.kuma() is Some ==> names@[0]@ == "uptime-kuma"@,
            self.gatus() is Some ==> names@.last()@ == "gatus"@,
    {
        let mut names: Vec<&'static str> = Vec::new();
        if self.kuma.is_some() {
            names.push(Target::Kuma.as_str());
        }
        if self.gatus.is_some() {
            names.push(Target::Gatus.as_str());
        }
        assert(names@.map_values(|name: &'static str| name@) =~= self.configured().map_values(
            |target: Target| target.name(),
        ));
        names
    }

    /// Whether uptime-kuma is told about a check: it has to be configured, and
    /// there has to be a token that is not empty.
    pub open spec fn tells_kuma(self, token: Option<String>) -> bool {
        &&& self.kuma() is Some
        &&& token matches Some(text)
        &&& text@.len() > 0
    }

    /// Whether Gatus is told about a check: it has to be configured, and looks
    /// after certificates by itself.
    pub open spec fn tells_gatus(self, proto: Proto) -> bool {
        self.gatus() is Some && proto != Proto::Cert
    }

    /// What is pushed to uptime-kuma.
    pub open spec fn kuma_push(self, token: Option<String>, outcome: OutcomeView) -> Option<
        RequestView,
    > {
        match self.kuma() {
            Some(kuma) => kuma.request(token, outcome),
            None => None,
        }
    }

    /// What is pushed to Gatus.
    pub open spec fn gatus_push(self, short: Seq<char>, proto: Proto, outcome: OutcomeView) -> Option<
        RequestView,
    > {
        match self.gatus() {
            Some(gatus) => gatus.request(short, proto, outcome),
            None => None,
        }
    }

    /// Reports one outcome to every configured target: gives the requests that
    /// are to be made. `token` is what the environment holds under the check's
    /// token key.
    ///
    /// Targets are pushed concurrently and failures are independent: one
    /// unreachable status page must not stop the other from being told, which
    /// matters most during a migration when one of the two is the one being
    /// trusted.
    pub fn report(
        &self,
        node: &Node,
        proto: Proto,
        outcome: &Outcome,
        token: Option<String>,
    ) -> (pushes: Vec<(Target, Request)>)
        ensures
            pushes_view(pushes@) == push_to(Target::Kuma, self.kuma_push(token, outcome@))
                + push_to(Target::Gatus, self.gatus_push(node.short@, proto, outcome@)),
            pushes@.len() == (if self.tells_kuma(token) {
                1int
            } else {
                0int
            }) + (if self.tells_gatus(proto) {
                1int
            } else {
                0int
            }),
            self.tells_kuma(token) ==> {
                &&& pushes@[0].0 == Target::Kuma
                &&& self.kuma()->0.request(token, outcome@) == Some(pushes@[0].1@)
            },
            self.tells_gatus(proto) ==> {
                &&& pushes@.last().0 == Target::Gatus
                &&& self.gatus()->0.request(node.short@, proto, outcome@) == Some(
                    pushes@.last().1@,
                )
            },
    {
        let mut pushes: Vec<(Target, Request)> = Vec::new();
        if let Some(kuma) = &self.kuma {
            if let Some(request) = kuma.push(token, outcome) {
                pushes.push((Target::Kuma, request));
            }
        }
        if let Some(gatus) = &self.gatus {
            if let Some(request) = gatus.push(node, proto, outcome) {
                pushes.push((Target::Gatus, request));
            }
        }
        assert(pushes_view(pushes@) =~= push_to(Target::Kuma, self.kuma_push(token, outcome@))
            + push_to(Target::Gatus, self.gatus_push(node.short@, proto, outcome@)));
        pushes
    }

    /// Each target that is configured and wants the outcome is told exactly once,
    /// uptime-kuma first, and nobody else is told anything.
    pub proof fn each_target_is_told_once(
        self,
        token: Option<String>,
        short: Seq<char>,
        proto: Proto,
        outcome: OutcomeView,
    )
        ensures
            ({
                let pushes = push_to(Target::Kuma, self.kuma_push(token, outcome)) + push_to(
                    Target::Gatus,
                    self.gatus_push(short, proto, outcome),
                );
                let kuma = self.kuma() is Some && (token matches Some(text) && text@.len() > 0);
                let gatus = self.gatus() is Some && proto != Proto::Cert;
                &&& kuma && gatus ==> pushes.len() == 2
                &&& kuma != gatus ==> pushes.len() == 1
                &&& !kuma && !gatus ==> pushes.len() == 0
                &&& kuma ==> pushes[0].0 == Target::Kuma && Some(pushes[0].1)
                    == self.kuma()->0.request(token, outcome)
                &&& gatus ==> pushes.last().0 == Target::Gatus && Some(pushes.last().1)
                    == self.gatus()->0.request(short, proto, outcome)
            }),
    {
    }

    /// Whatever target is told, it is told of a success exactly when the outcome
    /// is up.
    pub proof fn all_targets_are_told_the_same(
        self,
        token: Option<String>,
        short: Seq<char>,
        proto: Proto,
        outcome: OutcomeView,
    )
        ensures
            self.kuma_push(token, outcome) matches Some(request) ==> {
                &&& request.query.contains(("status"@, "up"@)) <==> outcome.up
                &&& request.query.contains(("status"@, "down"@)) <==> !outcome.up
            },
            self.gatus_push(short, proto, outcome) matches Some(request) ==> {
                &&& request.query.contains(("success"@, "true"@)) <==> outcome.up
                &&& request.query.contains(("success"@, "false"@)) <==> !outcome.up
            },
    {
        reveal_strlit("up");
        reveal_strlit("down");
        reveal_strlit("true");
        reveal_strlit("false");
        reveal_strlit("status");
        reveal_strlit("msg");
        reveal_strlit("ping");
        reveal_strlit("success");
        reveal_strlit("error");
        reveal_strlit("duration");
        assert("status"@.len() != "msg"@.len() && "status"@.len() != "ping"@.len());
        assert("success"@.len() != "error"@.len() && "success"@.len() != "duration"@.len());
        if let Some(request) = self.kuma_push(token, outcome) {
            self.kuma()->0.status_is_that_of_the_outcome(token, outcome);
            assert(request.query[0].0 == "status"@);
        }
        if let Some(request) = self.gatus_push(short, proto, outcome) {
            self.gatus()->0.success_is_that_of_the_outcome(short, proto, outcome);
            assert(request.query[0].0 == "success"@);
        }
    }

    /// What one target is told does not depend on whether the other is
    /// configured.
    pub proof fn targets_are_independent(
        self,
        other: Targets,
        token: Option<String>,
        short: Seq<char>,
        proto: Proto,
        outcome: OutcomeView,
    )
        ensures
            self.kuma() == other.kuma() ==> self.kuma_push(token, outcome) == other.kuma_push(
                token,
                outcome,
            ),
            self.gatus() == other.gatus() ==> self.gatus_push(short, proto, outcome)
                == other.gatus_push(short, proto, outcome),
    {
    }

    /// Nothing is configured exactly when no target is named.
    pub proof fn empty_exactly_without_names(self)
        ensures
            (self.kuma() is None && self.gatus() is None) <==> self.configured().len() == 0,
    {
    }
}

/// A push fails exactly when its request was answered with an error of the client
/// or the server, or not at all.
pub proof fn push_fails_on_4xx_and_5xx(
    status: u16,
    reason: String,
    answer: Delivery,
    outcome: Result<(), String>,
    lost: Result<(), String>,
)
    requires
        call_ensures(answered, (status, reason), answer),
        call_ensures(delivered, (answer,), outcome),
        call_ensures(delivered, (Delivery::Unanswered(reason),), lost),
    ensures
        outcome is Err <==> 400 <= status <= 599,
        lost is Err,
        outcome is Err ==> outcome->Err_0@ != lost->Err_0@,
{
    reveal_strlit("push rejected");
    reveal_strlit("push request failed");
    if outcome is Err {
        assert(outcome->Err_0@[7] == 'j');
        assert(lost->Err_0@[7] == 'q');
    }
}

/// Targets are exactly those that there is an address for.
pub proof fn targets_are_those_with_an_address(
    kuma: Option<&str>,
    gatus: Option<(&str, &str)>,
    targets: Targets,
    empty: bool,
)
    requires
        call_ensures(Targets::new, (kuma, gatus), targets),
        call_ensures(Targets::is_empty, (&targets,), empty),
    ensures
        targets.kuma() is Some <==> kuma is Some,
        targets.gatus() is Some <==> gatus is Some,
        gatus matches Some((_, token)) ==> targets.gatus()->0.token() == token@,
        empty <==> kuma is None && gatus is None,
{
}

} // verus!
