//! The fleet: which resolvers there are, and what they are called.

use vstd::prelude::*;
use crate::check::Proto;
use crate::push::Targets;
use crate::text::{all_ascii, ascii_upper, to_uppercase, trim_slashes, uppercase};

verus! {

/// One resolver to be checked, e.g. short `jp-dns2` in domain `bancuh.com`.
#[derive(Debug, Clone)]
pub struct Node {
    pub short: String,
    pub host: String,
}

/// Whether a character can appear in the name of an environment variable.
pub open spec fn env_char(c: char) -> bool {
    ('A' <= c && c <= 'Z') || ('0' <= c && c <= '9') || c == '_'
}

/// A dash becomes an underscore; every other character is kept.
pub open spec fn undash(c: char) -> char {
    if c == '-' {
        '_'
    } else {
        c
    }
}

/// The part of an environment key that stands for an upper-cased short name:
/// its dashes become underscores, and what cannot appear in the name of an
/// environment variable is dropped.
pub open spec fn env_name(upper: Seq<char>) -> Seq<char> {
    upper.map_values(|c: char| undash(c)).filter(|c: char| env_char(c))
}

/// The environment key for a push token, given the upper-cased short name.
pub open spec fn env_key(upper: Seq<char>, proto: Proto) -> Seq<char> {
    "TOKEN_"@ + env_name(upper) + "_"@ + proto.env_label()
}

/// `env_name`, as text.
pub fn sanitised(upper: &str) -> (out: String)
    ensures
        out@ == env_name(upper@),
        forall|i: int|
            0 <= i < out@.len() ==> ('A' <= #[trigger] out@[i] && out@[i] <= 'Z') || ('0' <= out@[i]
                && out@[i] <= '9') || out@[i] == '_',
        out@.len() <= upper@.len(),
{
    let mut out = String::new();
    let ghost mapped = upper@.map_values(|c: char| undash(c));
    let ghost keep = |c: char| env_char(c);
    proof {
        reveal(Seq::filter);
        assert(mapped.take(0) =~= Seq::empty());
    }
    for c in it: upper.chars()
        invariant
            it.seq() == upper@,
            mapped == upper@.map_values(|c: char| undash(c)),
            keep == (|c: char| env_char(c)),
            out@ == mapped.take(it.index()).filter(keep),
            out@.len() <= it.index(),
            forall|i: int|
                0 <= i < out@.len() ==> ('A' <= #[trigger] out@[i] && out@[i] <= 'Z') || ('0'
                    <= out@[i] && out@[i] <= '9') || out@[i] == '_',
    {
        let ghost at = it.index();
        let c = if c == '-' {
            '_'
        } else {
            c
        };
        if ('A' <= c && c <= 'Z') || ('0' <= c && c <= '9') || c == '_' {
            out.push(c);
        }
        proof {
            reveal(Seq::filter);
            assert(mapped.take(at + 1).drop_last() =~= mapped.take(at));
            assert(mapped.take(at + 1).last() == c);
        }
    }
    assert(mapped.take(mapped.len() as int) =~= mapped);
    out
}

impl Node {
    pub fn new(short: &str, domain: &str) -> (node: Self)
        ensures
            node.short@ == short@,
            node.host@ == short@ + "."@ + domain@,
    {
        let mut host = short.to_owned();
        host.append(".");
        host.append(domain);
        Node { short: short.to_owned(), host }
    }

    /// Environment key for a push token, e.g. `TOKEN_JP_DNS2_DOH`.
    ///
    /// Tokens are read from the environment by name rather than declared as
    /// fields, so adding a node stays a config change: a new entry in `NODES`
    /// plus its three tokens in the Secret, with no code or image rebuild.
    pub fn token_key(&self, proto: Proto) -> (key: String)
        ensures
            key@ == env_key(uppercase(self.short@), proto),
            all_ascii(self.short@) ==> key@ == env_key(
                self.short@.map_values(|c: char| ascii_upper(c)),
                proto,
            ),
            proto == Proto::Doh ==> key@ == "TOKEN_"@ + env_name(uppercase(self.short@)) + "_"@
                + "DOH"@,
            proto == Proto::Dot ==> key@ == "TOKEN_"@ + env_name(uppercase(self.short@)) + "_"@
                + "DOT"@,
            proto == Proto::Cert ==> key@ == "TOKEN_"@ + env_name(uppercase(self.short@)) + "_"@
                + "CERT"@,
    {
        let upper = to_uppercase(self.short.as_str());
        let label = to_uppercase(proto.as_str());
        proof {
            proto.label_is_upper_case_name();
        }
        let mut key = "TOKEN_".to_owned();
        key.append(sanitised(upper.as_str()).as_str());
        key.append("_");
        key.append(label.as_str());
        key
    }

    /// The uptime-kuma push token for one of this node's checks, if configured.
    ///
    /// `value` is what the environment holds under the check's `token_key`. A
    /// variable that is set but empty is as good as none.
    pub fn token(value: Option<String>) -> (token: Option<String>)
        ensures
            token == match value {
                Some(text) => if text@.len() > 0 {
                    Some(text)
                } else {
                    None
                },
                None => None,
            },
    {
        match value {
            Some(text) => if text.as_str().is_empty() {
                None
            } else {
                Some(text)
            },
            None => None,
        }
    }
}

/// The key for a push token holds nothing that cannot appear in the name of an
/// environment variable.
pub proof fn key_is_an_env_name(upper: Seq<char>, proto: Proto)
    ensures
        forall|i: int| 0 <= i < env_key(upper, proto).len() ==> env_char(env_key(upper, proto)[i]),
{
    reveal_strlit("TOKEN_");
    reveal_strlit("_");
    reveal_strlit("DOH");
    reveal_strlit("DOT");
    reveal_strlit("CERT");
    let mapped = upper.map_values(|c: char| undash(c));
    let keep = |c: char| env_char(c);
    broadcast use vstd::seq_lib::group_filter_ensures;
    let name = env_name(upper);
    assert forall|i: int| 0 <= i < name.len() implies env_char(name[i]) by {
        assert(keep(name[i]));
    }
}

/// Each character of a short name counts by itself, and in its place: a letter or
/// digit or underscore is kept, a dash becomes an underscore, and everything
/// else is dropped.
pub proof fn each_character_counts_by_itself(front: Seq<char>, c: char, back: Seq<char>)
    ensures
        env_name(front + back) == env_name(front) + env_name(back),
        ('A' <= c && c <= 'Z') || ('0' <= c && c <= '9') || c == '_' ==> env_name(seq![c])
            == seq![c],
        c == '-' ==> env_name(seq![c]) == seq!['_'],
        !(('A' <= c && c <= 'Z') || ('0' <= c && c <= '9') || c == '_' || c == '-') ==> env_name(
            seq![c],
        ) == Seq::<char>::empty(),
        env_name(Seq::empty()) == Seq::<char>::empty(),
{
    reveal(Seq::filter);
    let keep = |c: char| env_char(c);
    let map = |c: char| undash(c);
    assert((front + back).map_values(map) =~= front.map_values(map) + back.map_values(map));
    Seq::filter_distributes_over_add(front.map_values(map), back.map_values(map), keep);
    let one = seq![c].map_values(map);
    assert(one =~= seq![undash(c)]);
    assert(one.drop_last() =~= Seq::empty());
    assert(one.drop_last().filter(keep) =~= Seq::empty());
    assert(Seq::<char>::empty().map_values(map) =~= Seq::empty());
}

/// A key starts with what all tokens have in common, goes on with what stands for
/// the node, and ends with the check in upper case.
pub proof fn key_names_node_and_check(upper: Seq<char>, proto: Proto)
    ensures
        proto == Proto::Doh ==> env_key(upper, proto) == "TOKEN_"@ + env_name(upper) + "_"@
            + "DOH"@,
        proto == Proto::Dot ==> env_key(upper, proto) == "TOKEN_"@ + env_name(upper) + "_"@
            + "DOT"@,
        proto == Proto::Cert ==> env_key(upper, proto) == "TOKEN_"@ + env_name(upper) + "_"@
            + "CERT"@,
{
}

/// The three checks of a node have different keys.
pub proof fn keys_tell_checks_apart(upper: Seq<char>, a: Proto, b: Proto)
    requires
        a != b,
    ensures
        env_key(upper, a) != env_key(upper, b),
{
    reveal_strlit("DOH");
    reveal_strlit("DOT");
    reveal_strlit("CERT");
    let front = "TOKEN_"@ + env_name(upper) + "_"@;
    assert(env_key(upper, a).skip(front.len() as int) =~= a.env_label());
    assert(env_key(upper, b).skip(front.len() as int) =~= b.env_label());
    assert(a.env_label()[1] != b.env_label()[1] || a.env_label()[2] != b.env_label()[2]);
}

/// A short name that is made of what can appear in an environment variable's
/// name, and of dashes, keeps all of its characters.
pub proof fn plain_names_are_kept_whole(upper: Seq<char>)
    requires
        forall|i: int| 0 <= i < upper.len() ==> env_char(undash(upper[i])),
    ensures
        env_name(upper) == upper.map_values(|c: char| undash(c)),
{
    let mapped = upper.map_values(|c: char| undash(c));
    filter_keeps_all(mapped);
}

proof fn filter_keeps_all(s: Seq<char>)
    requires
        forall|i: int| 0 <= i < s.len() ==> env_char(s[i]),
    ensures
        s.filter(|c: char| env_char(c)) == s,
    decreases s.len(),
{
    reveal(Seq::filter);
    if s.len() > 0 {
        filter_keeps_all(s.drop_last());
        assert(s.drop_last().push(s.last()) =~= s);
    }
}

/// The nodes that are to be checked, each a short name in the same domain.
pub fn fleet(shorts: &Vec<String>, domain: &str) -> (result: Result<Vec<Node>, String>)
    ensures
        shorts@.len() == 0 ==> (result matches Err(err) && err@ == "NODES is empty"@),
        shorts@.len() > 0 ==> {
            &&& result matches Ok(nodes)
            &&& nodes@.len() == shorts@.len()
            &&& forall|i: int|
                0 <= i < shorts@.len() ==> {
                    &&& (#[trigger] nodes@[i]).short@ == shorts@[i]@
                    &&& nodes@[i].host@ == shorts@[i]@ + "."@ + domain@
                }
        },
{
    if shorts.len() == 0 {
        return Err("NODES is empty".to_owned());
    }
    let mut nodes: Vec<Node> = Vec::new();
    let mut i: usize = 0;
    while i < shorts.len()
        invariant
            i <= shorts.len(),
            nodes@.len() == i,
            forall|j: int|
                0 <= j < i ==> {
                    &&& (#[trigger] nodes@[j]).short@ == shorts@[j]@
                    &&& nodes@[j].host@ == shorts@[j]@ + "."@ + domain@
                },
        decreases shorts.len() - i,
    {
        nodes.push(Node::new(shorts[i].as_str(), domain));
        i = i + 1;
    }
    Ok(nodes)
}

/// What is wrong with the push targets that are configured, if anything.
pub open spec fn target_problem(
    kuma: Option<&str>,
    gatus: Option<&str>,
    gatus_token: Option<&str>,
) -> Option<Seq<char>> {
    if gatus is Some && gatus_token is None {
        Some("GATUS is set but GATUS_TOKEN is not"@)
    } else if kuma is None && gatus is None {
        Some("no push target configured: set KUMA, GATUS, or both"@)
    } else {
        None
    }
}

/// The configuration is good exactly when there is a target, and Gatus, if it is
/// one, has a token. Without Gatus it makes no difference whether there is a
/// token.
pub proof fn good_exactly_with_a_target_and_its_token(
    kuma: Option<&str>,
    gatus: Option<&str>,
    gatus_token: Option<&str>,
)
    ensures
        target_problem(kuma, gatus, gatus_token) is None <==> {
            &&& kuma is Some || gatus is Some
            &&& gatus is Some ==> gatus_token is Some
        },
        kuma is Some && gatus is None ==> target_problem(kuma, gatus, gatus_token) is None,
        gatus is None ==> target_problem(kuma, gatus, gatus_token) == target_problem(
            kuma,
            gatus,
            None,
        ),
        gatus is Some && gatus_token is None ==> target_problem(kuma, gatus, gatus_token) == Some(
            "GATUS is set but GATUS_TOKEN is not"@,
        ),
        kuma is None && gatus is None ==> target_problem(kuma, gatus, gatus_token) == Some(
            "no push target configured: set KUMA, GATUS, or both"@,
        ),
{
}

/// Adding uptime-kuma to a good configuration leaves it good.
pub proof fn another_target_does_no_harm(
    kuma: &str,
    gatus: Option<&str>,
    gatus_token: Option<&str>,
)
    requires
        target_problem(None, gatus, gatus_token) is None,
    ensures
        target_problem(Some(kuma), gatus, gatus_token) is None,
{
}

/// The push targets that are configured. Gatus needs a token, and there has to
/// be at least one target; a token without a Gatus is ignored.
pub fn targets(kuma: Option<&str>, gatus: Option<&str>, gatus_token: Option<&str>) -> (result:
    Result<Targets, String>)
    ensures
        result is Ok <==> {
            &&& kuma is Some || gatus is Some
            &&& gatus is Some ==> gatus_token is Some
        },
        result matches Ok(targets) ==> {
            &&& targets.kuma() is Some <==> kuma is Some
            &&& targets.gatus() is Some <==> gatus is Some
        },
        gatus is Some && gatus_token is None ==> (result matches Err(err) && err@
            == "GATUS is set but GATUS_TOKEN is not"@),
        kuma is None && gatus is None ==> (result matches Err(err) && err@
            == "no push target configured: set KUMA, GATUS, or both"@),
        match target_problem(kuma, gatus, gatus_token) {
            Some(problem) => result matches Err(err) && err@ == problem,
            None => {
                &&& result matches Ok(targets)
                &&& match kuma {
                    Some(base) => targets.kuma() matches Some(found) && found.base()
                        == trim_slashes(base@),
                    None => targets.kuma() is None,
                }
                &&& match gatus {
                    Some(base) => {
                        &&& targets.gatus() matches Some(found)
                        &&& found.base() == trim_slashes(base@)
                        &&& found.token() == gatus_token->0@
                    },
                    None => targets.gatus() is None,
                }
            },
        },
{
    let gatus = match (gatus, gatus_token) {
        (Some(base), Some(token)) => Some((base, token)),
        (Some(_), None) => return Err("GATUS is set but GATUS_TOKEN is not".to_owned()),
        _ => None,
    };
    let targets = Targets::new(kuma, gatus);
    if targets.is_empty() {
        return Err("no push target configured: set KUMA, GATUS, or both".to_owned());
    }
    Ok(targets)
}

/// With any token or none, uptime-kuma alone is enough, and is the only target
/// then. Gatus makes a difference only together with its token.
pub proof fn kuma_alone_is_enough(
    kuma: &str,
    gatus: &str,
    gatus_token: Option<&str>,
    alone: Result<Targets, String>,
    both: Result<Targets, String>,
)
    requires
        call_ensures(targets, (Some(kuma), None, gatus_token), alone),
        call_ensures(targets, (Some(kuma), Some(gatus), gatus_token), both),
    ensures
        alone matches Ok(found) && found.kuma() is Some && found.gatus() is None,
        both is Ok <==> gatus_token is Some,
        both matches Ok(found) ==> found.kuma() is Some && found.gatus() is Some,
{
}

/// A node's host is its short name, a dot and the domain, and the short name is
/// kept as it is.
pub proof fn host_is_the_short_name_in_the_domain(short: &str, domain: &str, node: Node)
    requires
        call_ensures(Node::new, (short, domain), node),
    ensures
        node.short@ == short@,
        node.host@.len() == short@.len() + 1 + domain@.len(),
        node.host@.take(short@.len() as int) == short@,
        node.host@[short@.len() as int] == '.',
        node.host@.skip(short@.len() as int + 1) == domain@,
{
    reveal_strlit(".");
    assert(node.host@.take(short@.len() as int) =~= short@);
    assert(node.host@.skip(short@.len() as int + 1) =~= domain@);
}

/// A variable that is not empty is the token; without one, or with an empty one,
/// there is none.
pub proof fn only_an_empty_variable_is_no_token(value: Option<String>, token: Option<String>)
    requires
        call_ensures(Node::token, (value,), token),
    ensures
        token is Some <==> value is Some && value->0@.len() > 0,
        token is Some ==> token == value,
{
}

/// There is a node for each short name, in the same order, made as one is made
/// from that name alone. Only an empty list is refused.
pub proof fn fleet_has_a_node_for_each_name(
    shorts: Vec<String>,
    domain: &str,
    result: Result<Vec<Node>, String>,
    i: int,
)
    requires
        call_ensures(fleet, (&shorts, domain), result),
        0 <= i < shorts@.len(),
    ensures
        result matches Ok(nodes) && nodes@.len() == shorts@.len() && nodes@[i].short@
            == shorts@[i]@ && nodes@[i].host@ == shorts@[i]@ + "."@ + domain@,
{
}

/// An empty list of names is refused.
pub proof fn empty_fleet_is_refused(
    shorts: Vec<String>,
    domain: &str,
    result: Result<Vec<Node>, String>,
)
    requires
        call_ensures(fleet, (&shorts, domain), result),
    ensures
        result is Err <==> shorts@.len() == 0,
{
}

/// The keys of a node's checks differ in nothing but the check at their end.
pub proof fn keys_differ_in_the_check_only(node: Node, doh: String, dot: String, cert: String)
    requires
        call_ensures(Node::token_key, (&node, Proto::Doh), doh),
        call_ensures(Node::token_key, (&node, Proto::Dot), dot),
        call_ensures(Node::token_key, (&node, Proto::Cert), cert),
    ensures
        exists|front: Seq<char>|
            {
                &&& doh@ == #[trigger] (front + "DOH"@)
                &&& dot@ == front + "DOT"@
                &&& cert@ == front + "CERT"@
                &&& "TOKEN_"@.is_prefix_of(front)
                &&& front.last() == '_'
            },
{
    reveal_strlit("TOKEN_");
    reveal_strlit("_");
    let front = "TOKEN_"@ + env_name(uppercase(node.short@)) + "_"@;
    assert("TOKEN_"@ =~= front.take(6));
    assert(doh@ == front + "DOH"@);
}

} // verus!
