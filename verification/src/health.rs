//! Server discovery by health check: a base URL answers for an Airwave server when
//! `GET {base}/api/health` succeeds with the JSON body `{ "ok": true }`. The requests
//! themselves are made by the caller; this module decides what they mean.
use vstd::prelude::*;

verus! {

/// The URL of a base's health endpoint.
pub fn health_url(base: &str) -> (r: String)
    ensures
        r@ == base@ + "/api/health"@,
{
    let mut r = String::from_str(base);
    r.append("/api/health");
    r
}

/// What `serde_json` makes of the member `key` of a JSON text: `Some(b)` when the text
/// parses as JSON, its top level is an object and its member `key` is the boolean `b`;
/// `None` otherwise.
pub uninterp spec fn json_bool_member(text: Seq<char>, key: Seq<char>) -> Option<bool>;

/// Parses `text` with `serde_json::from_str::<serde_json::Value>`, looks up the member `key`
/// with `Value::get` and keeps it only when it is a JSON boolean (the `Value::Bool` variant).
/// Claimed: the result depends on the text and the key alone; the JSON grammar it rests on
/// is left to the name.
#[verifier::external_body]
fn parse_bool_member(text: &str, key: &str) -> (r: Option<bool>)
    ensures
        r == json_bool_member(text@, key@),
{
    match serde_json::from_str::<serde_json::Value>(text) {
        Ok(v) => match v.get(key) {
            Some(serde_json::Value::Bool(b)) => Some(*b),
            _ => None,
        },
        Err(_) => None,
    }
}

/// The member of a health body that says whether the server is up.
pub open spec fn health_key() -> Seq<char> {
    "ok"@
}

/// A health body is accepted exactly when its `"ok"` member is `true`.
pub fn flag_accepts(flag: Option<bool>) -> (r: bool)
    ensures
        r == (flag == Some(true)),
{
    match flag {
        Some(b) => b,
        None => false,
    }
}

/// Whether a health response body says the server is up: its member `"ok"` is `true`.
pub open spec fn body_healthy(body: Option<Seq<char>>) -> bool {
    match body {
        Some(t) => json_bool_member(t, health_key()) == Some(true),
        None => false,
    }
}

/// Whether the body of a successful health response says the server is up.
pub fn health_body_ok(text: &str) -> (r: bool)
    ensures
        r == body_healthy(Some(text@)),
{
    let flag = parse_bool_member(text, "ok");
    flag_accepts(flag)
}

/// The bases whose probe was answered by a healthy body, in the order they were given.
pub open spec fn healthy(bases: Seq<Seq<char>>, bodies: Seq<Option<Seq<char>>>) -> Seq<Seq<char>>
    decreases bases.len(),
{
    if bases.len() == 0 || bodies.len() == 0 {
        Seq::empty()
    } else {
        let prev = healthy(bases.drop_last(), bodies.drop_last());
        if body_healthy(bodies.last()) { prev.push(bases.last()) } else { prev }
    }
}

/// Keeps the bases that answered the health check. `bodies[i]` is the body that `bases[i]`
/// answered with, when its request succeeded with a success status and the body was read;
/// `None` when it did not.
pub fn healthy_bases(bases: &Vec<String>, bodies: &Vec<Option<String>>) -> (r: Vec<String>)
    requires
        bases.len() == bodies.len(),
    ensures
        r.deep_view() == healthy(bases.deep_view(), bodies.deep_view()),
{
    let mut kept: Vec<String> = Vec::new();
    let mut i: usize = 0;
    while i < bases.len()
        invariant
            i <= bases.len(),
            bases.len() == bodies.len(),
            kept.deep_view() == healthy(
                bases.deep_view().subrange(0, i as int),
                bodies.deep_view().subrange(0, i as int),
            ),
        decreases bases.len() - i,
    {
        let ghost bs = bases.deep_view().subrange(0, i + 1);
        let ghost ds = bodies.deep_view().subrange(0, i + 1);
        assert(bs.drop_last() =~= bases.deep_view().subrange(0, i as int));
        assert(ds.drop_last() =~= bodies.deep_view().subrange(0, i as int));
        assert(bs.last() == bases[i as int]@);
        assert(ds.last() == bodies.deep_view()[i as int]);
        let ok = match &bodies[i] {
            Some(text) => health_body_ok(text.as_str()),
            None => false,
        };
        if ok {
            let ghost before = kept.deep_view();
            kept.push(bases[i].clone());
            assert(kept.deep_view() =~= before.push(bases[i as int]@));
        }
        i = i + 1;
    }
    assert(bases.deep_view().subrange(0, bases.len() as int) =~= bases.deep_view());
    assert(bodies.deep_view().subrange(0, bodies.len() as int) =~= bodies.deep_view());
    kept
}

/// Every base that is kept was given, with a healthy body; none is made up.
pub proof fn lemma_healthy_only_answered(bases: Seq<Seq<char>>, bodies: Seq<Option<Seq<char>>>, x: Seq<char>)
    requires
        bases.len() == bodies.len(),
    ensures
        healthy(bases, bodies).len() <= bases.len(),
        healthy(bases, bodies).contains(x)
            ==> exists|i: int| 0 <= i < bases.len() && bases[i] == x && body_healthy(#[trigger] bodies[i]),
    decreases bases.len(),
{
    if bases.len() > 0 {
        let bi = bases.drop_last();
        let di = bodies.drop_last();
        lemma_healthy_only_answered(bi, di, x);
        let prev = healthy(bi, di);
        if healthy(bases, bodies).contains(x) {
            if prev.contains(x) {
                let i = choose|i: int| 0 <= i < bi.len() && bi[i] == x && body_healthy(#[trigger] di[i]);
                assert(bases[i] == bi[i] && bodies[i] == di[i]);
            } else {
                let last = bases.len() - 1;
                assert(bases[last] == x && body_healthy(bodies[last]));
            }
        }
    }
}

/// A body is healthy exactly when its member `"ok"` reads `true`; no body, no health.
pub proof fn lemma_health_key(text: Seq<char>)
    ensures
        body_healthy(Some(text)) == (json_bool_member(text, "ok"@) == Some(true)),
        !body_healthy(None),
{
}

/// Every base that answered with a healthy body is kept.
pub proof fn lemma_healthy_all_kept(bases: Seq<Seq<char>>, bodies: Seq<Option<Seq<char>>>, i: int)
    requires
        bases.len() == bodies.len(),
        0 <= i < bases.len(),
        body_healthy(bodies[i]),
    ensures
        healthy(bases, bodies).contains(bases[i]),
    decreases bases.len(),
{
    let bi = bases.drop_last();
    let di = bodies.drop_last();
    let prev = healthy(bi, di);
    if i == bases.len() - 1 {
        assert(healthy(bases, bodies) == prev.push(bases.last()));
        assert(prev.push(bases.last())[prev.len() as int] == bases[i]);
    } else {
        assert(bi[i] == bases[i] && di[i] == bodies[i]);
        lemma_healthy_all_kept(bi, di, i);
        let k = choose|k: int| 0 <= k < prev.len() && prev[k] == bases[i];
        if body_healthy(bodies.last()) {
            assert(prev.push(bases.last())[k] == bases[i]);
        }
    }
}

} // verus!
