//! Middleware that rewrites the procedure name of incoming calls.
use vstd::prelude::*;

use crate::envelope::{Call, Reply};
use crate::error::Error;

verus! {

/// Whether `pattern` compiles as a regular expression within the default
/// size limit.
pub uninterp spec fn regex_accepts(pattern: Seq<char>) -> bool;

/// Whether the regular expression `pattern` matches somewhere in `text`.
pub uninterp spec fn regex_finds(pattern: Seq<char>, text: Seq<char>) -> bool;

/// `text` with every match of `pattern` replaced by `replacement`, where `$n`
/// stands for the n-th capture group.
pub uninterp spec fn regex_rewritten(pattern: Seq<char>, text: Seq<char>, replacement: Seq<char>) -> Seq<char>;

/// Relies on `regex::Regex::new`, which fails on an invalid pattern and on
/// one that compiles beyond the default size limit, and, on the compiled pattern, on `Regex::is_match` and `Regex::replace_all`.
#[verifier::external_body]
fn pattern_apply(pattern: &str, text: &str, replacement: &str) -> (r: Option<(bool, String)>)
    ensures
        r is Some <==> regex_accepts(pattern@),
        r matches Some(v) ==> v.0 == regex_finds(pattern@, text@),
        r matches Some(v) ==> v.1@ == regex_rewritten(pattern@, text@, replacement@),
{
    match regex::Regex::new(pattern) {
        Ok(re) => Some((re.is_match(text), re.replace_all(text, replacement).into_owned())),
        Err(_) => None,
    }
}

/// Routing rules as (pattern, replacement) pairs, in order.
pub open spec fn routes_view(routes: Seq<(String, String)>) -> Seq<(Seq<char>, Seq<char>)> {
    routes.map_values(|r: (String, String)| (r.0@, r.1@))
}

/// The procedure name that the first rule whose pattern matches makes of
/// `procedure` (`None` where no rule matches), or the position of the first
/// invalid pattern met before any match.
pub open spec fn route(routes: Seq<(Seq<char>, Seq<char>)>, procedure: Seq<char>, from: int) -> Result<Option<Seq<char>>, int>
    decreases routes.len() - from,
{
    if from < 0 || from >= routes.len() {
        Ok(None)
    } else if !regex_accepts(routes[from].0) {
        Err(from)
    } else if regex_finds(routes[from].0, procedure) {
        Ok(Some(regex_rewritten(routes[from].0, procedure, routes[from].1)))
    } else {
        route(routes, procedure, from + 1)
    }
}

/// What routing does to an incoming call: a rewritten name, or the call as it
/// was, or an error for an invalid pattern; an error passes through.
pub open spec fn route_call(routes: Seq<(Seq<char>, Seq<char>)>, call: Result<crate::envelope::WireCall, Error>) -> Result<crate::envelope::WireCall, Error> {
    match call {
        Err(e) => Err(e),
        Ok(c) => match route(routes, c.procedure, 0) {
            Err(i) => Err(Error::RegexParse(i as usize)),
            Ok(None) => Ok(c),
            Ok(Some(p)) => Ok(crate::envelope::WireCall { procedure: p, payload: c.payload }),
        },
    }
}

/// Rewrites the procedure name of incoming calls by the first matching
/// regular-expression rule.
pub struct Router {
    pub routes: Vec<(String, String)>,
}

/// Builder of a [`Router`].
pub struct RouterBuilder {
    pub routes: Vec<(String, String)>,
}

impl Router {
    /// A builder with no rules.
    pub fn builder() -> (r: RouterBuilder)
        ensures
            r.routes@.len() == 0,
    {
        RouterBuilder { routes: Vec::new() }
    }

    pub open spec fn rules(&self) -> Seq<(Seq<char>, Seq<char>)> {
        routes_view(self.routes@)
    }

    /// Outgoing calls pass unchanged.
    pub fn wrap_call(&self, call: Result<Call<String>, Error>) -> (r: Result<Call<String>, Error>)
        ensures
            r == call,
    {
        call
    }

    /// Outgoing replies pass unchanged.
    pub fn wrap_reply(&self, reply: Result<Reply<String>, Error>) -> (r: Result<Reply<String>, Error>)
        ensures
            r == reply,
    {
        reply
    }

    /// Incoming replies pass unchanged.
    pub fn unwrap_reply(&self, reply: Result<Reply<String>, Error>) -> (r: Result<Reply<String>, Error>)
        ensures
            r == reply,
    {
        reply
    }

    /// Rewrites the procedure of an incoming call by the first rule whose
    /// pattern matches it.
    pub fn unwrap_call(&self, call: Result<Call<String>, Error>) -> (r: Result<Call<String>, Error>)
        ensures
            crate::envelope::call_result(r) == route_call(self.rules(), crate::envelope::call_result(call)),
    {
        match call {
            Err(e) => Err(e),
            Ok(c) => {
                let mut i: usize = 0;
                while i < self.routes.len()
                    invariant
                        0 <= i <= self.routes@.len(),
                        crate::envelope::call_result(call) == Ok::<crate::envelope::WireCall, Error>(c@),
                        route(self.rules(), c.procedure@, 0) == route(self.rules(), c.procedure@, i as int),
                    decreases self.routes@.len() - i,
                {
                    let rule = &self.routes[i];
                    assert(self.rules()[i as int] == (rule.0@, rule.1@));
                    match pattern_apply(rule.0.as_str(), c.procedure.as_str(), rule.1.as_str()) {
                        None => {
                            return Err(Error::RegexParse(i));
                        },
                        Some((true, p)) => {
                            return Ok(Call { procedure: p, payload: c.payload });
                        },
                        Some((false, _)) => {},
                    }
                    i = i + 1;
                }
                Ok(c)
            },
        }
    }
}

impl RouterBuilder {
    /// Sets the rules, as (pattern, replacement) pairs tried in order.
    pub fn routes(self, value: Vec<(String, String)>) -> (r: RouterBuilder)
        ensures
            r.routes == value,
    {
        RouterBuilder { routes: value }
    }

    /// The router with the rules set so far.
    pub fn build(self) -> (r: Router)
        ensures
            r.routes == self.routes,
    {
        Router { routes: self.routes }
    }
}

} // verus!
