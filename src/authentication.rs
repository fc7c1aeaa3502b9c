//! Middleware that sends credentials with outgoing calls and checks them,
//! with the scopes granted to the procedure, on incoming calls.
use vstd::prelude::*;

use crate::envelope::{Call, Reply};
use crate::error::Error;
use crate::glob::wildcard_matches;
use crate::json::{literal_at, quote, token, unquote};
use vstd::string::StringExecFns;

verus! {

/// The JSON text of the credential envelope: the object
/// `{"auth":[user,password],"payload":payload}`, each of the three written
/// as a JSON string, with no white space.
pub open spec fn envelope_encoded(user: Seq<char>, password: Seq<char>, payload: Seq<char>) -> Seq<char> {
    "{\"auth\":["@ + crate::json::json_quoted(user) + ","@ + crate::json::json_quoted(password) + "],\"payload\":"@
        + crate::json::json_quoted(payload) + "}"@
}

/// The three string tokens of a credential envelope laid out as
/// `envelope_encoded` writes it, if `t` is one.
pub open spec fn envelope_tokens(t: Seq<char>) -> Option<(Seq<char>, Seq<char>, Seq<char>)> {
    let head = "{\"auth\":["@;
    let middle = "],\"payload\":"@;
    if !(head.len() <= t.len() && t.subrange(0, head.len() as int) == head) {
        None
    } else {
        match crate::json::token_at(t, head.len() as int) {
            None => None,
            Some((q1, a)) => if !(a < t.len() && t[a] == ',') {
                None
            } else {
                match crate::json::token_at(t, a + 1) {
                    None => None,
                    Some((q2, b)) => if !(b + middle.len() <= t.len() && t.subrange(b, b + middle.len()) == middle) {
                        None
                    } else {
                        match crate::json::token_at(t, b + middle.len()) {
                            None => None,
                            Some((q3, c)) => if c + 1 == t.len() && t[c] == '}' {
                                Some((q1, q2, q3))
                            } else {
                                None
                            },
                        }
                    },
                }
            },
        }
    }
}

/// The (user, password, payload) that the credential envelope `text` holds,
/// if it is one.
pub open spec fn envelope_decoded(text: Seq<char>) -> Option<(Seq<char>, Seq<char>, Seq<char>)> {
    match envelope_tokens(text) {
        None => None,
        Some((q1, q2, q3)) => match (
            crate::json::json_string_value(q1),
            crate::json::json_string_value(q2),
            crate::json::json_string_value(q3),
        ) {
            (Some(u), Some(p), Some(x)) => Some((u, p, x)),
            _ => None,
        },
    }
}

/// Three whole string tokens laid out as an envelope are read back as its
/// three tokens.
proof fn lemma_envelope_tokens(q1: Seq<char>, q2: Seq<char>, q3: Seq<char>)
    requires
        crate::json::whole_token(q1),
        crate::json::whole_token(q2),
        crate::json::whole_token(q3),
    ensures
        envelope_tokens("{\"auth\":["@ + q1 + ","@ + q2 + "],\"payload\":"@ + q3 + "}"@) == Some((q1, q2, q3)),
{
    reveal_strlit("{\"auth\":[");
    reveal_strlit(",");
    reveal_strlit("],\"payload\":");
    reveal_strlit("}");
    let head = "{\"auth\":["@;
    let comma = ","@;
    let middle = "],\"payload\":"@;
    let tail = "}"@;
    let t = head + q1 + comma + q2 + middle + q3 + tail;
    assert(head.len() == 9);
    assert(middle.len() == 12);
    assert(t.subrange(0, 9) =~= head);
    // first token
    let rest1 = comma + q2 + middle + q3 + tail;
    assert(t =~= head + q1 + rest1);
    crate::json::lemma_closing_shift(head, q1, rest1, 1);
    let a: int = 9 + q1.len() as int;
    assert(t[9] == q1[0]);
    assert(t.subrange(9, a) =~= q1);
    assert(crate::json::token_at(t, 9) == Some((q1, a)));
    assert(t[a] == ',');
    // second token
    let pre2 = head + q1 + comma;
    let rest2 = middle + q3 + tail;
    assert(t =~= pre2 + q2 + rest2);
    crate::json::lemma_closing_shift(pre2, q2, rest2, 1);
    let b: int = a + 1 + q2.len() as int;
    assert(t[a + 1] == q2[0]);
    assert(t.subrange(a + 1, b) =~= q2);
    assert(crate::json::token_at(t, a + 1) == Some((q2, b)));
    assert(t.subrange(b, b + 12) =~= middle);
    // third token
    let pre3 = head + q1 + comma + q2 + middle;
    assert(t =~= pre3 + q3 + tail);
    crate::json::lemma_closing_shift(pre3, q3, tail, 1);
    let c: int = b + 12 + q3.len() as int;
    assert(t[b + 12] == q3[0]);
    assert(t.subrange(b + 12, c) =~= q3);
    assert(crate::json::token_at(t, b + 12) == Some((q3, c)));
    assert(t[c] == '}');
    assert(c + 1 == t.len());
}

/// Writes the credential envelope of `payload`; what it writes reads back
/// as the three strings it was written from.
fn encode_envelope(user: &String, password: &String, payload: &String) -> (r: Result<String, ()>)
    ensures
        r is Ok,
        r matches Ok(t) ==> t@ == envelope_encoded(user@, password@, payload@),
        r matches Ok(t) ==> envelope_decoded(t@) == Some((user@, password@, payload@)),
{
    let q1 = quote(user.as_str())?;
    let q2 = quote(password.as_str())?;
    let q3 = quote(payload.as_str())?;
    let mut t = String::from_str("{\"auth\":[");
    t.append(q1.as_str());
    t.append(",");
    t.append(q2.as_str());
    t.append("],\"payload\":");
    t.append(q3.as_str());
    t.append("}");
    proof {
        lemma_envelope_tokens(q1@, q2@, q3@);
        assert(t@ =~= envelope_encoded(user@, password@, payload@));
    }
    Ok(t)
}

/// Reads a credential envelope.
fn decode_envelope(text: &String) -> (r: Option<((String, String), String)>)
    ensures
        r is Some <==> envelope_decoded(text@) is Some,
        r matches Some(v) ==> envelope_decoded(text@) == Some((v.0.0@, v.0.1@, v.1@)),
{
    let t = text.as_str();
    let n = t.unicode_len();
    let head = "{\"auth\":[";
    let middle = "],\"payload\":";
    let hl = head.unicode_len();
    let ml = middle.unicode_len();
    if !literal_at(t, n, 0, head) {
        return None;
    }
    let (q1, a) = match token(t, n, hl) {
        None => {
            return None;
        },
        Some(v) => v,
    };
    if !(a < n && t.get_char(a) == ',') {
        return None;
    }
    let (q2, b) = match token(t, n, a + 1) {
        None => {
            return None;
        },
        Some(v) => v,
    };
    if !literal_at(t, n, b, middle) {
        return None;
    }
    let (q3, c) = match token(t, n, b + ml) {
        None => {
            return None;
        },
        Some(v) => v,
    };
    if !(c < n && c + 1 == n && t.get_char(c) == '}') {
        return None;
    }
    let user = match unquote(q1.as_str()) {
        None => {
            return None;
        },
        Some(v) => v,
    };
    let password = match unquote(q2.as_str()) {
        None => {
            return None;
        },
        Some(v) => v,
    };
    let payload = match unquote(q3.as_str()) {
        None => {
            return None;
        },
        Some(v) => v,
    };
    Some(((user, password), payload))
}

/// Pairs of strings as their views.
pub open spec fn pairs_view(v: Seq<(String, String)>) -> Seq<(Seq<char>, Seq<char>)> {
    v.map_values(|p: (String, String)| (p.0@, p.1@))
}

/// The scopes of the first `n` (pattern, scope) rules whose pattern matches
/// `procedure`, in order.
pub open spec fn granted(rules: Seq<(Seq<char>, Seq<char>)>, procedure: Seq<char>, n: int) -> Seq<Seq<char>>
    decreases n,
{
    if n <= 0 {
        Seq::empty()
    } else if crate::glob::glob_matches(rules[n - 1].0, procedure) {
        granted(rules, procedure, n - 1).push(rules[n - 1].1)
    } else {
        granted(rules, procedure, n - 1)
    }
}

/// Sends credentials with outgoing calls; checks them, with the scopes granted
/// to the procedure, on incoming calls.
pub struct Authentication<A> {
    /// (procedure pattern, scope) rules: a scope is granted to each procedure that its pattern matches.
    pub scopes: Option<Vec<(String, String)>>,
    /// Decides on incoming calls from the (user, password) they carry and the
    /// scopes granted to their procedure: `Ok` lets the call through, an
    /// error rejects it and is handed back as it is.
    pub authenticator: Option<A>,
    /// The (user, password) sent with outgoing calls.
    pub auth: Option<(String, String)>,
}

/// Builder of an [`Authentication`].
pub struct AuthenticationBuilder<A> {
    pub scopes: Option<Vec<(String, String)>>,
    pub authenticator: Option<A>,
    pub auth: Option<(String, String)>,
}

impl<A: Fn((String, String), Vec<String>) -> Result<(), Error>> Authentication<A> {
    /// A builder with nothing set.
    pub fn builder() -> (r: AuthenticationBuilder<A>)
        ensures
            r.scopes is None,
            r.authenticator is None,
            r.auth is None,
    {
        AuthenticationBuilder { scopes: None, authenticator: None, auth: None }
    }

    /// The scope rules as views; none where no rules are set.
    pub open spec fn rules(&self) -> Seq<(Seq<char>, Seq<char>)> {
        match self.scopes {
            Some(v) => pairs_view(v@),
            None => Seq::empty(),
        }
    }

    /// The scopes granted to `procedure`.
    pub open spec fn scopes_for(&self, procedure: Seq<char>) -> Seq<Seq<char>> {
        granted(self.rules(), procedure, self.rules().len() as int)
    }

    /// What sending credentials does to an outgoing call: an error passes
    /// unchanged; a call fails with `NoAuth` where no credentials are set,
    /// else its payload is wrapped with them.
    pub open spec fn wrap_call_spec(&self, call: Result<crate::envelope::WireCall, Error>) -> Result<crate::envelope::WireCall, Error> {
        match call {
            Err(e) => Err(e),
            Ok(c) => match self.auth {
                None => Err(Error::NoAuth),
                Some(a) => Ok(crate::envelope::WireCall { procedure: c.procedure, payload: envelope_encoded(a.0@, a.1@, c.payload) }),
            },
        }
    }

    /// Well-formedness: the authenticator accepts every input.
    pub open spec fn wf(&self) -> bool {
        self.authenticator matches Some(f) ==> forall|x: (String, String), y: Vec<String>| call_requires(f, (x, y))
    }

    /// Whether checking credentials may turn the incoming call `call` into
    /// `out`: an error passes; a payload that is no credential envelope gives
    /// `Envelope`; without an authenticator, `NoValidatorRegistered`; else the
    /// authenticator decides on the credentials and the granted scopes, and
    /// what it accepts goes on with the inner payload.
    pub open spec fn unwrap_call_spec(&self, call: Result<crate::envelope::WireCall, Error>, out: Result<crate::envelope::WireCall, Error>) -> bool {
        match call {
            Err(e) => out == Err::<crate::envelope::WireCall, Error>(e),
            Ok(c) => match envelope_decoded(c.payload) {
                None => out == Err::<crate::envelope::WireCall, Error>(Error::Envelope),
                Some(env) => match self.authenticator {
                    None => out == Err::<crate::envelope::WireCall, Error>(Error::NoValidatorRegistered),
                    Some(f) => exists|auth: (String, String), scopes: Vec<String>, v: Result<(), Error>| {
                        &&& auth.0@ == env.0 && auth.1@ == env.1
                        &&& scopes@.map_values(|s: String| s@) == self.scopes_for(c.procedure)
                        &&& call_ensures(f, (auth, scopes), v)
                        &&& out == match v {
                            Err(e) => Err(e),
                            Ok(_) => Ok(crate::envelope::WireCall { procedure: c.procedure, payload: env.2 }),
                        }
                    },
                },
            },
        }
    }

    /// Wraps the payload of an outgoing call with the credentials; fails with
    /// `NoAuth` where none are set; an error passes unchanged.
    pub fn wrap_call(&self, call: Result<Call<String>, Error>) -> (r: Result<Call<String>, Error>)
        ensures
            crate::envelope::call_result(r) == self.wrap_call_spec(crate::envelope::call_result(call)),
            r matches Ok(w) ==> self.auth matches Some(a) && envelope_decoded(w.payload@) == Some((a.0@, a.1@, call->Ok_0.payload@)),
    {
        match call {
            Err(e) => Err(e),
            Ok(c) => match &self.auth {
                None => Err(Error::NoAuth),
                Some(a) => match encode_envelope(&a.0, &a.1, &c.payload) {
                    Ok(payload) => Ok(Call { procedure: c.procedure, payload }),
                    Err(_) => Err(Error::Envelope),
                },
            },
        }
    }

    /// Outgoing replies pass unchanged.
    pub fn wrap_reply(&self, reply: Result<Reply<String>, Error>) -> (r: Result<Reply<String>, Error>)
        ensures
            r == reply,
    {
        reply
    }

    /// Incoming replies pass unchanged.
    pub fn unwrap_reply(&self, reply: Result<Reply<String>, Error>) -> (r: Result<Reply<String>, Error>)
        ensures
            r == reply,
    {
        reply
    }

    /// The scopes granted to `procedure`, in the order of the rules.
    pub fn granted_scopes(&self, procedure: &String) -> (r: Vec<String>)
        ensures
            r@.map_values(|s: String| s@) == self.scopes_for(procedure@),
    {
        let mut out: Vec<String> = Vec::new();
        match &self.scopes {
            None => {},
            Some(rules) => {
                let mut i: usize = 0;
                while i < rules.len()
                    invariant
                        0 <= i <= rules@.len(),
                        self.scopes == Some(*rules),
                        self.rules().len() == rules@.len(),
                        out@.map_values(|s: String| s@) == granted(self.rules(), procedure@, i as int),
                    decreases rules@.len() - i,
                {
                    let rule = &rules[i];
                    assert(self.rules()[i as int] == (rule.0@, rule.1@));
                    if wildcard_matches(rule.0.as_str(), procedure.as_str()) {
                        out.push(rule.1.clone());
                        assert(out@.map_values(|s: String| s@) =~= granted(self.rules(), procedure@, i as int).push(rule.1@));
                    }
                    i = i + 1;
                }
            },
        }
        out
    }

    /// Checks the credentials of an incoming call against the authenticator,
    /// with the scopes granted to its procedure, and unwraps its payload.
    pub fn unwrap_call(&self, call: Result<Call<String>, Error>) -> (r: Result<Call<String>, Error>)
        requires
            self.wf(),
        ensures
            self.unwrap_call_spec(crate::envelope::call_result(call), crate::envelope::call_result(r)),
    {
        match call {
            Err(e) => Err(e),
            Ok(c) => {
                let scope = self.granted_scopes(&c.procedure);
                match decode_envelope(&c.payload) {
                    None => Err(Error::Envelope),
                    Some(env) => match &self.authenticator {
                        None => Err(Error::NoValidatorRegistered),
                        Some(f) => {
                            let ((user, password), payload) = env;
                            let ghost args = ((user, password), scope);
                            let v = f((user, password), scope);
                            assert(call_ensures(*f, args, v));
                            match v {
                                Err(e) => Err(e),
                                Ok(_) => Ok(Call { procedure: c.procedure, payload }),
                            }
                        },
                    },
                }
            },
        }
    }
}

impl<A: Fn((String, String), Vec<String>) -> Result<(), Error>> AuthenticationBuilder<A> {
    /// Sets the (procedure pattern, scope) rules.
    pub fn scopes(self, value: Vec<(String, String)>) -> (r: AuthenticationBuilder<A>)
        ensures
            r.scopes == Some(value),
            r.authenticator == self.authenticator,
            r.auth == self.auth,
    {
        AuthenticationBuilder { scopes: Some(value), authenticator: self.authenticator, auth: self.auth }
    }

    /// Sets the authenticator that decides on incoming calls.
    pub fn authenticator(self, value: A) -> (r: AuthenticationBuilder<A>)
        ensures
            r.scopes == self.scopes,
            r.authenticator == Some(value),
            r.auth == self.auth,
    {
        AuthenticationBuilder { scopes: self.scopes, authenticator: Some(value), auth: self.auth }
    }

    /// Sets the (user, password) sent with outgoing calls.
    pub fn auth(self, value: (String, String)) -> (r: AuthenticationBuilder<A>)
        ensures
            r.scopes == self.scopes,
            r.authenticator == self.authenticator,
            r.auth == Some(value),
    {
        AuthenticationBuilder { scopes: self.scopes, authenticator: self.authenticator, auth: Some(value) }
    }

    /// The middleware with what was set.
    pub fn build(self) -> (r: Authentication<A>)
        ensures
            r.scopes == self.scopes,
            r.authenticator == self.authenticator,
            r.auth == self.auth,
    {
        Authentication { scopes: self.scopes, authenticator: self.authenticator, auth: self.auth }
    }
}

/// A call is refused by the receiving side whenever its authenticator
/// rejects every credential and scope list it could be given, though the
/// sending side wrapped the call without error.
pub proof fn lemma_rejected_by_receiver<A: Fn((String, String), Vec<String>) -> Result<(), Error>>(
    sender: Authentication<A>,
    receiver: Authentication<A>,
    call: crate::envelope::WireCall,
    out: Result<crate::envelope::WireCall, Error>,
)
    requires
        sender.auth is Some,
        receiver.authenticator matches Some(f) ==> forall|x: (String, String), y: Vec<String>, v: Result<(), Error>|
            call_ensures(f, (x, y), v) ==> v is Err,
        receiver.unwrap_call_spec(sender.wrap_call_spec(Ok(call)), out),
    ensures
        sender.wrap_call_spec(Ok(call)) is Ok,
        out is Err,
{
}

/// A call wrapped by a sending side reaches the receiving side's
/// authenticator with exactly the sender's credentials; what it accepts comes
/// out as the call that was sent, what it rejects as its own error.
pub proof fn lemma_credentials_reach_receiver<A: Fn((String, String), Vec<String>) -> Result<(), Error>>(
    sender: Authentication<A>,
    receiver: Authentication<A>,
    call: crate::envelope::WireCall,
    wrapped: crate::envelope::WireCall,
    out: Result<crate::envelope::WireCall, Error>,
)
    requires
        sender.auth is Some,
        Ok::<crate::envelope::WireCall, Error>(wrapped) == sender.wrap_call_spec(Ok(call)),
        envelope_decoded(wrapped.payload) == Some((sender.auth->Some_0.0@, sender.auth->Some_0.1@, call.payload)),
        receiver.authenticator is Some,
        receiver.unwrap_call_spec(Ok(wrapped), out),
    ensures
        exists|auth: (String, String), scopes: Vec<String>, v: Result<(), Error>| {
            &&& auth.0@ == sender.auth->Some_0.0@ && auth.1@ == sender.auth->Some_0.1@
            &&& scopes@.map_values(|s: String| s@) == receiver.scopes_for(call.procedure)
            &&& call_ensures(receiver.authenticator->Some_0, (auth, scopes), v)
            &&& out == match v {
                Err(e) => Err(e),
                Ok(_) => Ok(call),
            }
        },
{
}

} // verus!
