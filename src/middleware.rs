//! Middlewares and the order in which an endpoint applies them.
//!
//! For a list `[M1, M2, ..., Mn]`:
//! - an outgoing call is `M1.wrap_call(M2.wrap_call(... Mn.wrap_call(call)))`,
//!   the last middleware first; its reply is unwrapped by `M1` first, then `M2`, ...;
//! - an incoming call is unwrapped by `M1` first, then `M2`, ...; its reply is
//!   wrapped by `M1` first, then `M2`, ...
use vstd::prelude::*;

use crate::authentication::{Authentication, AuthenticationBuilder};
use crate::envelope::{Call, Reply};
use crate::error::Error;
use crate::router::{Router, RouterBuilder};

verus! {

/// The kinds of middleware; names the variant of a [`Middleware`].
#[derive(Debug, Clone, Copy, PartialEq, Eq, Structural)]
pub enum Kind {
    Authentication,
    Router,
}

/// A call and reply transformation of an endpoint.
pub enum Middleware<A> {
    Authentication(Authentication<A>),
    Router(Router),
}

/// What `m` does to an outgoing call.
pub open spec fn wrap_call_step<A: Fn((String, String), Vec<String>) -> Result<(), Error>>(m: Middleware<A>, call: Result<crate::envelope::WireCall, Error>) -> Result<crate::envelope::WireCall, Error> {
    match m {
        Middleware::Authentication(a) => a.wrap_call_spec(call),
        Middleware::Router(_) => call,
    }
}

/// Whether `m` may turn the incoming call `call` into `out`.
pub open spec fn unwrap_call_step<A: Fn((String, String), Vec<String>) -> Result<(), Error>>(m: Middleware<A>, call: Result<crate::envelope::WireCall, Error>, out: Result<crate::envelope::WireCall, Error>) -> bool {
    match m {
        Middleware::Authentication(a) => a.unwrap_call_spec(call, out),
        Middleware::Router(r) => out == crate::router::route_call(r.rules(), call),
    }
}

/// Well-formedness of a middleware.
pub open spec fn middleware_wf<A: Fn((String, String), Vec<String>) -> Result<(), Error>>(m: Middleware<A>) -> bool {
    match m {
        Middleware::Authentication(a) => a.wf(),
        Middleware::Router(_) => true,
    }
}

/// Well-formedness of every middleware of a chain.
pub open spec fn chain_wf<A: Fn((String, String), Vec<String>) -> Result<(), Error>>(ms: Seq<Middleware<A>>) -> bool {
    forall|i: int| 0 <= i < ms.len() ==> middleware_wf(#[trigger] ms[i])
}

/// What `m` does to an outgoing reply.
pub open spec fn wrap_reply_step<A: Fn((String, String), Vec<String>) -> Result<(), Error>>(m: Middleware<A>, reply: Result<crate::envelope::WireReply, Error>) -> Result<crate::envelope::WireReply, Error> {
    reply
}

/// What `m` does to an incoming reply.
pub open spec fn unwrap_reply_step<A: Fn((String, String), Vec<String>) -> Result<(), Error>>(m: Middleware<A>, reply: Result<crate::envelope::WireReply, Error>) -> Result<crate::envelope::WireReply, Error> {
    reply
}

/// The outgoing call after the chain `ms`: the last middleware wraps first.
pub open spec fn outgoing_call<A: Fn((String, String), Vec<String>) -> Result<(), Error>>(ms: Seq<Middleware<A>>, call: Result<crate::envelope::WireCall, Error>) -> Result<crate::envelope::WireCall, Error>
    decreases ms.len(),
{
    if ms.len() == 0 {
        call
    } else {
        wrap_call_step(ms[0], outgoing_call(ms.drop_first(), call))
    }
}

/// The incoming reply after the chain `ms`: the first middleware unwraps first.
pub open spec fn outgoing_reply<A: Fn((String, String), Vec<String>) -> Result<(), Error>>(ms: Seq<Middleware<A>>, reply: Result<crate::envelope::WireReply, Error>) -> Result<crate::envelope::WireReply, Error>
    decreases ms.len(),
{
    if ms.len() == 0 {
        reply
    } else {
        outgoing_reply(ms.drop_first(), unwrap_reply_step(ms[0], reply))
    }
}

/// Whether the chain `ms` may turn the incoming call `call` into `out`: the
/// first middleware unwraps first.
pub open spec fn incoming_call<A: Fn((String, String), Vec<String>) -> Result<(), Error>>(ms: Seq<Middleware<A>>, call: Result<crate::envelope::WireCall, Error>, out: Result<crate::envelope::WireCall, Error>) -> bool
    decreases ms.len(),
{
    if ms.len() == 0 {
        out == call
    } else {
        exists|mid: Result<crate::envelope::WireCall, Error>| #[trigger] unwrap_call_step(ms[0], call, mid) && incoming_call(ms.drop_first(), mid, out)
    }
}

/// The outgoing reply after the chain `ms`: the first middleware wraps first.
pub open spec fn incoming_reply<A: Fn((String, String), Vec<String>) -> Result<(), Error>>(ms: Seq<Middleware<A>>, reply: Result<crate::envelope::WireReply, Error>) -> Result<crate::envelope::WireReply, Error>
    decreases ms.len(),
{
    if ms.len() == 0 {
        reply
    } else {
        incoming_reply(ms.drop_first(), wrap_reply_step(ms[0], reply))
    }
}

impl<A: Fn((String, String), Vec<String>) -> Result<(), Error>> Middleware<A> {
    /// The kind of this middleware.
    pub fn kind(&self) -> (r: Kind)
        ensures
            (r == Kind::Router) <==> (*self is Router),
            (r == Kind::Authentication) <==> (*self is Authentication),
    {
        match self {
            Middleware::Authentication(_) => Kind::Authentication,
            Middleware::Router(_) => Kind::Router,
        }
    }

    /// Wraps an outgoing call.
    pub fn wrap_call(&self, call: Result<Call<String>, Error>) -> (r: Result<Call<String>, Error>)
        ensures
            crate::envelope::call_result(r) == wrap_call_step(*self, crate::envelope::call_result(call)),
    {
        match self {
            Middleware::Authentication(a) => a.wrap_call(call),
            Middleware::Router(m) => m.wrap_call(call),
        }
    }

    /// Wraps an outgoing reply.
    pub fn wrap_reply(&self, reply: Result<Reply<String>, Error>) -> (r: Result<Reply<String>, Error>)
        ensures
            crate::envelope::reply_result(r) == wrap_reply_step(*self, crate::envelope::reply_result(reply)),
    {
        match self {
            Middleware::Authentication(a) => a.wrap_reply(reply),
            Middleware::Router(m) => m.wrap_reply(reply),
        }
    }

    /// Unwraps an incoming call.
    pub fn unwrap_call(&self, call: Result<Call<String>, Error>) -> (r: Result<Call<String>, Error>)
        requires
            middleware_wf(*self),
        ensures
            unwrap_call_step(*self, crate::envelope::call_result(call), crate::envelope::call_result(r)),
    {
        match self {
            Middleware::Authentication(a) => a.unwrap_call(call),
            Middleware::Router(m) => m.unwrap_call(call),
        }
    }

    /// Unwraps an incoming reply.
    pub fn unwrap_reply(&self, reply: Result<Reply<String>, Error>) -> (r: Result<Reply<String>, Error>)
        ensures
            crate::envelope::reply_result(r) == unwrap_reply_step(*self, crate::envelope::reply_result(reply)),
    {
        match self {
            Middleware::Authentication(a) => a.unwrap_reply(reply),
            Middleware::Router(m) => m.unwrap_reply(reply),
        }
    }
}

/// Applies the outgoing-call chain: `ms[0].wrap_call(ms[1].wrap_call(... call))`.
pub fn wrap_outgoing_call<A: Fn((String, String), Vec<String>) -> Result<(), Error>>(ms: &Vec<Middleware<A>>, call: Call<String>) -> (r: Result<Call<String>, Error>)
    ensures
        crate::envelope::call_result(r) == outgoing_call(ms@, Ok(call@)),
{
    let mut acc: Result<Call<String>, Error> = Ok(call);
    let ghost start = crate::envelope::call_result(acc);
    let mut i: usize = ms.len();
    while i > 0
        invariant
            0 <= i <= ms@.len(),
            crate::envelope::call_result(acc) == outgoing_call(ms@.subrange(i as int, ms@.len() as int), start),
            start == Ok::<crate::envelope::WireCall, Error>(call@),
        decreases i,
    {
        i = i - 1;
        acc = ms[i].wrap_call(acc);
        assert(ms@.subrange(i as int, ms@.len() as int).drop_first() =~= ms@.subrange(i + 1, ms@.len() as int));
    }
    assert(ms@.subrange(0, ms@.len() as int) =~= ms@);
    acc
}

/// Applies the incoming-reply chain: `ms[0]` unwraps first.
pub fn unwrap_outgoing_reply<A: Fn((String, String), Vec<String>) -> Result<(), Error>>(ms: &Vec<Middleware<A>>, reply: Result<Reply<String>, Error>) -> (r: Result<Reply<String>, Error>)
    ensures
        crate::envelope::reply_result(r) == outgoing_reply(ms@, crate::envelope::reply_result(reply)),
{
    let mut acc = reply;
    let mut i: usize = 0;
    assert(ms@.subrange(0, ms@.len() as int) =~= ms@);
    while i < ms.len()
        invariant
            0 <= i <= ms@.len(),
            outgoing_reply(ms@, crate::envelope::reply_result(reply)) == outgoing_reply(ms@.subrange(i as int, ms@.len() as int), crate::envelope::reply_result(acc)),
        decreases ms@.len() - i,
    {
        assert(ms@.subrange(i as int, ms@.len() as int).drop_first() =~= ms@.subrange(i + 1, ms@.len() as int));
        acc = ms[i].unwrap_reply(acc);
        i = i + 1;
    }
    acc
}

/// Applies the incoming-call chain: `ms[0]` unwraps first.
pub fn unwrap_incoming_call<A: Fn((String, String), Vec<String>) -> Result<(), Error>>(ms: &Vec<Middleware<A>>, call: Call<String>) -> (r: Result<Call<String>, Error>)
    requires
        chain_wf(ms@),
    ensures
        incoming_call(ms@, Ok(call@), crate::envelope::call_result(r)),
{
    let mut acc: Result<Call<String>, Error> = Ok(call);
    let ghost start = crate::envelope::call_result(acc);
    let mut i: usize = 0;
    assert(ms@.subrange(0, ms@.len() as int) =~= ms@);
    while i < ms.len()
        invariant
            0 <= i <= ms@.len(),
            chain_wf(ms@),
            start == Ok::<crate::envelope::WireCall, Error>(call@),
            forall|o: Result<crate::envelope::WireCall, Error>|
                incoming_call(ms@.subrange(i as int, ms@.len() as int), crate::envelope::call_result(acc), o) ==> incoming_call(ms@, start, o),
        decreases ms@.len() - i,
    {
        let ghost before = crate::envelope::call_result(acc);
        assert(middleware_wf(ms@[i as int]));
        acc = ms[i].unwrap_call(acc);
        proof {
            let rest = ms@.subrange(i as int, ms@.len() as int);
            assert(rest.drop_first() =~= ms@.subrange(i + 1, ms@.len() as int));
            assert(rest[0] == ms@[i as int]);
            assert forall|o: Result<crate::envelope::WireCall, Error>|
                incoming_call(ms@.subrange(i + 1, ms@.len() as int), crate::envelope::call_result(acc), o) implies incoming_call(ms@, start, o) by {
                assert(unwrap_call_step(rest[0], before, crate::envelope::call_result(acc)));
                assert(incoming_call(rest, before, o));
            }
        }
        i = i + 1;
    }
    assert(incoming_call(ms@.subrange(ms@.len() as int, ms@.len() as int), crate::envelope::call_result(acc), crate::envelope::call_result(acc)));
    acc
}

/// Applies the outgoing-reply chain: `ms[0]` wraps first.
pub fn wrap_incoming_reply<A: Fn((String, String), Vec<String>) -> Result<(), Error>>(ms: &Vec<Middleware<A>>, reply: Result<Reply<String>, Error>) -> (r: Result<Reply<String>, Error>)
    ensures
        crate::envelope::reply_result(r) == incoming_reply(ms@, crate::envelope::reply_result(reply)),
{
    let mut acc = reply;
    let mut i: usize = 0;
    assert(ms@.subrange(0, ms@.len() as int) =~= ms@);
    while i < ms.len()
        invariant
            0 <= i <= ms@.len(),
            incoming_reply(ms@, crate::envelope::reply_result(reply)) == incoming_reply(ms@.subrange(i as int, ms@.len() as int), crate::envelope::reply_result(acc)),
        decreases ms@.len() - i,
    {
        assert(ms@.subrange(i as int, ms@.len() as int).drop_first() =~= ms@.subrange(i + 1, ms@.len() as int));
        acc = ms[i].wrap_reply(acc);
        i = i + 1;
    }
    acc
}

/// Order of a chain of two: the outgoing call is `m1.wrap_call(m2.wrap_call(call))`;
/// its reply is unwrapped by `m1`, then by `m2`; an incoming call is unwrapped
/// by `m1`, then by `m2`; its reply is wrapped by `m1`, then by `m2`.
pub proof fn lemma_chain_order<A: Fn((String, String), Vec<String>) -> Result<(), Error>>(
    m1: Middleware<A>,
    m2: Middleware<A>,
    call: Result<crate::envelope::WireCall, Error>,
    reply: Result<crate::envelope::WireReply, Error>,
)
    ensures
        outgoing_call(seq![m1, m2], call) == wrap_call_step(m1, wrap_call_step(m2, call)),
        outgoing_reply(seq![m1, m2], reply) == unwrap_reply_step(m2, unwrap_reply_step(m1, reply)),
        forall|out: Result<crate::envelope::WireCall, Error>| incoming_call(seq![m1, m2], call, out) <==>
            exists|mid: Result<crate::envelope::WireCall, Error>| unwrap_call_step(m1, call, mid) && unwrap_call_step(m2, mid, out),
        incoming_reply(seq![m1, m2], reply) == wrap_reply_step(m2, wrap_reply_step(m1, reply)),
{
    let ms = seq![m1, m2];
    assert(ms.drop_first() =~= seq![m2]);
    assert(seq![m2].drop_first() =~= Seq::<Middleware<A>>::empty());
    assert(seq![m2][0] == m2);
    assert(outgoing_call(Seq::<Middleware<A>>::empty(), call) == call);
    assert(outgoing_reply(Seq::<Middleware<A>>::empty(), unwrap_reply_step(m2, unwrap_reply_step(m1, reply))) == unwrap_reply_step(m2, unwrap_reply_step(m1, reply)));
    assert(incoming_reply(Seq::<Middleware<A>>::empty(), wrap_reply_step(m2, wrap_reply_step(m1, reply))) == wrap_reply_step(m2, wrap_reply_step(m1, reply)));
    assert(outgoing_call(seq![m2], call) == wrap_call_step(m2, call));
    assert(outgoing_reply(seq![m2], unwrap_reply_step(m1, reply)) == unwrap_reply_step(m2, unwrap_reply_step(m1, reply)));
    assert forall|out: Result<crate::envelope::WireCall, Error>| incoming_call(seq![m1, m2], call, out) <==>
        exists|mid: Result<crate::envelope::WireCall, Error>| unwrap_call_step(m1, call, mid) && unwrap_call_step(m2, mid, out) by {
        assert forall|mid: Result<crate::envelope::WireCall, Error>| incoming_call(seq![m2], mid, out) <==> unwrap_call_step(m2, mid, out) by {
            assert(seq![m2][0] == m2);
            assert(seq![m2].drop_first() =~= Seq::<Middleware<A>>::empty());
            if unwrap_call_step(m2, mid, out) {
                assert(incoming_call(Seq::<Middleware<A>>::empty(), out, out));
            }
            if incoming_call(seq![m2], mid, out) {
                let mid2 = choose|mid2: Result<crate::envelope::WireCall, Error>| #[trigger] unwrap_call_step(seq![m2][0], mid, mid2)
                    && incoming_call(seq![m2].drop_first(), mid2, out);
                assert(incoming_call(Seq::<Middleware<A>>::empty(), mid2, out));
                assert(mid2 == out);
            }
        }
        assert(seq![m1, m2][0] == m1);
    }
    assert(incoming_reply(seq![m2], wrap_reply_step(m1, reply)) == wrap_reply_step(m2, wrap_reply_step(m1, reply)));
}

/// An error reaches the end of every chain unchanged: each middleware hands
/// an error it is given back as it is, in every direction.
pub proof fn lemma_error_passes_through<A: Fn((String, String), Vec<String>) -> Result<(), Error>>(ms: Seq<Middleware<A>>, e: Error)
    ensures
        outgoing_call(ms, Err(e)) == Err::<crate::envelope::WireCall, Error>(e),
        outgoing_reply(ms, Err(e)) == Err::<crate::envelope::WireReply, Error>(e),
        forall|out: Result<crate::envelope::WireCall, Error>| incoming_call(ms, Err(e), out) ==> out == Err::<crate::envelope::WireCall, Error>(e),
        incoming_reply(ms, Err(e)) == Err::<crate::envelope::WireReply, Error>(e),
    decreases ms.len(),
{
    if ms.len() > 0 {
        lemma_error_passes_through(ms.drop_first(), e);
        assert forall|out: Result<crate::envelope::WireCall, Error>| incoming_call(ms, Err(e), out) implies out == Err::<crate::envelope::WireCall, Error>(e) by {
            let mid = choose|mid: Result<crate::envelope::WireCall, Error>| #[trigger] unwrap_call_step(ms[0], Err(e), mid)
                && incoming_call(ms.drop_first(), mid, out);
            assert(mid == Err::<crate::envelope::WireCall, Error>(e));
        }
    }
}

impl RouterBuilder {
    /// The router, as a middleware of a chain.
    pub fn build_boxed<A: Fn((String, String), Vec<String>) -> Result<(), Error>>(self) -> (r: Result<Middleware<A>, Error>)
        ensures
            r matches Ok(Middleware::Router(m)) && m.routes == self.routes,
    {
        Ok(Middleware::Router(self.build()))
    }
}

impl<A: Fn((String, String), Vec<String>) -> Result<(), Error>> AuthenticationBuilder<A> {
    /// The authentication, as a middleware of a chain.
    pub fn build_boxed(self) -> (r: Result<Middleware<A>, Error>)
        ensures
            r matches Ok(Middleware::Authentication(m)) && m.scopes == self.scopes && m.auth == self.auth
                && m.authenticator == self.authenticator,
    {
        Ok(Middleware::Authentication(self.build()))
    }
}

} // verus!
