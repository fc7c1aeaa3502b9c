//! The orchestrator: one backend, one frontend and a middleware chain wired
//! into an endpoint.
use vstd::prelude::*;

use crate::envelope::{Call, Reply};
use crate::error::{Error, Side};
use crate::interfaces::{Backend, Frontend};
use crate::middleware::{unwrap_incoming_call, unwrap_outgoing_reply, wrap_incoming_reply, wrap_outgoing_call, Kind, Middleware};

verus! {

/// An endpoint that acts as client, server or both.
pub struct Mer<B, F, A> {
    backend: B,
    frontend: F,
    middlewares: Vec<Middleware<A>>,
}

/// Builder of a [`Mer`].
pub struct MerBuilder<B, F, A> {
    pub backend: Option<B>,
    pub frontend: Option<F>,
    pub middlewares: Option<Vec<Middleware<A>>>,
}

impl<B: Backend, F: Frontend, A: Fn((String, String), Vec<String>) -> Result<(), Error>> MerBuilder<B, F, A> {
    /// Sets the backend.
    pub fn backend(self, value: B) -> (r: Self)
        ensures
            r.backend == Some(value),
            r.frontend == self.frontend,
            r.middlewares == self.middlewares,
    {
        MerBuilder { backend: Some(value), frontend: self.frontend, middlewares: self.middlewares }
    }

    /// Sets the frontend.
    pub fn frontend(self, value: F) -> (r: Self)
        ensures
            r.backend == self.backend,
            r.frontend == Some(value),
            r.middlewares == self.middlewares,
    {
        MerBuilder { backend: self.backend, frontend: Some(value), middlewares: self.middlewares }
    }

    /// Sets the middleware chain, in order.
    pub fn middlewares(self, value: Vec<Middleware<A>>) -> (r: Self)
        ensures
            r.backend == self.backend,
            r.frontend == self.frontend,
            r.middlewares == Some(value),
    {
        MerBuilder { backend: self.backend, frontend: self.frontend, middlewares: Some(value) }
    }

    /// Builds the endpoint: registers the receiving pipeline into the backend,
    /// then the sending pipeline into the frontend. A missing role fails with
    /// `Init`; a failed registration with `Register`, naming the side.
    pub fn build(self) -> (r: Result<Mer<B, F, A>, Error>)
        requires
            self.backend matches Some(b) ==> b.inv(),
            self.frontend matches Some(f) ==> f.inv(),
            self.middlewares matches Some(v) ==> crate::middleware::chain_wf(v@),
        ensures
            self.backend is None ==> r == Err::<Mer<B, F, A>, Error>(Error::Init(Side::Backend)),
            self.backend is Some && self.frontend is None ==> r == Err::<Mer<B, F, A>, Error>(Error::Init(Side::Frontend)),
            r matches Err(Error::Init(s)) ==> (self.backend is None && s == Side::Backend)
                || (self.backend is Some && self.frontend is None && s == Side::Frontend),
            r matches Err(e) ==> e is Init || e is Register,
            r matches Err(Error::Register { side, source }) ==> {
                &&& self.backend is Some && self.frontend is Some
                &&& side == Side::Backend ==> !self.backend->Some_0.register_succeeds()
                &&& side == Side::Frontend ==> !self.frontend->Some_0.register_succeeds()
            },
            (self.backend matches Some(b) && b.register_succeeds()) && (self.frontend matches Some(f) && f.register_succeeds())
                ==> r is Ok,
            r matches Ok(m) ==> {
                &&& m.wf()
                &&& m.backend_state().has_receiver()
                &&& m.frontend_state().has_caller()
                &&& m.chain() == (match self.middlewares {
                    Some(v) => v@,
                    None => Seq::empty(),
                })
                &&& forall|c: Call<String>, x: Result<Reply<String>, Error>|
                    m.frontend_state().answers(c, x) == self.frontend->Some_0.answers(c, x)
            },
    {
        let mut backend = match self.backend {
            None => {
                return Err(Error::Init(Side::Backend));
            },
            Some(b) => b,
        };
        let mut frontend = match self.frontend {
            None => {
                return Err(Error::Init(Side::Frontend));
            },
            Some(f) => f,
        };
        let middlewares = match self.middlewares {
            None => Vec::new(),
            Some(v) => v,
        };
        match backend.register() {
            Err(e) => {
                return Err(Error::Register { side: Side::Backend, source: Box::new(e) });
            },
            Ok(_) => {},
        }
        match frontend.register() {
            Err(e) => {
                return Err(Error::Register { side: Side::Frontend, source: Box::new(e) });
            },
            Ok(_) => {},
        }
        Ok(Mer { backend, frontend, middlewares })
    }
}

impl<B: Backend, F: Frontend, A: Fn((String, String), Vec<String>) -> Result<(), Error>> Mer<B, F, A> {
    /// A builder with no role set.
    pub fn builder() -> (r: MerBuilder<B, F, A>)
        ensures
            r.backend is None,
            r.frontend is None,
            r.middlewares is None,
    {
        MerBuilder { backend: None, frontend: None, middlewares: None }
    }

    /// Well-formedness: each role keeps its invariant and every middleware is well formed.
    pub open spec fn wf(&self) -> bool {
        self.backend_state().inv() && self.frontend_state().inv() && crate::middleware::chain_wf(self.chain())
    }

    /// The backend.
    pub closed spec fn backend_state(&self) -> B {
        self.backend
    }

    /// The frontend.
    pub closed spec fn frontend_state(&self) -> F {
        self.frontend
    }

    /// The middleware chain, in order.
    pub closed spec fn chain(&self) -> Seq<Middleware<A>> {
        self.middlewares@
    }

    /// Whether `r` is what the sending pipeline gives for `call`: the chain
    /// wraps the call; an error goes straight to the unwrapping of the reply,
    /// a wrapped call to the backend, whose reply is then unwrapped.
    pub open spec fn sends(&self, call: Call<String>, r: Result<Reply<String>, Error>) -> bool {
        match crate::middleware::outgoing_call(self.chain(), Ok(call@)) {
            Err(e) => crate::envelope::reply_result(r) == crate::middleware::outgoing_reply(self.chain(), Err(e)),
            Ok(w) => exists|c: Call<String>, b: Result<Reply<String>, Error>| {
                &&& c@ == w
                &&& self.backend_state().delivers(c, b)
                &&& crate::envelope::reply_result(r) == crate::middleware::outgoing_reply(self.chain(), crate::envelope::reply_result(b))
            },
        }
    }

    /// Whether `r` is what the receiving pipeline gives for `call`: the chain
    /// unwraps the call; an error goes straight to the wrapping of the reply,
    /// an unwrapped call to the frontend, whose reply is then wrapped.
    pub open spec fn receives(&self, call: Call<String>, r: Result<Reply<String>, Error>) -> bool {
        exists|v: Result<crate::envelope::WireCall, Error>| {
            &&& crate::middleware::incoming_call(self.chain(), Ok(call@), v)
            &&& match v {
                Err(e) => crate::envelope::reply_result(r) == crate::middleware::incoming_reply(self.chain(), Err(e)),
                Ok(u) => exists|c: Call<String>, x: Result<Reply<String>, Error>| {
                    &&& c@ == u
                    &&& self.frontend_state().answers(c, x)
                    &&& crate::envelope::reply_result(r) == crate::middleware::incoming_reply(self.chain(), crate::envelope::reply_result(x))
                },
            }
        }
    }

    /// Starts the backend.
    pub fn start(&mut self) -> (r: Result<(), Error>)
        requires
            old(self).wf(),
        ensures
            final(self).wf(),
            old(self).backend_state().keeps_lifecycle() ==> {
                &&& final(self).backend_state().keeps_lifecycle()
                &&& old(self).backend_state().running() ==> r == Err::<(), Error>(Error::AlreadyStarted)
                &&& r is Ok ==> final(self).backend_state().running()
            },
            final(self).frontend_state() == old(self).frontend_state(),
            final(self).chain() == old(self).chain(),
    {
        self.backend.start()
    }

    /// Stops the backend.
    pub fn stop(&mut self) -> (r: Result<(), Error>)
        requires
            old(self).wf(),
        ensures
            final(self).wf(),
            old(self).backend_state().keeps_lifecycle() ==> {
                &&& final(self).backend_state().keeps_lifecycle()
                &&& !old(self).backend_state().running() ==> r == Err::<(), Error>(Error::NotStarted)
                &&& r is Ok ==> !final(self).backend_state().running()
            },
            final(self).frontend_state() == old(self).frontend_state(),
            final(self).chain() == old(self).chain(),
    {
        self.backend.stop()
    }

    /// The sending pipeline: the call is wrapped by the chain, the last
    /// middleware first; where that succeeds the backend sends it; the reply,
    /// or the error, is unwrapped by the chain, the first middleware first.
    pub fn call(&mut self, call: Call<String>) -> (r: Result<Reply<String>, Error>)
        requires
            old(self).wf(),
        ensures
            final(self).wf(),
            final(self).frontend_state() == old(self).frontend_state(),
            final(self).chain() == old(self).chain(),
            old(self).sends(call, r),
            crate::middleware::outgoing_call(old(self).chain(), Ok(call@)) is Err ==> final(self).backend_state() == old(self).backend_state(),
    {
        let ghost before = self.backend;
        let wrapped = wrap_outgoing_call(&self.middlewares, call);
        match wrapped {
            Ok(c) => {
                let ghost sent = c;
                let reply = self.backend.call(c);
                let ghost answer = reply;
                let r = unwrap_outgoing_reply(&self.middlewares, reply);
                assert(before.delivers(sent, answer));
                r
            },
            Err(e) => unwrap_outgoing_reply(&self.middlewares, Err(e)),
        }
    }

    /// The receiving pipeline: the call is unwrapped by the chain, the first
    /// middleware first; where that succeeds the frontend dispatches it; the
    /// reply, or the error, is wrapped by the chain, the first middleware first.
    pub fn receive(&self, call: Call<String>) -> (r: Result<Reply<String>, Error>)
        requires
            self.wf(),
        ensures
            self.receives(call, r),
    {
        let ghost incoming = call@;
        let unwrapped = unwrap_incoming_call(&self.middlewares, call);
        let ghost v = crate::envelope::call_result(unwrapped);
        assert(crate::middleware::incoming_call(self.chain(), Ok(incoming), v));
        match unwrapped {
            Ok(c) => {
                let ghost delivered = c;
                let x = self.frontend.receive(c);
                let ghost answer = x;
                let r = wrap_incoming_reply(&self.middlewares, x);
                assert(self.frontend_state().answers(delivered, answer));
                r
            },
            Err(e) => wrap_incoming_reply(&self.middlewares, Err(e)),
        }
    }

    /// Runs `access` on the frontend and returns what it returns.
    pub fn frontend<T, R>(&mut self, access: T) -> (r: Result<R, Error>)
        where
            T: FnOnce(&mut F) -> R,
        requires
            forall|f: &mut F| call_requires(access, (f,)),
        ensures
            r is Ok,
            final(self).backend_state() == old(self).backend_state(),
            final(self).chain() == old(self).chain(),
    {
        Ok(access(&mut self.frontend))
    }

    /// The backend, for reading.
    pub fn backend_ref(&self) -> (r: &B)
        ensures
            *r == self.backend_state(),
    {
        &self.backend
    }

    /// The frontend, for reading.
    pub fn frontend_ref(&self) -> (r: &F)
        ensures
            *r == self.frontend_state(),
    {
        &self.frontend
    }

    /// The first half of the sending pipeline: the call wrapped by the chain,
    /// the last middleware first.
    pub fn prepare_call(&self, call: Call<String>) -> (r: Result<Call<String>, Error>)
        ensures
            crate::envelope::call_result(r) == crate::middleware::outgoing_call(self.chain(), Ok(call@)),
    {
        wrap_outgoing_call(&self.middlewares, call)
    }

    /// The second half of the sending pipeline: the reply, or the error,
    /// unwrapped by the chain, the first middleware first.
    pub fn finish_call(&self, reply: Result<Reply<String>, Error>) -> (r: Result<Reply<String>, Error>)
        ensures
            crate::envelope::reply_result(r) == crate::middleware::outgoing_reply(self.chain(), crate::envelope::reply_result(reply)),
    {
        unwrap_outgoing_reply(&self.middlewares, reply)
    }

    /// Runs `access` on the backend and returns what it returns.
    pub fn backend<T, R>(&mut self, access: T) -> (r: Result<R, Error>)
        where
            T: FnOnce(&mut B) -> R,
        requires
            forall|b: &mut B| call_requires(access, (b,)),
        ensures
            r is Ok,
            final(self).frontend_state() == old(self).frontend_state(),
            final(self).chain() == old(self).chain(),
    {
        Ok(access(&mut self.backend))
    }

    /// The middleware at `index`, provided it is of kind `kind`; fails with
    /// `MiddlewareIndex` past the end of the chain and with `DowncastError`
    /// for another kind.
    pub fn middlewares(&self, index: usize, kind: Kind) -> (r: Result<&Middleware<A>, Error>)
        ensures
            index >= self.chain().len() ==> r == Err::<&Middleware<A>, Error>(Error::MiddlewareIndex(index)),
            index < self.chain().len() && (kind == Kind::Router) != (self.chain()[index as int] is Router)
                ==> r == Err::<&Middleware<A>, Error>(Error::DowncastError),
            r matches Ok(m) ==> index < self.chain().len() && *m == self.chain()[index as int],
            index < self.chain().len() && (kind == Kind::Router) == (self.chain()[index as int] is Router) ==> r is Ok,
    {
        if index >= self.middlewares.len() {
            return Err(Error::MiddlewareIndex(index));
        }
        let m = &self.middlewares[index];
        if m.kind() != kind {
            return Err(Error::DowncastError);
        }
        Ok(m)
    }
}

/// An error made while the sending chain wraps a call, or returned by the
/// backend, reaches the caller as it was made: replies are unwrapped without
/// touching errors.
pub proof fn lemma_error_reaches_caller<B: Backend, F: Frontend, A: Fn((String, String), Vec<String>) -> Result<(), Error>>(
    m: Mer<B, F, A>,
    call: Call<String>,
    r: Result<Reply<String>, Error>,
    e: Error,
)
    requires
        m.sends(call, r),
        crate::middleware::outgoing_call(m.chain(), Ok(call@)) == Err::<crate::envelope::WireCall, Error>(e)
            || (crate::middleware::outgoing_call(m.chain(), Ok(call@)) is Ok
                && forall|c: Call<String>, b: Result<Reply<String>, Error>| m.backend_state().delivers(c, b) ==> b == Err::<Reply<String>, Error>(e)),
    ensures
        crate::envelope::reply_result(r) == Err::<crate::envelope::WireReply, Error>(e),
{
    crate::middleware::lemma_error_passes_through(m.chain(), e);
    match crate::middleware::outgoing_call(m.chain(), Ok(call@)) {
        Err(e1) => {},
        Ok(w) => {
            let (c, b) = choose|c: Call<String>, b: Result<Reply<String>, Error>| {
                &&& c@ == w
                &&& m.backend_state().delivers(c, b)
                &&& crate::envelope::reply_result(r) == crate::middleware::outgoing_reply(m.chain(), crate::envelope::reply_result(b))
            };
            assert(b == Err::<Reply<String>, Error>(e));
        },
    }
}

} // verus!
