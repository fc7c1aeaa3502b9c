//! A transport that hands each outgoing call straight to a peer endpoint in
//! the same process.
use vstd::prelude::*;

use crate::envelope::{Call, Reply};
use crate::error::Error;
use crate::interfaces::{Backend, Frontend};
use crate::orchestrator::Mer;

verus! {

/// Sends outgoing calls to the receiving pipeline of `peer`.
pub struct InProcess<B, F, A> {
    /// The endpoint that receives the calls; none for a server only.
    pub peer: Option<Mer<B, F, A>>,
    /// Whether the receiving pipeline was registered.
    pub receiver: bool,
    /// Whether the transport was started and not stopped since.
    pub running: bool,
}

impl<B: Backend, F: Frontend, A: Fn((String, String), Vec<String>) -> Result<(), Error>> InProcess<B, F, A> {
    /// A transport that sends to `peer`, where one is given.
    pub fn new(peer: Option<Mer<B, F, A>>) -> (r: Self)
        ensures
            r.peer == peer,
            !r.receiver,
            !r.running,
    {
        InProcess { peer, receiver: false, running: false }
    }
}

impl<B: Backend, F: Frontend, A: Fn((String, String), Vec<String>) -> Result<(), Error>> Backend for InProcess<B, F, A> {
    open spec fn inv(&self) -> bool {
        self.peer matches Some(m) ==> m.wf()
    }

    open spec fn has_receiver(&self) -> bool {
        self.receiver
    }

    open spec fn keeps_lifecycle(&self) -> bool {
        true
    }

    open spec fn running(&self) -> bool {
        self.running
    }

    open spec fn register_succeeds(&self) -> bool {
        true
    }

    /// Without a peer a call fails with `NoSpeak`; with one, the reply is
    /// what the peer's receiving pipeline gives.
    open spec fn delivers(&self, call: Call<String>, r: Result<Reply<String>, Error>) -> bool {
        match self.peer {
            None => r == Err::<Reply<String>, Error>(Error::NoSpeak),
            Some(m) => m.receives(call, r),
        }
    }

    fn start(&mut self) -> (r: Result<(), Error>) {
        if self.running {
            return Err(Error::AlreadyStarted);
        }
        if !self.receiver {
            return Err(Error::NoReceiver);
        }
        self.running = true;
        Ok(())
    }

    fn stop(&mut self) -> (r: Result<(), Error>) {
        if !self.running {
            return Err(Error::NotStarted);
        }
        self.running = false;
        Ok(())
    }

    fn register(&mut self) -> (r: Result<(), Error>) {
        self.receiver = true;
        Ok(())
    }

    fn call(&mut self, call: Call<String>) -> (r: Result<Reply<String>, Error>) {
        match &self.peer {
            None => Err(Error::NoSpeak),
            Some(m) => m.receive(call),
        }
    }
}

/// Over an in-process transport, with no middleware on either side, a call
/// to a procedure registered at the peer returns exactly what that procedure
/// returns for a call of the same name and payload.
pub proof fn lemma_round_trip<B: Backend, F: Frontend, A: Fn((String, String), Vec<String>) -> Result<(), Error>, P>(
    client: Mer<InProcess<B, crate::register::Register<P>, A>, F, A>,
    call: Call<String>,
    r: Result<Reply<String>, Error>,
    procedure: P,
)
    where
        P: Fn(Call<String>) -> Result<Reply<String>, Error>,
    requires
        client.chain().len() == 0,
        client.backend_state().peer matches Some(server) && server.chain().len() == 0
            && server.frontend_state().procedure(call.procedure@) == Some(procedure),
        client.sends(call, r),
    ensures
        exists|c: Call<String>, x: Result<Reply<String>, Error>| {
            &&& c@ == call@
            &&& call_ensures(procedure, (c,), x)
            &&& crate::envelope::reply_result(r) == crate::envelope::reply_result(x)
        },
{
    let server = client.backend_state().peer->Some_0;
    assert(crate::middleware::outgoing_call(client.chain(), Ok(call@)) == Ok::<crate::envelope::WireCall, Error>(call@));
    let (c, b) = choose|c: Call<String>, b: Result<Reply<String>, Error>| {
        &&& c@ == call@
        &&& client.backend_state().delivers(c, b)
        &&& crate::envelope::reply_result(r) == crate::middleware::outgoing_reply(client.chain(), crate::envelope::reply_result(b))
    };
    assert(server.receives(c, b));
    let v = choose|v: Result<crate::envelope::WireCall, Error>| {
        &&& crate::middleware::incoming_call(server.chain(), Ok(c@), v)
        &&& match v {
            Err(e) => crate::envelope::reply_result(b) == crate::middleware::incoming_reply(server.chain(), Err(e)),
            Ok(u) => exists|c: Call<String>, x: Result<Reply<String>, Error>| {
                &&& c@ == u
                &&& server.frontend_state().answers(c, x)
                &&& crate::envelope::reply_result(b) == crate::middleware::incoming_reply(server.chain(), crate::envelope::reply_result(x))
            },
        }
    };
    assert(v == Ok::<crate::envelope::WireCall, Error>(c@));
    let (c2, x) = choose|c2: Call<String>, x: Result<Reply<String>, Error>| {
        &&& c2@ == c@
        &&& server.frontend_state().answers(c2, x)
        &&& crate::envelope::reply_result(b) == crate::middleware::incoming_reply(server.chain(), crate::envelope::reply_result(x))
    };
    assert(c2.procedure@ == call.procedure@);
    assert(call_ensures(procedure, (c2,), x));
}

} // verus!
