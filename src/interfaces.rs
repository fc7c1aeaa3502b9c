//! The roles that an endpoint composes.
use vstd::prelude::*;

use crate::envelope::{Call, Reply};
use crate::error::Error;

verus! {

/// Sends outgoing calls over a channel and hands incoming calls to the
/// endpoint's receiving pipeline.
pub trait Backend {
    /// The invariant of the backend's state; none is known by default.
    open spec fn inv(&self) -> bool {
        true
    }

    /// Whether the receiving pipeline was registered; unknown by default.
    open spec fn has_receiver(&self) -> bool {
        true
    }

    /// Whether `r` is a reply that sending `call` from this state may give;
    /// any reply by default.
    open spec fn delivers(&self, call: Call<String>, r: Result<Reply<String>, Error>) -> bool {
        true
    }

    /// Whether the backend keeps the start/stop protocol below: a second
    /// `start` without a `stop` between fails with `AlreadyStarted`, a `stop`
    /// of a backend that does not run fails with `NotStarted`. Not known by
    /// default.
    open spec fn keeps_lifecycle(&self) -> bool {
        false
    }

    /// Whether the backend runs: started and not stopped since.
    open spec fn running(&self) -> bool {
        false
    }

    /// Whether registering the receiving pipeline cannot fail in this state;
    /// not known by default.
    open spec fn register_succeeds(&self) -> bool {
        false
    }

    /// Starts serving incoming calls.
    fn start(&mut self) -> (r: Result<(), Error>)
        requires
            old(self).inv(),
        ensures
            final(self).inv(),
            final(self).has_receiver() == old(self).has_receiver(),
            old(self).keeps_lifecycle() ==> {
                &&& final(self).keeps_lifecycle()
                &&& old(self).running() ==> r == Err::<(), Error>(Error::AlreadyStarted)
                &&& r is Ok ==> final(self).running()
                &&& r is Err ==> final(self).running() == old(self).running()
            },
    ;

    /// Stops serving incoming calls.
    fn stop(&mut self) -> (r: Result<(), Error>)
        requires
            old(self).inv(),
        ensures
            final(self).inv(),
            final(self).has_receiver() == old(self).has_receiver(),
            old(self).keeps_lifecycle() ==> {
                &&& final(self).keeps_lifecycle()
                &&& !old(self).running() ==> r == Err::<(), Error>(Error::NotStarted)
                &&& r is Ok ==> !final(self).running()
                &&& r is Err ==> final(self).running() == old(self).running()
            },
    ;

    /// Installs the receiving pipeline, which the backend runs for every
    /// incoming call.
    fn register(&mut self) -> (r: Result<(), Error>)
        requires
            old(self).inv(),
        ensures
            final(self).inv(),
            r is Ok ==> final(self).has_receiver(),
            old(self).register_succeeds() ==> r is Ok,
            old(self).keeps_lifecycle() ==> final(self).keeps_lifecycle(),
    ;

    /// Sends an outgoing call and returns its reply.
    fn call(&mut self, call: Call<String>) -> (r: Result<Reply<String>, Error>)
        requires
            old(self).inv(),
        ensures
            final(self).inv(),
            old(self).delivers(call, r),
            old(self).keeps_lifecycle() ==> final(self).keeps_lifecycle() && final(self).running() == old(self).running(),
            final(self).has_receiver() == old(self).has_receiver(),
    ;
}

/// Dispatches incoming calls to procedures, and offers the API through which
/// outgoing calls are made.
pub trait Frontend {
    /// The invariant of the frontend's state; none is known by default.
    open spec fn inv(&self) -> bool {
        true
    }

    /// Whether `r` is a reply that this frontend gives to `call`; any reply
    /// by default.
    open spec fn answers(&self, call: Call<String>, r: Result<Reply<String>, Error>) -> bool {
        true
    }

    /// Whether the sending pipeline was registered; unknown by default.
    open spec fn has_caller(&self) -> bool {
        true
    }

    /// Whether registering the sending pipeline cannot fail in this state;
    /// not known by default.
    open spec fn register_succeeds(&self) -> bool {
        false
    }

    /// Installs the sending pipeline, through which outgoing calls go.
    fn register(&mut self) -> (r: Result<(), Error>)
        requires
            old(self).inv(),
        ensures
            final(self).inv(),
            old(self).register_succeeds() ==> r is Ok,
            r is Ok ==> final(self).has_caller(),
            forall|c: Call<String>, x: Result<Reply<String>, Error>| final(self).answers(c, x) == old(self).answers(c, x),
    ;

    /// Dispatches an incoming call.
    fn receive(&self, call: Call<String>) -> (r: Result<Reply<String>, Error>)
        requires
            self.inv(),
        ensures
            self.answers(call, r),
    ;
}

} // verus!
