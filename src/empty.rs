//! A backend without a channel: calls come back as they were sent.
use vstd::prelude::*;

use crate::envelope::{Call, Reply};
use crate::error::Error;
use crate::interfaces::Backend;

verus! {

/// A backend that echoes each outgoing call's payload as its reply, and only
/// keeps whether it runs.
pub struct Empty {
    pub started: bool,
    pub receiver: bool,
}

impl Empty {
    /// A backend neither started nor registered.
    pub fn new() -> (r: Empty)
        ensures
            !r.started,
            !r.receiver,
    {
        Empty { started: false, receiver: false }
    }

    /// Incoming calls never arrive on this backend: nothing happens.
    pub fn trigger(self) {
    }
}

impl Backend for Empty {
    open spec fn inv(&self) -> bool {
        true
    }

    open spec fn has_receiver(&self) -> bool {
        self.receiver
    }

    open spec fn keeps_lifecycle(&self) -> bool {
        true
    }

    open spec fn running(&self) -> bool {
        self.started
    }

    open spec fn register_succeeds(&self) -> bool {
        true
    }

    /// The reply carries the call's payload.
    open spec fn delivers(&self, call: Call<String>, r: Result<Reply<String>, Error>) -> bool {
        r matches Ok(rep) && rep.payload == call.payload
    }

    fn start(&mut self) -> (r: Result<(), Error>) {
        if self.started {
            return Err(Error::AlreadyStarted);
        }
        self.started = true;
        Ok(())
    }

    fn stop(&mut self) -> (r: Result<(), Error>) {
        if !self.started {
            return Err(Error::NotStarted);
        }
        self.started = false;
        Ok(())
    }

    fn register(&mut self) -> (r: Result<(), Error>) {
        self.receiver = true;
        Ok(())
    }

    fn call(&mut self, call: Call<String>) -> (r: Result<Reply<String>, Error>) {
        Ok(Reply { payload: call.payload })
    }
}

} // verus!
