//! A frontend made of two: one through which outgoing calls are made, one
//! that dispatches incoming calls.
use vstd::prelude::*;

use crate::envelope::{Call, Reply};
use crate::error::{Error, Side};
use crate::interfaces::Frontend;

verus! {

/// Makes outgoing calls through `caller` and dispatches incoming ones to `receiver`.
pub struct Duplex<FC, FR> {
    pub caller: FC,
    pub receiver: FR,
}

/// Builder of a [`Duplex`].
pub struct DuplexBuilder<FC, FR> {
    pub caller: Option<FC>,
    pub receiver: Option<FR>,
}

impl<FC: Frontend, FR: Frontend> Duplex<FC, FR> {
    /// A builder with neither part set.
    pub fn builder() -> (r: DuplexBuilder<FC, FR>)
        ensures
            r.caller is None,
            r.receiver is None,
    {
        DuplexBuilder { caller: None, receiver: None }
    }
}

impl<FC: Frontend, FR: Frontend> DuplexBuilder<FC, FR> {
    /// Sets the frontend of outgoing calls.
    pub fn caller(self, value: FC) -> (r: DuplexBuilder<FC, FR>)
        ensures
            r.caller == Some(value),
            r.receiver == self.receiver,
    {
        DuplexBuilder { caller: Some(value), receiver: self.receiver }
    }

    /// Sets the frontend of incoming calls.
    pub fn receiver(self, value: FR) -> (r: DuplexBuilder<FC, FR>)
        ensures
            r.caller == self.caller,
            r.receiver == Some(value),
    {
        DuplexBuilder { caller: self.caller, receiver: Some(value) }
    }

    /// The frontend; fails with `Init` where a part is missing.
    pub fn build(self) -> (r: Result<Duplex<FC, FR>, Error>)
        ensures
            (self.caller is None || self.receiver is None) <==> r == Err::<Duplex<FC, FR>, Error>(Error::Init(Side::Frontend)),
            r matches Ok(d) ==> self.caller == Some(d.caller) && self.receiver == Some(d.receiver),
    {
        match (self.caller, self.receiver) {
            (Some(caller), Some(receiver)) => Ok(Duplex { caller, receiver }),
            _ => Err(Error::Init(Side::Frontend)),
        }
    }
}

impl<FC: Frontend, FR: Frontend> Frontend for Duplex<FC, FR> {
    open spec fn inv(&self) -> bool {
        self.caller.inv() && self.receiver.inv()
    }

    /// Incoming calls are answered by the receiving part.
    open spec fn answers(&self, call: Call<String>, r: Result<Reply<String>, Error>) -> bool {
        self.receiver.answers(call, r)
    }

    /// The sending pipeline is registered with the calling part.
    open spec fn has_caller(&self) -> bool {
        self.caller.has_caller()
    }

    /// Registering succeeds where it does for the calling part.
    open spec fn register_succeeds(&self) -> bool {
        self.caller.register_succeeds()
    }

    fn register(&mut self) -> (r: Result<(), Error>) {
        self.caller.register()
    }

    fn receive(&self, call: Call<String>) -> (r: Result<Reply<String>, Error>) {
        self.receiver.receive(call)
    }
}

} // verus!
