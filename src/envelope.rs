//! The message envelope exchanged between the roles of an endpoint.
use vstd::prelude::*;

use crate::error::Error;

verus! {

/// An outgoing or incoming remote procedure call.
#[derive(Debug)]
pub struct Call<T> {
    pub procedure: String,
    pub payload: T,
}

/// The reply to a [`Call`].
#[derive(Debug)]
pub struct Reply<T> {
    pub payload: T,
}

/// Mathematical model of a [`Call`].
pub ghost struct CallView<P> {
    pub procedure: Seq<char>,
    pub payload: P,
}

/// Mathematical model of a [`Reply`].
pub ghost struct ReplyView<P> {
    pub payload: P,
}

impl<T: View> View for Call<T> {
    type V = CallView<T::V>;

    open spec fn view(&self) -> CallView<T::V> {
        CallView { procedure: self.procedure@, payload: self.payload@ }
    }
}

impl<T: View> View for Reply<T> {
    type V = ReplyView<T::V>;

    open spec fn view(&self) -> ReplyView<T::V> {
        ReplyView { payload: self.payload@ }
    }
}

/// The wire form of a call: procedure name and payload text.
pub type WireCall = CallView<Seq<char>>;

/// The wire form of a reply: payload text.
pub type WireReply = ReplyView<Seq<char>>;

/// Model of a fallible call: the view of an `Ok`, the error unchanged.
pub open spec fn call_result(r: Result<Call<String>, Error>) -> Result<WireCall, Error> {
    match r {
        Ok(c) => Ok(c@),
        Err(e) => Err(e),
    }
}

/// Model of a fallible reply: the view of an `Ok`, the error unchanged.
pub open spec fn reply_result(r: Result<Reply<String>, Error>) -> Result<WireReply, Error> {
    match r {
        Ok(c) => Ok(c@),
        Err(e) => Err(e),
    }
}

} // verus!
