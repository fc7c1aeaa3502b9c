//! The HTTP transport: its configuration, the start/stop state machine, and
//! the rules that turn requests into calls and replies into responses. The
//! sockets themselves are driven by the caller of this module.
use vstd::prelude::*;

use crate::envelope::{Call, Reply};
use crate::error::Error;
use crate::interfaces::Backend;
use vstd::string::StringExecFns;

verus! {

#[verifier::external_type_specification]
#[verifier::external_body]
pub struct ExUri(hyper::Uri);

/// An IPv4 socket address to listen on: `a.b.c.d:port`.
#[derive(Debug, Clone, Copy, PartialEq, Eq, Structural)]
pub struct Address {
    pub a: u8,
    pub b: u8,
    pub c: u8,
    pub d: u8,
    pub port: u16,
}

/// Status of a successful response.
pub const OK: u16 = 200;

/// Status of every failed request.
pub const BAD_REQUEST: u16 = 400;

/// An HTTP response: status and body text.
#[derive(Debug, PartialEq, Eq)]
pub struct Response {
    pub status: u16,
    pub body: String,
}

/// Configuration and state of the HTTP transport.
pub struct Http {
    /// The target of outgoing calls; none for a server only.
    pub speak: Option<hyper::Uri>,
    /// The address that incoming calls arrive at; none for a client only.
    pub listen: Option<Address>,
    /// Whether the receiving pipeline was registered.
    pub receiver: bool,
    /// Whether the server was started and not stopped since.
    pub running: bool,
}

/// Builder of an [`Http`] transport.
pub struct HttpBuilder {
    pub speak: Option<hyper::Uri>,
    pub listen: Option<Address>,
}

/// The debug text of an error, as its derived `Debug` writes it.
pub uninterp spec fn debug_of(e: Error) -> Seq<char>;

/// Relies on `format!("{:?}", e)`: the debug text of an error, which the
/// derived `Debug` makes from the error alone.
#[verifier::external_body]
fn debug_text(e: &Error) -> (r: String)
    ensures
        r@ == debug_of(*e),
{
    format!("{:?}", e)
}

impl Http {
    /// A builder with neither role configured.
    pub fn builder() -> (r: HttpBuilder)
        ensures
            r.speak is None,
            r.listen is None,
    {
        HttpBuilder { speak: None, listen: None }
    }

    /// What `start` returns in this state.
    pub open spec fn start_result(&self) -> Result<(), Error> {
        if self.running {
            Err(Error::AlreadyStarted)
        } else if self.listen is None {
            Err(Error::NoListen)
        } else if !self.receiver {
            Err(Error::NoReceiver)
        } else {
            Ok(())
        }
    }

    /// What `stop` returns in this state.
    pub open spec fn stop_result(&self) -> Result<(), Error> {
        if self.running {
            Ok(())
        } else {
            Err(Error::NotStarted)
        }
    }

    /// Marks the server as started. Fails with `AlreadyStarted` where it
    /// runs, else with `NoListen` where no address is set, else with
    /// `NoReceiver` where no receiving pipeline was registered.
    pub fn start(&mut self) -> (r: Result<(), Error>)
        ensures
            r == old(self).start_result(),
            final(self).running == (old(self).running || r is Ok),
            final(self).speak == old(self).speak,
            final(self).listen == old(self).listen,
            final(self).receiver == old(self).receiver,
    {
        if self.running {
            return Err(Error::AlreadyStarted);
        }
        if self.listen.is_none() {
            return Err(Error::NoListen);
        }
        if !self.receiver {
            return Err(Error::NoReceiver);
        }
        self.running = true;
        Ok(())
    }

    /// Marks the server as stopped. Fails with `NotStarted` where it does not run.
    pub fn stop(&mut self) -> (r: Result<(), Error>)
        ensures
            r == old(self).stop_result(),
            !final(self).running,
            final(self).speak == old(self).speak,
            final(self).listen == old(self).listen,
            final(self).receiver == old(self).receiver,
    {
        if !self.running {
            return Err(Error::NotStarted);
        }
        self.running = false;
        Ok(())
    }

    /// Registers the receiving pipeline and starts serving where an address
    /// is set; the errors of starting that only say it cannot start yet, or
    /// runs already, are not errors of registering.
    pub fn register(&mut self) -> (r: Result<(), Error>)
        ensures
            r is Ok,
            final(self).receiver,
            final(self).running == (old(self).running || old(self).listen is Some),
            final(self).speak == old(self).speak,
            final(self).listen == old(self).listen,
    {
        self.receiver = true;
        match self.start() {
            Ok(_) => Ok(()),
            Err(Error::AlreadyStarted) | Err(Error::NoListen) | Err(Error::NoReceiver) => Ok(()),
            Err(e) => Err(e),
        }
    }

    /// The target of an outgoing call; fails with `NoSpeak` for a server only.
    pub fn target(&self) -> (r: Result<&hyper::Uri, Error>)
        ensures
            self.speak is None ==> r == Err::<&hyper::Uri, Error>(Error::NoSpeak),
            self.speak matches Some(u) ==> r == Ok::<&hyper::Uri, Error>(&u),
    {
        match &self.speak {
            None => Err(Error::NoSpeak),
            Some(u) => Ok(u),
        }
    }
}

impl HttpBuilder {
    /// Configures the client role: outgoing calls go to `value`.
    pub fn speak(self, value: hyper::Uri) -> (r: HttpBuilder)
        ensures
            r.speak == Some(value),
            r.listen == self.listen,
    {
        HttpBuilder { speak: Some(value), listen: self.listen }
    }

    /// Configures the server role: incoming calls arrive at `value`.
    pub fn listen(self, value: Address) -> (r: HttpBuilder)
        ensures
            r.speak == self.speak,
            r.listen == Some(value),
    {
        HttpBuilder { speak: self.speak, listen: Some(value) }
    }

    /// The transport, neither registered nor started.
    pub fn build(self) -> (r: Result<Http, Error>)
        ensures
            r matches Ok(h) && h.speak == self.speak && h.listen == self.listen && !h.receiver && !h.running,
    {
        Ok(Http { speak: self.speak, listen: self.listen, receiver: false, running: false })
    }
}

/// A second `start` without a `stop` between fails with `AlreadyStarted`;
/// a `stop` on a transport that does not run fails with `NotStarted`.
pub proof fn lemma_start_stop(h: Http, started: Http)
    requires
        h.start_result() is Ok,
        started == (Http { running: true, ..h }),
    ensures
        started.start_result() == Err::<(), Error>(Error::AlreadyStarted),
        !h.running && h.stop_result() == Err::<(), Error>(Error::NotStarted),
        started.stop_result() is Ok,
{
}

/// The reply that a response to an outgoing call stands for: its body where
/// the status is `200`, else `FailedRequest` with the status.
pub fn reply_of_response(status: u16, body: String) -> (r: Result<Reply<String>, Error>)
    ensures
        status == OK ==> (r matches Ok(rep) && rep.payload == body),
        status != OK ==> r == Err::<Reply<String>, Error>(Error::FailedRequest { status }),
{
    if status == OK {
        Ok(Reply { payload: body })
    } else {
        Err(Error::FailedRequest { status })
    }
}

/// The call that an incoming request stands for, or the response it gets at
/// once. `procedure` is the `Procedure` header (none where absent, an error
/// text where it is not valid text); `body` the body (an error text where it
/// is not valid UTF-8).
pub fn call_of_request(procedure: Option<Result<String, String>>, body: Result<String, String>) -> (r: Result<Call<String>, Response>)
    ensures
        procedure is None ==> (r matches Err(resp) && resp.status == BAD_REQUEST && resp.body@ == "No Procedure provided"@),
        procedure matches Some(Err(m)) ==> r == Err::<Call<String>, Response>(Response { status: BAD_REQUEST, body: m }),
        procedure matches Some(Ok(p)) ==> match body {
            Err(m) => r == Err::<Call<String>, Response>(Response { status: BAD_REQUEST, body: m }),
            Ok(b) => r == Ok::<Call<String>, Response>(Call { procedure: p, payload: b }),
        },
{
    match procedure {
        None => Err(Response { status: BAD_REQUEST, body: String::from_str("No Procedure provided") }),
        Some(Err(m)) => Err(Response { status: BAD_REQUEST, body: m }),
        Some(Ok(p)) => match body {
            Err(m) => Err(Response { status: BAD_REQUEST, body: m }),
            Ok(b) => Ok(Call { procedure: p, payload: b }),
        },
    }
}

/// The response to an incoming call: `200` with the reply's payload as it
/// is, or `400` with the debug text of the error.
pub fn response_of_reply(reply: Result<Reply<String>, Error>) -> (r: Response)
    ensures
        reply matches Ok(rep) ==> r.status == OK && r.body == rep.payload,
        reply matches Err(e) ==> r.status == BAD_REQUEST && r.body@ == debug_of(e),
{
    match reply {
        Ok(rep) => Response { status: OK, body: rep.payload },
        Err(e) => Response { status: BAD_REQUEST, body: debug_text(&e) },
    }
}

} // verus!
