//! Errors of every role of an endpoint.
use vstd::prelude::*;

verus! {

/// Which role of an endpoint an error concerns.
#[derive(Debug, Clone, Copy, PartialEq, Eq, Structural)]
pub enum Side {
    Backend,
    Frontend,
}

/// Errors raised by the orchestrator, the transports, the frontends and the middlewares.
#[derive(Debug, PartialEq, Eq)]
pub enum Error {
    /// A shared role could not be accessed.
    Lock,
    /// Registering the pipeline into one role failed.
    Register { side: Side, source: Box<Error> },
    /// A role was not supplied before building.
    Init(Side),
    /// No middleware stands at this position.
    MiddlewareIndex(usize),
    /// The middleware at a position is of another kind.
    DowncastError,
    /// The transport has no target to speak to.
    NoSpeak,
    /// The transport has no address to listen on.
    NoListen,
    /// No receiver was registered with the transport.
    NoReceiver,
    /// The transport was already started.
    AlreadyStarted,
    /// The transport was not started.
    NotStarted,
    /// The stop signal could not be delivered.
    Shutdown,
    /// The peer answered with a status other than success.
    FailedRequest { status: u16 },
    /// Sending or receiving over the transport failed.
    Transport(String),
    /// A value could not be encoded.
    Serialize(String),
    /// A payload could not be decoded.
    Deserialize(String),
    /// No procedure of this name is registered.
    ProcedureNotRegistered(String),
    /// No caller was wired into the frontend.
    CallNotRegistered,
    /// The calling side holds no credentials.
    NoAuth,
    /// The receiving side holds no authenticator.
    NoValidatorRegistered,
    /// The authenticator refused the credentials.
    AuthenticationFailed(String),
    /// The routing pattern at this position is not a valid regular expression.
    RegexParse(usize),
    /// The credential envelope of a call could not be encoded or decoded.
    Envelope,
    /// The logging frontend holds no sink.
    NoSink,
    /// A procedure name that is no log level.
    LevelParse(String),
    /// A procedure reported its own failure.
    Procedure(String),
}

} // verus!
