//! A minimal, extensible remote procedure call framework.
//!
//! An endpoint ([`orchestrator::Mer`]) is composed of a [`interfaces::Backend`]
//! (transport), a [`interfaces::Frontend`] (dispatch / typed API) and an ordered
//! list of [`middleware::Middleware`]s that transform calls and replies.
pub mod envelope;
pub mod error;
pub mod router;
pub mod glob;
pub mod json;
pub mod authentication;
pub mod middleware;
pub mod interfaces;
pub mod register;
pub mod orchestrator;
pub mod http;
pub mod in_process;
pub mod helpers;
pub mod empty;
pub mod logger;
pub mod duplex;

pub use authentication::{Authentication, AuthenticationBuilder};
pub use duplex::{Duplex, DuplexBuilder};
pub use empty::Empty;
pub use envelope::{Call, Reply};
pub use error::{Error, Side};
pub use http::{Address, Http, HttpBuilder, Response};
pub use in_process::InProcess;
pub use interfaces::{Backend, Frontend};
pub use logger::{Level, Logger, LoggerBuilder};
pub use middleware::{Kind, Middleware};
pub use orchestrator::{Mer, MerBuilder};
pub use register::{Register, RegisterBuilder};
pub use router::{Router, RouterBuilder};
