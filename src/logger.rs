//! A frontend that carries log records: the client side sends each record
//! that passes its filters as a call named by its level, the server side
//! hands received records to a sink.
use vstd::prelude::*;

use crate::envelope::{Call, Reply};
use crate::error::Error;
use crate::glob::wildcard_matches;
use crate::interfaces::Frontend;
use vstd::string::StringExecFns;

verus! {

/// Severity of a log record, from the most to the least severe.
#[derive(Debug, Clone, Copy, PartialEq, Eq, Structural)]
pub enum Level {
    Error,
    Warn,
    Info,
    Debug,
    Trace,
}

/// The rank of a level: more verbose levels rank higher.
pub open spec fn rank(l: Level) -> int {
    match l {
        Level::Error => 1,
        Level::Warn => 2,
        Level::Info => 3,
        Level::Debug => 4,
        Level::Trace => 5,
    }
}

/// The procedure name under which records of a level are sent.
pub open spec fn level_name(l: Level) -> Seq<char> {
    match l {
        Level::Error => "ERROR"@,
        Level::Warn => "WARN"@,
        Level::Info => "INFO"@,
        Level::Debug => "DEBUG"@,
        Level::Trace => "TRACE"@,
    }
}

impl Level {
    /// The procedure name under which records of this level are sent.
    pub fn name(self) -> (r: String)
        ensures
            r@ == level_name(self),
    {
        match self {
            Level::Error => String::from_str("ERROR"),
            Level::Warn => String::from_str("WARN"),
            Level::Info => String::from_str("INFO"),
            Level::Debug => String::from_str("DEBUG"),
            Level::Trace => String::from_str("TRACE"),
        }
    }
}

/// Whether some pattern of `patterns` matches `target`.
pub open spec fn any_matches(patterns: Seq<String>, target: Seq<char>) -> bool {
    exists|i: int| 0 <= i < patterns.len() && crate::glob::glob_matches(#[trigger] patterns[i]@, target)
}

/// Sends log records as calls and hands received ones to a sink.
pub struct Logger<S> {
    /// The most verbose level that is sent; none sends nothing.
    pub level: Option<Level>,
    /// Receives the (level, text) of each incoming record.
    pub sink: Option<S>,
    /// Records whose target one of these patterns matches are not sent.
    pub ignore_targets: Option<Vec<String>>,
    /// Where set, only records whose target one of these patterns matches are sent.
    pub allow_targets: Option<Vec<String>>,
    /// Whether the sending pipeline was registered.
    pub caller: bool,
}

/// Builder of a [`Logger`].
pub struct LoggerBuilder<S> {
    pub level: Option<Level>,
    pub sink: Option<S>,
    pub ignore_targets: Option<Vec<String>>,
    pub allow_targets: Option<Vec<String>>,
}

/// Whether some pattern of `patterns` matches `target`.
fn matches_any(patterns: &Vec<String>, target: &str) -> (r: bool)
    ensures
        r == any_matches(patterns@, target@),
{
    let mut i: usize = 0;
    while i < patterns.len()
        invariant
            0 <= i <= patterns@.len(),
            forall|j: int| 0 <= j < i ==> !crate::glob::glob_matches(#[trigger] patterns@[j]@, target@),
        decreases patterns@.len() - i,
    {
        if wildcard_matches(patterns[i].as_str(), target) {
            return true;
        }
        i = i + 1;
    }
    false
}

/// The level named by a procedure name; fails with `LevelParse` for any other name.
pub fn level_of(procedure: &String) -> (r: Result<Level, Error>)
    ensures
        r matches Ok(l) ==> level_name(l) == procedure@,
        r is Err ==> r == Err::<Level, Error>(Error::LevelParse(*procedure))
            && forall|l: Level| level_name(l) != procedure@,
{
    proof {
        reveal_strlit("ERROR");
        reveal_strlit("WARN");
        reveal_strlit("INFO");
        reveal_strlit("DEBUG");
        reveal_strlit("TRACE");
    }
    if *procedure == String::from_str("ERROR") {
        Ok(Level::Error)
    } else if *procedure == String::from_str("WARN") {
        Ok(Level::Warn)
    } else if *procedure == String::from_str("INFO") {
        Ok(Level::Info)
    } else if *procedure == String::from_str("DEBUG") {
        Ok(Level::Debug)
    } else if *procedure == String::from_str("TRACE") {
        Ok(Level::Trace)
    } else {
        assert forall|l: Level| level_name(l) != procedure@ by {
            match l {
                Level::Error => {},
                Level::Warn => {},
                Level::Info => {},
                Level::Debug => {},
                Level::Trace => {},
            }
        }
        Err(Error::LevelParse(procedure.clone()))
    }
}

impl<S: Fn(Level, String)> Logger<S> {
    /// A builder with nothing set.
    pub fn builder() -> (r: LoggerBuilder<S>)
        ensures
            r.level is None && r.sink is None && r.ignore_targets is None && r.allow_targets is None,
    {
        LoggerBuilder { level: None, sink: None, ignore_targets: None, allow_targets: None }
    }

    /// Whether a record of `level` from `target` is sent: its level is at
    /// most as verbose as the set one, its target is not empty, no ignore
    /// pattern matches it, and an allow pattern does where such are set.
    pub open spec fn passes(&self, level: Level, target: Seq<char>) -> bool {
        &&& self.level matches Some(max) && rank(level) <= rank(max)
        &&& target.len() > 0
        &&& self.ignore_targets matches Some(v) ==> !any_matches(v@, target)
        &&& self.allow_targets matches Some(v) ==> any_matches(v@, target)
    }

    /// Whether a record of `level` from `target` is sent.
    pub fn enabled(&self, level: Level, target: &str) -> (r: bool)
        ensures
            r == self.passes(level, target@),
    {
        let max = match self.level {
            None => {
                return false;
            },
            Some(l) => l,
        };
        let verbose = match level {
            Level::Error => 1u8,
            Level::Warn => 2u8,
            Level::Info => 3u8,
            Level::Debug => 4u8,
            Level::Trace => 5u8,
        };
        let bound = match max {
            Level::Error => 1u8,
            Level::Warn => 2u8,
            Level::Info => 3u8,
            Level::Debug => 4u8,
            Level::Trace => 5u8,
        };
        if verbose > bound {
            return false;
        }
        if target.is_empty() {
            return false;
        }
        match &self.ignore_targets {
            Some(v) => {
                if matches_any(v, target) {
                    return false;
                }
            },
            None => {},
        }
        match &self.allow_targets {
            Some(v) => matches_any(v, target),
            None => true,
        }
    }
}

impl<S: Fn(Level, String)> LoggerBuilder<S> {
    /// Sets the most verbose level that is sent.
    pub fn level(self, value: Level) -> (r: LoggerBuilder<S>)
        ensures
            r.level == Some(value) && r.sink == self.sink && r.ignore_targets == self.ignore_targets
                && r.allow_targets == self.allow_targets,
    {
        LoggerBuilder { level: Some(value), sink: self.sink, ignore_targets: self.ignore_targets, allow_targets: self.allow_targets }
    }

    /// Sets the sink of received records.
    pub fn sink(self, value: S) -> (r: LoggerBuilder<S>)
        ensures
            r.level == self.level && r.sink == Some(value) && r.ignore_targets == self.ignore_targets
                && r.allow_targets == self.allow_targets,
    {
        LoggerBuilder { level: self.level, sink: Some(value), ignore_targets: self.ignore_targets, allow_targets: self.allow_targets }
    }

    /// Sets the target patterns whose records are not sent; the records of
    /// this framework itself (target `merfolk`) are never sent.
    pub fn ignore_targets(self, value: Vec<String>) -> (r: LoggerBuilder<S>)
        ensures
            r.level == self.level && r.sink == self.sink && r.allow_targets == self.allow_targets,
            r.ignore_targets matches Some(v) && v@.len() == value@.len() + 1 && v@.subrange(0, value@.len() as int) == value@
                && v@.last()@ == "merfolk"@,
    {
        let mut value = value;
        value.push(String::from_str("merfolk"));
        LoggerBuilder { level: self.level, sink: self.sink, ignore_targets: Some(value), allow_targets: self.allow_targets }
    }

    /// Sets the target patterns outside of which records are not sent.
    pub fn allow_targets(self, value: Vec<String>) -> (r: LoggerBuilder<S>)
        ensures
            r.level == self.level && r.sink == self.sink && r.ignore_targets == self.ignore_targets
                && r.allow_targets == Some(value),
    {
        LoggerBuilder { level: self.level, sink: self.sink, ignore_targets: self.ignore_targets, allow_targets: Some(value) }
    }

    /// The logger with what was set.
    pub fn build(self) -> (r: Result<Logger<S>, Error>)
        ensures
            r matches Ok(l) && l.level == self.level && l.sink == self.sink && l.ignore_targets == self.ignore_targets
                && l.allow_targets == self.allow_targets && !l.caller,
    {
        Ok(Logger { level: self.level, sink: self.sink, ignore_targets: self.ignore_targets, allow_targets: self.allow_targets, caller: false })
    }
}

impl<S: Fn(Level, String)> Frontend for Logger<S> {
    open spec fn inv(&self) -> bool {
        self.sink matches Some(s) ==> forall|l: Level, t: String| call_requires(s, (l, t))
    }

    /// Without a sink: `NoSink`; for a name that is no level: `LevelParse`;
    /// for a payload that is no JSON string: `Deserialize` with the payload;
    /// in none of these is the sink called. Else the sink is called with the
    /// level that the procedure names and the text that the payload holds,
    /// and the reply is JSON `null`.
    open spec fn answers(&self, call: Call<String>, r: Result<Reply<String>, Error>) -> bool {
        if self.sink is None {
            r == Err::<Reply<String>, Error>(Error::NoSink)
        } else if forall|l: Level| level_name(l) != call.procedure@ {
            r == Err::<Reply<String>, Error>(Error::LevelParse(call.procedure))
        } else if crate::json::json_string_value(call.payload@) is None {
            r == Err::<Reply<String>, Error>(Error::Deserialize(call.payload))
        } else {
            &&& r matches Ok(rep) && rep.payload@ == "null"@
            &&& exists|l: Level, t: String| {
                &&& level_name(l) == call.procedure@
                &&& crate::json::json_string_value(call.payload@) == Some(t@)
                &&& call_ensures(self.sink->Some_0, (l, t), ())
            }
        }
    }

    open spec fn has_caller(&self) -> bool {
        self.caller
    }

    open spec fn register_succeeds(&self) -> bool {
        true
    }

    fn register(&mut self) -> (r: Result<(), Error>) {
        self.caller = true;
        Ok(())
    }

    fn receive(&self, call: Call<String>) -> (r: Result<Reply<String>, Error>) {
        let sink = match &self.sink {
            None => {
                return Err(Error::NoSink);
            },
            Some(s) => s,
        };
        let level = match level_of(&call.procedure) {
            Err(e) => {
                return Err(e);
            },
            Ok(l) => l,
        };
        let text = match crate::json::unquote(call.payload.as_str()) {
            None => {
                return Err(Error::Deserialize(call.payload));
            },
            Some(t) => t,
        };
        let ghost record = (level, text);
        sink(level, text);
        assert(call_ensures(*sink, record, ()));
        Ok(Reply { payload: String::from_str("null") })
    }
}

} // verus!
