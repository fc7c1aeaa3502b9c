use merfolk::logger::level_of;
use merfolk::{Call, Error, Frontend, Level, Logger};

type Sink = fn(Level, String);

fn ignore(_l: Level, _t: String) {}

#[test]
fn filters_by_level_and_targets() {
    let l: Logger<Sink> = Logger::builder()
        .level(Level::Info)
        .ignore_targets(vec!["noisy*".to_string()])
        .allow_targets(vec!["app*".to_string(), "merfolk".to_string()])
        .build()
        .unwrap();
    assert!(l.enabled(Level::Warn, "app::db"));
    assert!(l.enabled(Level::Info, "app"));
    assert!(!l.enabled(Level::Debug, "app"));
    assert!(!l.enabled(Level::Error, ""));
    assert!(!l.enabled(Level::Error, "noisy_app"));
    assert!(!l.enabled(Level::Error, "other"));
    assert!(!l.enabled(Level::Error, "merfolk"));
    let none: Logger<Sink> = Logger::builder().build().unwrap();
    assert!(!none.enabled(Level::Error, "app"));
}

#[test]
fn levels_are_named_by_procedures() {
    assert_eq!(level_of(&"WARN".to_string()), Ok(Level::Warn));
    assert_eq!(level_of(&"TRACE".to_string()), Ok(Level::Trace));
    assert_eq!(level_of(&"warn".to_string()), Err(Error::LevelParse("warn".to_string())));
}

#[test]
fn receive_hands_records_to_the_sink() {
    let l: Logger<Sink> = Logger::builder().sink(ignore as Sink).build().unwrap();
    let r = l.receive(Call { procedure: "INFO".to_string(), payload: "\"hello\"".to_string() }).unwrap();
    assert_eq!(r.payload, "null");
    let r = l.receive(Call { procedure: "LOUD".to_string(), payload: "\"hello\"".to_string() });
    assert_eq!(r.unwrap_err(), Error::LevelParse("LOUD".to_string()));
    let r = l.receive(Call { procedure: "INFO".to_string(), payload: "hello".to_string() });
    assert!(matches!(r, Err(Error::Deserialize(_))));
    let no_sink: Logger<Sink> = Logger::builder().build().unwrap();
    let r = no_sink.receive(Call { procedure: "INFO".to_string(), payload: "\"hello\"".to_string() });
    assert_eq!(r.unwrap_err(), Error::NoSink);
}

#[test]
fn the_sink_gets_the_decoded_text() {
    let store: std::sync::Arc<std::sync::Mutex<Vec<(Level, String)>>> = std::sync::Arc::new(std::sync::Mutex::new(Vec::new()));
    let seen = store.clone();
    let l = Logger::builder().sink(move |level: Level, text: String| seen.lock().unwrap().push((level, text))).build().unwrap();
    l.receive(Call { procedure: "ERROR".to_string(), payload: "\"disk \\\"full\\\"\"".to_string() }).unwrap();
    assert_eq!(*store.lock().unwrap(), vec![(Level::Error, "disk \"full\"".to_string())]);
}

#[test]
fn ignore_targets_always_leaves_out_the_framework() {
    let l: Logger<Sink> = Logger::builder().level(Level::Trace).ignore_targets(vec!["db".to_string()]).build().unwrap();
    assert_eq!(l.ignore_targets, Some(vec!["db".to_string(), "merfolk".to_string()]));
    assert!(!l.enabled(Level::Info, "db"));
    assert!(!l.enabled(Level::Info, "merfolk"));
    assert!(l.enabled(Level::Trace, "app"));
}

#[test]
fn levels_name_their_procedures() {
    assert_eq!(Level::Error.name(), "ERROR");
    assert_eq!(Level::Debug.name(), "DEBUG");
    assert_eq!(level_of(&Level::Info.name()), Ok(Level::Info));
}
