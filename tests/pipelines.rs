use merfolk::{Authentication, Call, Empty, Error, InProcess, Kind, Mer, Middleware, Register, Reply, Router};

type Procedure = fn(Call<String>) -> Result<Reply<String>, Error>;

fn add(a: i32, b: i32) -> i32 {
    a + b
}

fn add_procedure(call: Call<String>) -> Result<Reply<String>, Error> {
    let (a, b): (i32, i32) = serde_json::from_str(&call.payload).map_err(|e| Error::Deserialize(e.to_string()))?;
    Ok(Reply { payload: serde_json::to_string(&add(a, b)).unwrap() })
}

fn not_allowed_procedure(call: Call<String>) -> Result<Reply<String>, Error> {
    let () = serde_json::from_str(&call.payload).map_err(|e| Error::Deserialize(e.to_string()))?;
    Ok(Reply { payload: serde_json::to_string(&()).unwrap() })
}

type Credentials = Box<dyn Fn((String, String), Vec<String>) -> Result<(), Error>>;

/// Accepts exactly one (user, password) pair, and only with the `calc` scope.
fn credentials(auth: &(String, String)) -> Credentials {
    let auth_cloned = auth.clone();
    Box::new(move |a: (String, String), s: Vec<String>| {
        if a.0 == auth_cloned.0 && a.1 == auth_cloned.1 && s.contains(&"calc".to_string()) {
            Ok(())
        } else {
            Err(Error::AuthenticationFailed(format!("{:?}, {:?} != {:?}, {:?}", a, s, auth_cloned, vec!["calc"])))
        }
    })
}

type Server = Mer<Empty, Register<Procedure>, Credentials>;
type Client = Mer<InProcess<Empty, Register<Procedure>, Credentials>, Register<Procedure>, Credentials>;

fn receiver(names: &[&str], middlewares: Vec<Middleware<Credentials>>) -> Server {
    let mut register: Register<Procedure> = Register::builder().build().unwrap();
    for name in names {
        register.register(name, add_procedure as Procedure).unwrap();
    }
    Mer::builder().backend(Empty::new()).frontend(register).middlewares(middlewares).build().unwrap()
}

fn caller(server: Server, middlewares: Vec<Middleware<Credentials>>) -> Client {
    let register: Register<Procedure> = Register::builder().build().unwrap();
    Mer::builder().backend(InProcess::new(Some(server))).frontend(register).middlewares(middlewares).build().unwrap()
}

fn call_add(client: &mut Client, procedure: &str, a: i32, b: i32) -> Result<i32, Error> {
    let reply = client.call(Call { procedure: procedure.to_string(), payload: serde_json::to_string(&(a, b)).unwrap() })?;
    Ok(serde_json::from_str(&reply.payload).unwrap())
}

fn random_auth() -> (String, String) {
    (rand::random::<i32>().to_string(), rand::random::<i32>().to_string())
}

#[test]
fn tests_register_in_process() {
    let register_receiver: Register<Procedure> = Register::builder()
        .procedures(vec![("add".to_string(), add_procedure as Procedure)])
        .build()
        .unwrap();
    let server = Mer::builder().backend(Empty::new()).frontend(register_receiver).build().unwrap();
    let mut client: Client = caller(server, vec![]);
    let (a, b) = (rand::random::<i32>() / 2, rand::random::<i32>() / 2);
    let result = call_add(&mut client, "add", a, b).unwrap();
    assert_eq!(result, a + b);
}

#[test]
fn in_process_round_trip_of_add() {
    let mut client = caller(receiver(&["add"], vec![]), vec![]);
    assert_eq!(call_add(&mut client, "add", 3, 4).unwrap(), 7);
}

#[test]
fn unregistered_procedure_is_reported() {
    let register: Register<Procedure> = Register::builder().build().unwrap();
    let r = merfolk::Frontend::receive(&register, Call { procedure: "sub".to_string(), payload: "[1,2]".to_string() });
    assert_eq!(r.unwrap_err(), Error::ProcedureNotRegistered("sub".to_string()));
    let mut client = caller(receiver(&["add"], vec![]), vec![]);
    assert_eq!(call_add(&mut client, "sub", 1, 2).unwrap_err(), Error::ProcedureNotRegistered("sub".to_string()));
}

#[test]
fn re_registering_replaces_the_procedure() {
    let mut register: Register<Procedure> = Register::builder().build().unwrap();
    register.register("p", not_allowed_procedure as Procedure).unwrap();
    register.register("p", add_procedure as Procedure).unwrap();
    let r = merfolk::Frontend::receive(&register, Call { procedure: "p".to_string(), payload: "[2,5]".to_string() });
    assert_eq!(r.unwrap().payload, "7");
}

#[test]
fn authentication_register_in_process() {
    let auth = random_auth();
    let server = receiver(
        &["add"],
        vec![Authentication::builder()
            .scopes(vec![("add".to_string(), "calc".to_string())])
            .authenticator(credentials(&auth))
            .build_boxed()
            .unwrap()],
    );
    let mut client = caller(server, vec![Authentication::builder().auth(auth).build_boxed().unwrap()]);
    let (a, b) = (rand::random::<i32>() / 2, rand::random::<i32>() / 2);
    assert_eq!(call_add(&mut client, "add", a, b).unwrap(), a + b);
}

#[test]
#[should_panic]
fn authentication_register_in_process_failing() {
    let auth = random_auth();
    let mut register: Register<Procedure> = Register::builder().build().unwrap();
    register.register("not_allowed", not_allowed_procedure as Procedure).unwrap();
    let server: Server = Mer::builder()
        .backend(Empty::new())
        .frontend(register)
        .middlewares(vec![Authentication::builder()
            .scopes(vec![("add".to_string(), "calc".to_string())])
            .authenticator(credentials(&auth))
            .build_boxed()
            .unwrap()])
        .build()
        .unwrap();
    let mut client = caller(server, vec![Authentication::builder().auth(auth).build_boxed().unwrap()]);
    client.call(Call { procedure: "not_allowed".to_string(), payload: serde_json::to_string(&()).unwrap() }).unwrap();
}

#[test]
fn router_authentication_register_in_process() {
    let auth = random_auth();
    let server = receiver(
        &["add"],
        vec![
            Router::builder().routes(vec![("math_(.*)".to_string(), "$1".to_string())]).build_boxed().unwrap(),
            Authentication::builder()
                .scopes(vec![("add".to_string(), "calc".to_string())])
                .authenticator(credentials(&auth))
                .build_boxed()
                .unwrap(),
        ],
    );
    let mut client = caller(server, vec![Authentication::builder().auth(auth).build_boxed().unwrap()]);
    let (a, b) = (rand::random::<i32>() / 2, rand::random::<i32>() / 2);
    let result_add = call_add(&mut client, "add", a, b).unwrap();
    let result_math_add = call_add(&mut client, "math_add", a, b).unwrap();
    assert_eq!(result_add, a + b);
    assert_eq!(result_math_add, a + b);
}

#[test]
fn router_rewrites_math_add_to_add() {
    let router = Router::builder().routes(vec![("math_(.*)".to_string(), "$1".to_string())]).build();
    let c = router.unwrap_call(Ok(Call { procedure: "math_add".to_string(), payload: "[3,4]".to_string() })).unwrap();
    assert_eq!(c.procedure, "add");
    assert_eq!(c.payload, "[3,4]");
    let mut client = caller(receiver(&["add"], vec![Middleware::Router(router)]), vec![]);
    assert_eq!(call_add(&mut client, "math_add", 3, 4).unwrap(), 7);
}

#[test]
fn router_keeps_unmatched_names_and_reports_bad_patterns() {
    let router = Router::builder().routes(vec![("math_(.*)".to_string(), "$1".to_string())]).build();
    let c = router.unwrap_call(Ok(Call { procedure: "add".to_string(), payload: "x".to_string() })).unwrap();
    assert_eq!(c.procedure, "add");
    let bad = Router::builder().routes(vec![("nomatch".to_string(), "x".to_string()), ("(".to_string(), "x".to_string())]).build();
    let r = bad.unwrap_call(Ok(Call { procedure: "add".to_string(), payload: "x".to_string() }));
    assert_eq!(r.unwrap_err(), Error::RegexParse(1));
}

#[test]
fn missing_credentials_are_rejected_by_the_receiver() {
    let auth = random_auth();
    let server = receiver(
        &["add"],
        vec![Authentication::builder()
            .scopes(vec![("add".to_string(), "calc".to_string())])
            .authenticator(credentials(&auth))
            .build_boxed()
            .unwrap()],
    );
    // the caller wraps with wrong credentials: its own wrap succeeds
    let mut client = caller(server, vec![Authentication::builder().auth(("intruder".to_string(), "guess".to_string())).build_boxed().unwrap()]);
    assert!(matches!(call_add(&mut client, "add", 1, 2), Err(Error::AuthenticationFailed(_))));
    // without any wrapping the payload carries no credentials at all
    let server = receiver(
        &["add"],
        vec![Authentication::builder()
            .authenticator(credentials(&auth))
            .build_boxed()
            .unwrap()],
    );
    let mut client = caller(server, vec![]);
    assert_eq!(call_add(&mut client, "add", 1, 2).unwrap_err(), Error::Envelope);
}

#[test]
fn scope_missing_is_rejected() {
    let auth = random_auth();
    let server = receiver(
        &["sub"],
        vec![Authentication::builder()
            .scopes(vec![("add".to_string(), "calc".to_string())])
            .authenticator(credentials(&auth))
            .build_boxed()
            .unwrap()],
    );
    let mut client = caller(server, vec![Authentication::builder().auth(auth).build_boxed().unwrap()]);
    assert!(matches!(call_add(&mut client, "sub", 1, 2), Err(Error::AuthenticationFailed(_))));
}

#[test]
fn granted_scopes_follow_wildcards() {
    let a: Authentication<Credentials> = Authentication::builder()
        .scopes(vec![
            ("math_*".to_string(), "calc".to_string()),
            ("?dd".to_string(), "short".to_string()),
            ("log".to_string(), "audit".to_string()),
        ])
        .build();
    assert_eq!(a.granted_scopes(&"add".to_string()), vec!["short".to_string()]);
    assert_eq!(a.granted_scopes(&"math_add".to_string()), vec!["calc".to_string()]);
    assert!(a.granted_scopes(&"logs".to_string()).is_empty());
}

#[test]
fn wrap_call_without_credentials_fails() {
    let a: Authentication<Credentials> = Authentication::builder().build();
    let r = a.wrap_call(Ok(Call { procedure: "add".to_string(), payload: "[1,2]".to_string() }));
    assert_eq!(r.unwrap_err(), Error::NoAuth);
    // an error handed in passes unchanged
    assert_eq!(a.wrap_call(Err(Error::NoSpeak)).unwrap_err(), Error::NoSpeak);
}

#[test]
fn wrap_call_puts_credentials_around_the_payload() {
    let a: Authentication<Credentials> = Authentication::builder().auth(("u".to_string(), "p".to_string())).build();
    let c = a.wrap_call(Ok(Call { procedure: "add".to_string(), payload: "[1,2]".to_string() })).unwrap();
    assert_eq!(c.procedure, "add");
    assert_eq!(c.payload, r#"{"auth":["u","p"],"payload":"[1,2]"}"#);
}

/// A middleware that tags payloads, to observe the order of the chain.
fn tagging(tag: &str) -> Middleware<Credentials> {
    Authentication::builder().auth((tag.to_string(), String::new())).build_boxed().unwrap()
}

#[test]
fn outgoing_chain_wraps_last_middleware_first() {
    let ms = vec![tagging("m1"), tagging("m2")];
    let c = merfolk::middleware::wrap_outgoing_call(&ms, Call { procedure: "p".to_string(), payload: "x".to_string() }).unwrap();
    assert_eq!(c.payload, r#"{"auth":["m1",""],"payload":"{\"auth\":[\"m2\",\"\"],\"payload\":\"x\"}"}"#);
}

#[test]
fn incoming_chain_unwraps_first_middleware_first() {
    let ms: Vec<Middleware<Credentials>> = vec![
        Router::builder().routes(vec![("a".to_string(), "b".to_string())]).build_boxed().unwrap(),
        Router::builder().routes(vec![("b".to_string(), "c".to_string())]).build_boxed().unwrap(),
    ];
    let c = merfolk::middleware::unwrap_incoming_call(&ms, Call { procedure: "a".to_string(), payload: "x".to_string() }).unwrap();
    assert_eq!(c.procedure, "c");
}

#[test]
fn errors_pass_the_chains_unchanged() {
    let ms: Vec<Middleware<Credentials>> = vec![
        tagging("m1"),
        Router::builder().routes(vec![("(".to_string(), "x".to_string())]).build_boxed().unwrap(),
    ];
    let e = || Error::Procedure("boom".to_string());
    assert_eq!(merfolk::middleware::unwrap_outgoing_reply(&ms, Err(e())).unwrap_err(), e());
    assert_eq!(merfolk::middleware::wrap_incoming_reply(&ms, Err(e())).unwrap_err(), e());
    assert_eq!(ms[0].wrap_call(Err(e())).unwrap_err(), e());
    assert_eq!(ms[1].unwrap_call(Err(e())).unwrap_err(), e());
    // an error made inside the chain reaches the end as it was made
    let bad: Vec<Middleware<Credentials>> = vec![Router::builder().routes(vec![("(".to_string(), "x".to_string())]).build_boxed().unwrap()];
    let c = merfolk::middleware::unwrap_incoming_call(&bad, Call { procedure: "p".to_string(), payload: "x".to_string() });
    assert_eq!(c.unwrap_err(), Error::RegexParse(0));
}

#[test]
fn middleware_access_checks_index_and_kind() {
    let server = receiver(&["add"], vec![Router::builder().build_boxed().unwrap()]);
    assert!(server.middlewares(0, Kind::Router).is_ok());
    assert_eq!(server.middlewares(0, Kind::Authentication).err(), Some(Error::DowncastError));
    assert_eq!(server.middlewares(1, Kind::Router).err(), Some(Error::MiddlewareIndex(1)));
}

#[test]
fn result_as_bool_tells_ok() {
    assert!(merfolk::helpers::result_as_bool::<i32>(Ok(1)));
    assert!(!merfolk::helpers::result_as_bool::<i32>(Err(Error::Lock)));
    merfolk::helpers::is_send::<Error>();
    merfolk::helpers::is_sync::<Error>();
    merfolk::helpers::is_sized::<Error>();
}

fn sub_procedure(call: Call<String>) -> Result<Reply<String>, Error> {
    let (a, b): (i32, i32) = serde_json::from_str(&call.payload).map_err(|e| Error::Deserialize(e.to_string()))?;
    Ok(Reply { payload: serde_json::to_string(&(a - b)).unwrap() })
}

#[test]
fn duplex_receives_through_its_receiving_part() {
    let mut calling: Register<Procedure> = Register::builder().build().unwrap();
    calling.register("add", add_procedure as Procedure).unwrap();
    let mut receiving: Register<Procedure> = Register::builder().build().unwrap();
    receiving.register("sub", sub_procedure as Procedure).unwrap();
    let duplex = merfolk::Duplex::builder().caller(calling).receiver(receiving).build().unwrap();
    let server: Mer<Empty, merfolk::Duplex<Register<Procedure>, Register<Procedure>>, Credentials> =
        Mer::builder().backend(Empty::new()).frontend(duplex).build().unwrap();
    let r = server.receive(Call { procedure: "sub".to_string(), payload: "[5,3]".to_string() }).unwrap();
    assert_eq!(r.payload, "2");
    let r = server.receive(Call { procedure: "add".to_string(), payload: "[5,3]".to_string() });
    assert_eq!(r.unwrap_err(), Error::ProcedureNotRegistered("add".to_string()));
}

#[test]
fn duplex_needs_both_parts() {
    let calling: Register<Procedure> = Register::builder().build().unwrap();
    let r = merfolk::Duplex::<Register<Procedure>, Register<Procedure>>::builder().caller(calling).build();
    assert_eq!(r.err(), Some(Error::Init(merfolk::Side::Frontend)));
}

#[test]
fn empty_backend_echoes_payloads() {
    let mut b = Empty::new();
    assert!(!b.started);
    assert_eq!(merfolk::Backend::stop(&mut b), Err(Error::NotStarted));
    merfolk::Backend::start(&mut b).unwrap();
    assert!(b.started);
    assert_eq!(merfolk::Backend::start(&mut b), Err(Error::AlreadyStarted));
    let r = merfolk::Backend::call(&mut b, Call { procedure: "p".to_string(), payload: "[1]".to_string() }).unwrap();
    assert_eq!(r.payload, "[1]");
    merfolk::Backend::stop(&mut b).unwrap();
    assert!(!b.started);
    b.trigger();
}

#[test]
fn in_process_without_peer_has_no_target() {
    let mut b: InProcess<Empty, Register<Procedure>, Credentials> = InProcess::new(None);
    let r = merfolk::Backend::call(&mut b, Call { procedure: "p".to_string(), payload: "[1]".to_string() });
    assert_eq!(r.unwrap_err(), Error::NoSpeak);
    assert_eq!(merfolk::Backend::start(&mut b), Err(Error::NoReceiver));
    merfolk::Backend::register(&mut b).unwrap();
    merfolk::Backend::start(&mut b).unwrap();
    assert_eq!(merfolk::Backend::start(&mut b), Err(Error::AlreadyStarted));
}

#[test]
fn in_process_start_stop_start() {
    let mut b: InProcess<Empty, Register<Procedure>, Credentials> = InProcess::new(None);
    merfolk::Backend::register(&mut b).unwrap();
    assert_eq!(merfolk::Backend::stop(&mut b), Err(Error::NotStarted));
    merfolk::Backend::start(&mut b).unwrap();
    merfolk::Backend::stop(&mut b).unwrap();
    merfolk::Backend::start(&mut b).unwrap();
}

#[test]
fn caller_is_ready_once_wired() {
    let register: Register<Procedure> = Register::builder().build().unwrap();
    assert_eq!(register.caller_ready(), Err(Error::CallNotRegistered));
    let client = caller(receiver(&["add"], vec![]), vec![]);
    assert_eq!(client.frontend_ref().caller_ready(), Ok(()));
}

#[test]
fn prepared_and_finished_calls_follow_the_chain() {
    let client = caller(receiver(&["add"], vec![]), vec![tagging("u")]);
    let c = client.prepare_call(Call { procedure: "p".to_string(), payload: "x".to_string() }).unwrap();
    assert_eq!(c.payload, r#"{"auth":["u",""],"payload":"x"}"#);
    assert_eq!(client.finish_call(Err(Error::NoSpeak)).unwrap_err(), Error::NoSpeak);
}

#[test]
fn unwrap_reads_the_credential_object() {
    let auth = ("u\"1".to_string(), "p\\w".to_string());
    let a: Authentication<Credentials> = Authentication::builder()
        .scopes(vec![("*".to_string(), "calc".to_string())])
        .authenticator(credentials(&auth))
        .build();
    let text = r#"{"auth":["u\"1","p\\w"],"payload":"[1,\"two\"]"}"#;
    let c = a.unwrap_call(Ok(Call { procedure: "add".to_string(), payload: text.to_string() })).unwrap();
    assert_eq!(c.payload, "[1,\"two\"]");
    let bad = a.unwrap_call(Ok(Call { procedure: "add".to_string(), payload: r#"{"auth":["u","p"]}"#.to_string() }));
    assert_eq!(bad.unwrap_err(), Error::Envelope);
}
