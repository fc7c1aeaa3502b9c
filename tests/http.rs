use merfolk::http::{call_of_request, reply_of_response, response_of_reply, BAD_REQUEST, OK};
use merfolk::{Address, Call, Error, Http, Reply};

fn server() -> Http {
    Http::builder().listen(Address { a: 127, b: 0, c: 0, d: 1, port: 8080 }).build().unwrap()
}

#[test]
fn start_twice_fails_with_already_started() {
    let mut h = server();
    h.register().unwrap();
    assert!(h.running);
    assert_eq!(h.start(), Err(Error::AlreadyStarted));
    h.stop().unwrap();
    h.start().unwrap();
    assert_eq!(h.start(), Err(Error::AlreadyStarted));
}

#[test]
fn stop_without_start_fails_with_not_started() {
    let mut h = server();
    assert_eq!(h.stop(), Err(Error::NotStarted));
    h.register().unwrap();
    h.stop().unwrap();
    assert_eq!(h.stop(), Err(Error::NotStarted));
}

#[test]
fn start_needs_an_address_and_a_receiver() {
    let mut client = Http::builder().speak("http://127.0.0.1:8080".parse().unwrap()).build().unwrap();
    assert_eq!(client.start(), Err(Error::NoListen));
    client.register().unwrap();
    assert!(!client.running);
    let mut h = server();
    assert_eq!(h.start(), Err(Error::NoReceiver));
    assert_eq!(server().target().err(), Some(Error::NoSpeak));
}

#[test]
fn request_without_procedure_header_is_bad() {
    let r = call_of_request(None, Ok("[1,2]".to_string()));
    assert_eq!(r.unwrap_err(), merfolk::Response { status: 400, body: "No Procedure provided".to_string() });
}

#[test]
fn request_with_invalid_header_or_body_is_bad() {
    let r = call_of_request(Some(Err("invalid header".to_string())), Ok("x".to_string()));
    assert_eq!(r.unwrap_err(), merfolk::Response { status: BAD_REQUEST, body: "invalid header".to_string() });
    let r = call_of_request(Some(Ok("add".to_string())), Err("invalid utf-8".to_string()));
    assert_eq!(r.unwrap_err(), merfolk::Response { status: BAD_REQUEST, body: "invalid utf-8".to_string() });
    let c = call_of_request(Some(Ok("add".to_string())), Ok("[1,2]".to_string())).unwrap();
    assert_eq!((c.procedure.as_str(), c.payload.as_str()), ("add", "[1,2]"));
}

#[test]
fn error_replies_become_400_with_debug_text() {
    let r = response_of_reply(Err(Error::ProcedureNotRegistered("sub".to_string())));
    assert_eq!(r.status, 400);
    assert_eq!(r.body, format!("{:?}", Error::ProcedureNotRegistered("sub".to_string())));
    let r = response_of_reply(Ok(Reply { payload: "7".to_string() }));
    assert_eq!((r.status, r.body.as_str()), (200, "7"));
}

#[test]
fn responses_become_replies() {
    assert_eq!(reply_of_response(OK, "7".to_string()).unwrap().payload, "7");
    assert_eq!(reply_of_response(500, "x".to_string()).unwrap_err(), Error::FailedRequest { status: 500 });
}

/// The path of an HTTP call without the sockets: request to call, call
/// through the receiving endpoint, reply to response, response to reply.
#[test]
fn add_over_the_request_rules() {
    type Procedure = fn(Call<String>) -> Result<Reply<String>, Error>;
    fn add(call: Call<String>) -> Result<Reply<String>, Error> {
        let (a, b): (i32, i32) = serde_json::from_str(&call.payload).map_err(|e| Error::Deserialize(e.to_string()))?;
        Ok(Reply { payload: serde_json::to_string(&(a + b)).unwrap() })
    }
    let mut register: merfolk::Register<Procedure> = merfolk::Register::builder().build().unwrap();
    register.register("add", add as Procedure).unwrap();
    type Deny = fn((String, String), Vec<String>) -> Result<(), Error>;
    let endpoint: merfolk::Mer<merfolk::Empty, merfolk::Register<Procedure>, Deny> =
        merfolk::Mer::builder().backend(merfolk::Empty::new()).frontend(register).build().unwrap();
    let call = call_of_request(Some(Ok("add".to_string())), Ok(serde_json::to_string(&(3, 4)).unwrap())).unwrap();
    let response = response_of_reply(endpoint.receive(call));
    let reply = reply_of_response(response.status, response.body).unwrap();
    assert_eq!(serde_json::from_str::<i32>(&reply.payload).unwrap(), 7);
}
