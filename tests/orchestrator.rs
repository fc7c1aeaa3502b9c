use merfolk::{Backend, Call, Error, Frontend, Mer, Reply};

struct MockBackend {}

impl Backend for MockBackend {
    fn start(&mut self) -> Result<(), Error> {
        Ok(())
    }

    fn stop(&mut self) -> Result<(), Error> {
        Ok(())
    }

    fn register(&mut self) -> Result<(), Error> {
        Ok(())
    }

    fn call(&mut self, call: Call<String>) -> Result<Reply<String>, Error> {
        Ok(Reply { payload: call.payload })
    }
}

struct MockFrontend {}

impl Frontend for MockFrontend {
    fn register(&mut self) -> Result<(), Error> {
        Ok(())
    }

    fn receive(&self, call: Call<String>) -> Result<Reply<String>, Error> {
        Ok(Reply { payload: call.payload })
    }
}

impl MockFrontend {
    fn call<T>(&self, call: T) -> T {
        call
    }
}

type NoAuthenticator = fn((String, String), Vec<String>) -> Result<(), Error>;

fn setup() -> Mer<MockBackend, MockFrontend, NoAuthenticator> {
    Mer::builder().backend(MockBackend {}).frontend(MockFrontend {}).build().unwrap()
}

#[test]
fn mod_init() {
    setup();
}

#[test]
fn start() {
    setup().start().unwrap()
}

#[test]
fn stop() {
    setup().stop().unwrap()
}

#[test]
fn mod_frontend() {
    let rnd: i32 = rand::random();
    setup().frontend(|f| assert_eq!(f.call(rnd), rnd)).unwrap()
}

#[test]
fn mod_backend() {
    setup().backend(|_b| ()).unwrap();
}

#[test]
fn build_without_backend_names_the_backend() {
    let r = Mer::<MockBackend, MockFrontend, NoAuthenticator>::builder().frontend(MockFrontend {}).build();
    assert!(matches!(r, Err(Error::Init(merfolk::Side::Backend))));
}

#[test]
fn build_without_frontend_names_the_frontend() {
    let r = Mer::<MockBackend, MockFrontend, NoAuthenticator>::builder().backend(MockBackend {}).build();
    assert!(matches!(r, Err(Error::Init(merfolk::Side::Frontend))));
}

struct FailingBackend;

impl Backend for FailingBackend {
    fn start(&mut self) -> Result<(), Error> {
        Ok(())
    }

    fn stop(&mut self) -> Result<(), Error> {
        Ok(())
    }

    fn register(&mut self) -> Result<(), Error> {
        Err(Error::NoReceiver)
    }

    fn call(&mut self, _call: Call<String>) -> Result<Reply<String>, Error> {
        Err(Error::NoSpeak)
    }
}

#[test]
fn failed_registration_names_the_side() {
    let r = Mer::<FailingBackend, MockFrontend, NoAuthenticator>::builder()
        .backend(FailingBackend)
        .frontend(MockFrontend {})
        .build();
    match r {
        Err(Error::Register { side, source }) => {
            assert_eq!(side, merfolk::Side::Backend);
            assert_eq!(*source, Error::NoReceiver);
        },
        _ => panic!("expected a registration error"),
    }
}

#[test]
fn call_without_middleware_reaches_the_backend() {
    let mut mer = setup();
    let reply = mer.call(Call { procedure: "echo".to_string(), payload: "[1,2]".to_string() }).unwrap();
    assert_eq!(reply.payload, "[1,2]");
}

#[test]
fn middleware_index_out_of_range() {
    let mer = setup();
    assert!(matches!(mer.middlewares(0, merfolk::Kind::Router), Err(Error::MiddlewareIndex(0))));
}
