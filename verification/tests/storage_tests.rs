use veda_logic::storage::{get_individual, 
    reply_for_value, req_prepare, storage_plan, Client, FetchAction, FetchEvent, IndividualFetch, RequestStep,
    StorageBackend, RO_STORAGE_URL,
};

#[test]
fn plan_uses_tarantool_when_configured() {
    let p = storage_plan(Some("127.0.0.1:3309"));
    assert_eq!(p.listen_url, RO_STORAGE_URL);
    match p.backend {
        StorageBackend::Tarantool { addr, login, password } => {
            assert_eq!(addr, "127.0.0.1:3309");
            assert_eq!(login, "veda6");
            assert_eq!(password, "123456");
        },
        other => panic!("unexpected {:?}", other),
    }
}

#[test]
fn plan_falls_back_to_lmdb() {
    for url in [None, Some("")] {
        match storage_plan(url).backend {
            StorageBackend::Lmdb { path, read_only } => {
                assert_eq!(path, "./data");
                assert!(read_only);
            },
            other => panic!("unexpected {:?}", other),
        }
    }
}

#[test]
fn request_is_an_utf8_id() {
    match req_prepare("d:Пример".as_bytes()) {
        RequestStep::Lookup(id) => assert_eq!(id, "d:Пример"),
        other => panic!("unexpected {:?}", other),
    }
    match req_prepare(&[0xff, 0xfe]) {
        RequestStep::Reply(r) => assert!(r.is_empty()),
        other => panic!("unexpected {:?}", other),
    }
}

#[test]
fn missing_individual_answers_empty_list() {
    assert_eq!(reply_for_value(Vec::new()), b"[]".to_vec());
    assert_eq!(reply_for_value(vec![1, 2, 3]), vec![1, 2, 3]);
}

#[test]
fn client_starts_unconnected() {
    let mut c = Client::new();
    assert!(!c.is_ready());
    assert_eq!(c.address(), "");
    c.set_addr(RO_STORAGE_URL);
    assert_eq!(c.address(), RO_STORAGE_URL);
    c.connect(true);
    assert!(c.is_ready());
}

#[test]
fn fetch_dials_then_sends_and_receives() {
    let mut c = Client::new();
    c.set_addr(RO_STORAGE_URL);
    let (mut f, a) = get_individual(&c, "d:x");
    assert!(matches!(a, FetchAction::Dial(ref addr) if addr == RO_STORAGE_URL));
    let a = f.step(&mut c, FetchEvent::Dialed(true));
    assert!(matches!(a, FetchAction::Send(ref b) if b == b"d:x"));
    assert!(c.is_ready());
    let a = f.step(&mut c, FetchEvent::Sent(true));
    assert!(matches!(a, FetchAction::Receive));
    let a = f.step(&mut c, FetchEvent::Received(Some(vec![7, 8])));
    assert!(matches!(a, FetchAction::Done(Some(ref v)) if v == &vec![7, 8]));
    // A connected client sends at once.
    let (_, a) = get_individual(&c, "d:y");
    assert!(matches!(a, FetchAction::Send(ref b) if b == b"d:y"));
}

#[test]
fn fetch_gives_up_on_failures() {
    let mut c = Client::new();
    let (mut f, _) = get_individual(&c, "d:x");
    assert!(matches!(f.step(&mut c, FetchEvent::Dialed(false)), FetchAction::Done(None)));
    assert!(!c.is_ready());
    c.connect(true);
    let (mut f, _) = get_individual(&c, "d:x");
    assert!(matches!(f.step(&mut c, FetchEvent::Sent(false)), FetchAction::Done(None)));
}

#[test]
fn ready_client_stays_ready_when_sending_fails() {
    let mut c = Client::new();
    c.set_addr(RO_STORAGE_URL);
    c.connect(true);
    let (mut f, a) = get_individual(&c, "d:x");
    assert!(matches!(a, FetchAction::Send(_)));
    assert!(matches!(f.step(&mut c, FetchEvent::Sent(false)), FetchAction::Done(None)));
    assert!(c.is_ready());
    let (mut f, _) = get_individual(&c, "d:x");
    f.step(&mut c, FetchEvent::Sent(true));
    assert!(matches!(f.step(&mut c, FetchEvent::Received(None)), FetchAction::Done(None)));
    assert!(c.is_ready());
    assert_eq!(c.address(), RO_STORAGE_URL);
}

#[test]
fn fetch_returns_what_the_service_serves() {
    let id = "d:Пример";
    let mut c = Client::new();
    c.connect(true);
    let (mut f, a) = get_individual(&c, id);
    let request = match a {
        FetchAction::Send(b) => b,
        other => panic!("unexpected {:?}", other),
    };
    let served = match req_prepare(&request) {
        RequestStep::Lookup(looked_up) => {
            assert_eq!(looked_up, id);
            reply_for_value(Vec::new())
        },
        other => panic!("unexpected {:?}", other),
    };
    f.step(&mut c, FetchEvent::Sent(true));
    let a = f.step(&mut c, FetchEvent::Received(Some(served)));
    assert!(matches!(a, FetchAction::Done(Some(ref v)) if v == b"[]"));
}

#[test]
fn unconnected_fetch_gets_the_stored_bytes() {
    let mut c = Client::new();
    c.set_addr(RO_STORAGE_URL);
    let (mut f, a) = get_individual(&c, "d:x");
    assert!(matches!(a, FetchAction::Dial(_)));
    let request = match f.step(&mut c, FetchEvent::Dialed(true)) {
        FetchAction::Send(b) => b,
        other => panic!("unexpected {:?}", other),
    };
    let served = match req_prepare(&request) {
        RequestStep::Lookup(id) if id == "d:x" => reply_for_value(vec![9, 8, 7]),
        other => panic!("unexpected {:?}", other),
    };
    assert!(matches!(f.step(&mut c, FetchEvent::Sent(true)), FetchAction::Receive));
    let a = f.step(&mut c, FetchEvent::Received(Some(served)));
    assert!(matches!(a, FetchAction::Done(Some(ref v)) if v == &vec![9, 8, 7]));
    assert!(c.is_ready());
}
