use fetch_bridge::fetch::{settle_build, ClientHandle, Fetch, FetchPhase, Step};
use fetch_bridge::outcome::{HostValue, IntoHost, Outcome};
use fetch_bridge::task::{FutureTask, Phase};

fn runtime() -> tokio::runtime::Runtime {
    tokio::runtime::Builder::new_multi_thread().enable_all().build().unwrap()
}

fn response_with_body(body: &str) -> reqwest::Response {
    let r = http::Response::builder().status(200).body(body.to_string()).unwrap();
    reqwest::Response::from(r)
}

fn builder_error() -> reqwest::Error {
    reqwest::Client::new().get("not a url").build().unwrap_err()
}

#[test]
fn new_task_is_pending() {
    let t = FutureTask::new(7u32);
    assert_eq!(t.phase(), Phase::Pending);
}

#[test]
fn start_hands_out_operation_once() {
    let mut t = FutureTask::new(String::from("op"));
    assert_eq!(t.start(), Some(String::from("op")));
    assert_eq!(t.phase(), Phase::Running);
    assert_eq!(t.start(), None);
    assert_eq!(t.phase(), Phase::Running);
}

#[test]
fn complete_delivers_exactly_once() {
    let mut t = FutureTask::new(());
    t.start();
    let first = t.complete(Ok::<String, String>(String::from("pong")));
    assert_eq!(first.unwrap().result(), Some(String::from("pong")));
    assert_eq!(t.phase(), Phase::Completed);
    let second = t.complete(Ok::<String, String>(String::from("again")));
    assert!(second.is_none());
    assert_eq!(t.start(), None);
}

#[test]
fn complete_before_start_delivers_nothing() {
    let mut t = FutureTask::new(1u8);
    assert!(t.complete(Err::<String, String>(String::from("early"))).is_none());
    assert_eq!(t.phase(), Phase::Pending);
    assert_eq!(t.start(), Some(1u8));
}

#[test]
fn failure_sets_only_error() {
    let o = Outcome::from_result(Err::<String, String>(String::from("connection refused")));
    assert_eq!(o.error(), Some(String::from("connection refused")));
    assert_eq!(o.result(), None);
}

#[test]
fn value_sets_only_result() {
    let o = Outcome::from_result(Ok::<String, String>(String::from("body")));
    assert_eq!(o.error(), None);
    assert_eq!(o.result(), Some(String::from("body")));
}

#[test]
fn empty_body_is_a_result() {
    let o = Outcome::from_result(Ok::<String, String>(String::new()));
    assert_eq!(o.error(), None);
    assert_eq!(o.result(), Some(String::new()));
}

#[test]
fn string_converts_to_text() {
    match String::from("abc").into_host() {
        HostValue::Text(s) => assert_eq!(s, "abc"),
    }
}

#[test]
fn transport_error_is_delivered_with_description() {
    let mut f = Fetch::new();
    match f.on_response(Some(Err(builder_error()))) {
        Step::Deliver(Err(m)) => assert!(!m.is_empty()),
        _ => panic!("expected an error delivery"),
    }
    assert_eq!(f.phase(), FetchPhase::Done);
}

#[test]
fn closed_channel_is_a_fault() {
    let mut f = Fetch::new();
    assert!(matches!(f.on_response(None), Step::Fault));
    assert_eq!(f.phase(), FetchPhase::Done);
}

#[test]
fn body_is_delivered_unchanged() {
    let rt = runtime();
    let mut f = Fetch::new();
    let resp = match f.on_response(Some(Ok(response_with_body("pong")))) {
        Step::ReadBody(resp) => resp,
        _ => panic!("expected to read the body"),
    };
    assert_eq!(f.phase(), FetchPhase::Reading);
    let text = rt.block_on(resp.text());
    match f.on_body(text) {
        Step::Deliver(r) => {
            let mut t = FutureTask::new(());
            t.start();
            let o = t.complete(r).unwrap();
            assert_eq!(o.error(), None);
            assert_eq!(o.result(), Some(String::from("pong")));
        }
        _ => panic!("expected a delivery"),
    }
    assert_eq!(f.phase(), FetchPhase::Done);
}

#[test]
fn body_failure_is_delivered_with_description() {
    let mut f = Fetch::new();
    let resp = match f.on_response(Some(Ok(response_with_body("x")))) {
        Step::ReadBody(resp) => resp,
        _ => panic!("expected to read the body"),
    };
    drop(resp);
    match f.on_body(Err(builder_error())) {
        Step::Deliver(Err(m)) => assert!(!m.is_empty()),
        _ => panic!("expected an error delivery"),
    }
}

#[test]
fn nothing_after_done() {
    let mut f = Fetch::new();
    f.on_response(Some(Err(builder_error())));
    assert!(matches!(f.on_response(Some(Ok(response_with_body("late")))), Step::Fault));
    assert!(matches!(f.on_body(Ok(String::from("late"))), Step::Fault));
    assert_eq!(f.phase(), FetchPhase::Done);
}

#[test]
fn body_before_response_is_a_fault() {
    let mut f = Fetch::new();
    assert!(matches!(f.on_body(Ok(String::from("early"))), Step::Fault));
    assert_eq!(f.phase(), FetchPhase::Waiting);
}

#[test]
fn unreachable_host_gives_one_error() {
    let rt = runtime();
    let r = rt.block_on(reqwest::get("http://127.0.0.1:1/down"));
    let mut f = Fetch::new();
    match f.on_response(Some(r)) {
        Step::Deliver(r) => {
            let mut t = FutureTask::new(());
            t.start();
            let o = t.complete(r).unwrap();
            assert!(!o.error().unwrap().is_empty());
            assert_eq!(o.result(), None);
        }
        _ => panic!("expected an error delivery"),
    }
}

#[test]
fn malformed_url_is_reported() {
    let h = ClientHandle::from_client(reqwest::Client::new());
    let r = h.prepare("not a url");
    assert!(!r.unwrap_err().is_empty());
}

#[test]
fn valid_url_builds_request() {
    let h = ClientHandle::from_client(reqwest::Client::new());
    let req = h.prepare("http://example.test/ok").unwrap();
    assert_eq!(req.url().as_str(), "http://example.test/ok");
    assert_eq!(req.method(), reqwest::Method::GET);
}

#[test]
fn reused_handle_builds_independent_requests() {
    let h = ClientHandle::from_client(reqwest::Client::new());
    let a = h.prepare("http://example.test/a").unwrap();
    let b = h.prepare("http://example.test/b").unwrap();
    assert_eq!(a.url().path(), "/a");
    assert_eq!(b.url().path(), "/b");
}

#[test]
fn settle_keeps_request() {
    let req = reqwest::Client::new().get("http://example.test/ok").build();
    assert_eq!(settle_build(req).unwrap().url().path(), "/ok");
    assert!(!settle_build(Err(builder_error())).unwrap_err().is_empty());
}

#[test]
fn many_tasks_each_deliver_their_own_result() {
    let mut tasks: Vec<FutureTask<usize>> = (0..60).map(FutureTask::new).collect();
    let mut got = Vec::new();
    for t in tasks.iter_mut().rev() {
        let i = t.start().unwrap();
        let o = t.complete(Ok::<String, String>(format!("body {}", i))).unwrap();
        got.push((i, o.result().unwrap()));
    }
    assert_eq!(got.len(), 60);
    for (i, body) in got {
        assert_eq!(body, format!("body {}", i));
    }
    for t in tasks.iter_mut() {
        assert!(t.complete(Ok::<String, String>(String::new())).is_none());
    }
}

#[test]
fn fifty_requests_each_get_their_own_body() {
    let rt = runtime();
    let mut fetches: Vec<(usize, Fetch, reqwest::Response)> = Vec::new();
    for i in 0..50 {
        let mut f = Fetch::new();
        match f.on_response(Some(Ok(response_with_body(&format!("body of /{}", i))))) {
            Step::ReadBody(resp) => fetches.push((i, f, resp)),
            _ => panic!("expected to read the body"),
        }
    }
    let mut delivered = 0;
    while let Some((i, mut f, resp)) = fetches.pop() {
        let mut t = FutureTask::new(());
        t.start();
        match f.on_body(rt.block_on(resp.text())) {
            Step::Deliver(r) => {
                let o = t.complete(r).unwrap();
                assert_eq!(o.result(), Some(format!("body of /{}", i)));
                delivered += 1;
            }
            _ => panic!("expected a delivery"),
        }
        assert!(t.complete(Ok::<String, String>(String::new())).is_none());
    }
    assert_eq!(delivered, 50);
}
