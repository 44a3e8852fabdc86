use robinhood::device::DeviceToken;
use robinhood::error::{RefreshTokenErr, RobinhoodErr, TransportError};
use robinhood::login::{NewToken, Robinhood};
use robinhood::req::{set_req_headers, Header, HttpRequest, ReqKind, ReqStep, RobinhoodReq};
use robinhood::{token_login, USER_AGENT};
use serde_json::Value;

const URL: &str = "https://api.robinhood.com/quotes/SPY/";

const SUCCESS: &str = r#"{
    "access_token": "a-1",
    "expires_in": 740067,
    "token_type": "Bearer",
    "scope": "internal",
    "refresh_token": "r-1"
}"#;

fn json(text: &str) -> Value {
    serde_json::from_str(text).unwrap()
}

fn header(name: &str, value: &str) -> Header {
    Header { name: name.to_owned(), value: value.to_owned() }
}

fn session() -> Robinhood {
    token_login("a-0".to_owned(), "r-0".to_owned(), DeviceToken { value: 7 })
}

fn get() -> RobinhoodReq<'static> {
    RobinhoodReq { kind: ReqKind::Get, url: URL, payload: None }
}

fn failure(status: Option<u16>, connect: bool, timeout: bool) -> TransportError {
    TransportError {
        status,
        url: Some(URL.to_owned()),
        connect,
        timeout,
        message: "transport".to_owned(),
    }
}

fn status_failure(status: u16, message: &str) -> RobinhoodErr {
    RobinhoodErr::RequestError(TransportError {
        status: Some(status),
        url: Some(URL.to_owned()),
        connect: false,
        timeout: false,
        message: message.to_owned(),
    })
}

/// What one dispatch did, driven by outcomes and refresh replies that were
/// written down beforehand.
struct Record {
    sends: usize,
    refreshes: usize,
    waits: Vec<u64>,
    end: Result<usize, RobinhoodErr>,
}

fn run(
    session: &mut Robinhood,
    request: &RobinhoodReq<'_>,
    outcomes: Vec<Result<u16, TransportError>>,
    refresh_replies: Vec<Result<Value, TransportError>>,
) -> Record {
    let mut outcomes = outcomes.into_iter();
    let mut refresh_replies = refresh_replies.into_iter();
    let mut record = Record { sends: 0, refreshes: 0, waits: Vec::new(), end: Ok(0) };
    loop {
        let prepared = session.req(request);
        assert_eq!(prepared.url, request.url);
        let outcome = outcomes.next().expect("one more send than outcomes");
        record.sends += 1;
        match session.send_req(request, outcome) {
            ReqStep::Deliver => {
                record.end = Ok(record.sends);
                return record;
            }
            ReqStep::Refresh => {
                record.refreshes += 1;
                let asked = session.reauthorize_request();
                assert_eq!(asked.payload.unwrap()["refresh_token"], session.get_refresh_token());
                let reply = refresh_replies.next().expect("one more refresh than replies");
                if let Err(error) = session.reauthorize(reply) {
                    record.end = Err(error);
                    return record;
                }
            }
            ReqStep::Backoff(millis) => record.waits.push(millis),
            ReqStep::Fail(error) => {
                record.end = Err(error);
                return record;
            }
        }
    }
}

#[test]
fn headers_of_a_requestor() {
    let session = session();
    let bare = HttpRequest::new(ReqKind::Get, URL, None);
    assert_eq!(bare.headers, Vec::<Header>::new());
    let decorated = set_req_headers(&session, bare);
    assert_eq!(decorated.kind, ReqKind::Get);
    assert_eq!(decorated.url, URL);
    assert_eq!(decorated.payload, None);
    assert_eq!(
        decorated.headers,
        vec![header("User-Agent", USER_AGENT), header("Authorization", "Bearer a-0")]
    );
    let twice = set_req_headers(&session, decorated);
    assert_eq!(twice.headers.len(), 4);
    assert_eq!(twice.headers[0], twice.headers[2]);
    assert_eq!(twice.headers[1], twice.headers[3]);
}

#[test]
fn headers_keep_those_already_set() {
    let mut request = HttpRequest::new(ReqKind::Post, URL, Some(json("{}")));
    request.headers.push(header("Accept", "application/json"));
    let decorated = set_req_headers(&session(), request);
    assert_eq!(
        decorated.headers,
        vec![
            header("Accept", "application/json"),
            header("User-Agent", USER_AGENT),
            header("Authorization", "Bearer a-0"),
        ]
    );
    assert_eq!(decorated.payload, Some(json("{}")));
}

#[test]
fn req_follows_the_session() {
    let mut session = session();
    let payload = json(r#"{"symbol": "SPY"}"#);
    let post = RobinhoodReq { kind: ReqKind::Post, url: URL, payload: Some(&payload) };
    let prepared = session.req(&post);
    assert_eq!(prepared.kind, ReqKind::Post);
    assert_eq!(prepared.url, URL);
    assert_eq!(prepared.payload, Some(payload.clone()));
    assert_eq!(
        prepared.headers,
        vec![header("User-Agent", USER_AGENT), header("Authorization", "Bearer a-0")]
    );
    session.set_token("a-5".to_owned());
    session.change_agent("probe/1.0".to_owned());
    let prepared = session.req(&post);
    assert_eq!(
        prepared.headers,
        vec![header("User-Agent", "probe/1.0"), header("Authorization", "Bearer a-5")]
    );
    let bare = session.req(&RobinhoodReq { kind: ReqKind::Post, url: URL, payload: None });
    assert_eq!(bare.payload, None);
}

#[test]
fn req_drops_the_payload_of_a_get() {
    let payload = json(r#"{"symbol": "SPY"}"#);
    let get = RobinhoodReq { kind: ReqKind::Get, url: URL, payload: Some(&payload) };
    let prepared = session().req(&get);
    assert_eq!(prepared.kind, ReqKind::Get);
    assert_eq!(prepared.payload, None);
}

#[test]
fn responses_without_an_error_status_are_delivered() {
    let session = session();
    for status in [100u16, 200, 201, 204, 301, 304, 399, 600, 999, 0] {
        assert_eq!(session.send_req(&get(), Ok(status)), ReqStep::Deliver, "status {}", status);
    }
}

#[test]
fn unauthorized_asks_for_a_refresh() {
    let mut session = session();
    assert_eq!(session.send_req(&get(), Ok(401)), ReqStep::Refresh);
    assert_eq!(session.send_req(&get(), Err(failure(Some(401), false, false))), ReqStep::Refresh);
    assert_eq!(session.send_req(&get(), Err(failure(Some(401), true, true))), ReqStep::Refresh);
    session.set_retry(true, 10);
    assert_eq!(session.send_req(&get(), Ok(401)), ReqStep::Refresh);
    session.set_auto_refresh(false);
    assert_eq!(session.send_req(&get(), Ok(401)), ReqStep::Fail(RobinhoodErr::Unauthorized));
    assert_eq!(
        session.send_req(&get(), Err(failure(Some(401), false, false))),
        ReqStep::Fail(RobinhoodErr::Unauthorized)
    );
}

#[test]
fn not_found_fails_at_once() {
    let mut session = session();
    let missing = ReqStep::Fail(RobinhoodErr::NotFound(URL.to_owned()));
    assert_eq!(session.send_req(&get(), Ok(404)), missing);
    session.set_retry(true, 10);
    assert_eq!(session.send_req(&get(), Ok(404)), missing);
    assert_eq!(session.send_req(&get(), Err(failure(Some(404), false, true))), missing);
    session.set_auto_refresh(false);
    assert_eq!(session.send_req(&get(), Ok(404)), missing);

    let record = run(&mut session, &get(), vec![Ok(404)], vec![]);
    assert_eq!(record.sends, 1);
    assert_eq!(record.refreshes, 0);
    assert_eq!(record.waits, Vec::<u64>::new());
    assert_eq!(record.end, Err(RobinhoodErr::NotFound(URL.to_owned())));
    assert_eq!(session.get_token(), "a-0");
}

#[test]
fn failures_that_may_pass_without_retry() {
    let session = session();
    assert_eq!(
        session.send_req(&get(), Ok(500)),
        ReqStep::Fail(status_failure(500, "HTTP status server error"))
    );
    assert_eq!(
        session.send_req(&get(), Ok(599)),
        ReqStep::Fail(status_failure(599, "HTTP status server error"))
    );
    assert_eq!(
        session.send_req(&get(), Err(failure(None, true, false))),
        ReqStep::Fail(RobinhoodErr::RequestError(failure(None, true, false)))
    );
    assert_eq!(
        session.send_req(&get(), Err(failure(None, false, true))),
        ReqStep::Fail(RobinhoodErr::RequestError(failure(None, false, true)))
    );
    assert_eq!(
        session.send_req(&get(), Err(failure(Some(503), false, false))),
        ReqStep::Fail(RobinhoodErr::RequestError(failure(Some(503), false, false)))
    );
}

#[test]
fn failures_that_may_pass_with_retry() {
    let mut session = session();
    session.set_retry(true, 250);
    assert_eq!(session.send_req(&get(), Ok(500)), ReqStep::Backoff(250));
    assert_eq!(session.send_req(&get(), Ok(503)), ReqStep::Backoff(250));
    assert_eq!(session.send_req(&get(), Ok(599)), ReqStep::Backoff(250));
    assert_eq!(session.send_req(&get(), Err(failure(None, true, false))), ReqStep::Backoff(250));
    assert_eq!(session.send_req(&get(), Err(failure(None, false, true))), ReqStep::Backoff(250));
    assert_eq!(session.send_req(&get(), Err(failure(Some(502), false, false))), ReqStep::Backoff(250));
    assert_eq!(session.send_req(&get(), Err(failure(Some(200), true, false))), ReqStep::Backoff(250));
}

#[test]
fn other_failures_are_never_sent_again() {
    let mut session = session();
    session.set_retry(true, 250);
    assert_eq!(
        session.send_req(&get(), Ok(400)),
        ReqStep::Fail(status_failure(400, "HTTP status client error"))
    );
    assert_eq!(
        session.send_req(&get(), Ok(403)),
        ReqStep::Fail(status_failure(403, "HTTP status client error"))
    );
    assert_eq!(
        session.send_req(&get(), Ok(499)),
        ReqStep::Fail(status_failure(499, "HTTP status client error"))
    );
    assert_eq!(
        session.send_req(&get(), Err(failure(None, false, false))),
        ReqStep::Fail(RobinhoodErr::RequestError(failure(None, false, false)))
    );
    assert_eq!(
        session.send_req(&get(), Err(failure(Some(200), false, false))),
        ReqStep::Fail(RobinhoodErr::RequestError(failure(Some(200), false, false)))
    );
    assert_eq!(
        session.send_req(&get(), Err(failure(Some(429), false, false))),
        ReqStep::Fail(RobinhoodErr::RequestError(failure(Some(429), false, false)))
    );
}

#[test]
fn after_refresh_sends_again_or_gives_up() {
    let pair = NewToken { token: "a".to_owned(), refresh_token: "r".to_owned() };
    assert_eq!(Robinhood::after_refresh(&Ok(Some(pair))), Ok(()));
    assert_eq!(Robinhood::after_refresh(&Ok(None)), Ok(()));
    assert_eq!(
        Robinhood::after_refresh(&Err(RefreshTokenErr::BadRefreshToken("r".to_owned()))),
        Err(RobinhoodErr::Unauthorized)
    );
    assert_eq!(
        Robinhood::after_refresh(&Err(RefreshTokenErr::WrongResponseBody("odd".to_owned()))),
        Err(RobinhoodErr::Unauthorized)
    );
    assert_eq!(
        Robinhood::after_refresh(&Err(RefreshTokenErr::RequestError(failure(None, true, false)))),
        Err(RobinhoodErr::Unauthorized)
    );
}

#[test]
fn reauthorize_refreshes_with_the_token_at_hand() {
    let mut session = session();
    let request = session.reauthorize_request();
    assert_eq!(request, session.refresh_request(&None).unwrap());
    assert_eq!(request, session.refresh_request(&Some("r-0".to_owned())).unwrap());
    assert_eq!(session.reauthorize(Ok(json(SUCCESS))), Ok(()));
    assert_eq!(session.get_token(), "a-1");
    assert_eq!(session.get_refresh_token(), "r-1");
    assert_eq!(
        session.reauthorize(Ok(json(r#"{"error": "invalid_grant"}"#))),
        Err(RobinhoodErr::Unauthorized)
    );
    assert_eq!(session.reauthorize(Err(failure(None, false, true))), Err(RobinhoodErr::Unauthorized));
    assert_eq!(session.reauthorize(Ok(json("{}"))), Err(RobinhoodErr::Unauthorized));
    assert_eq!(session.get_token(), "a-1");
    assert_eq!(session.get_refresh_token(), "r-1");
}

#[test]
fn one_refusal_then_success() {
    let mut session = session();
    let record = run(&mut session, &get(), vec![Ok(401), Ok(200)], vec![Ok(json(SUCCESS))]);
    assert_eq!(record.sends, 2);
    assert_eq!(record.refreshes, 1);
    assert_eq!(record.waits, Vec::<u64>::new());
    assert_eq!(record.end, Ok(2));
    assert_eq!(session.get_token(), "a-1");
    assert_eq!(session.get_refresh_token(), "r-1");
    let prepared = session.req(&get());
    assert_eq!(prepared.headers[1], header("Authorization", "Bearer a-1"));
}

#[test]
fn refusal_with_a_dead_refresh_token() {
    let mut session = session();
    let record =
        run(&mut session, &get(), vec![Ok(401)], vec![Ok(json(r#"{"error": "invalid_grant"}"#))]);
    assert_eq!(record.sends, 1);
    assert_eq!(record.refreshes, 1);
    assert_eq!(record.end, Err(RobinhoodErr::Unauthorized));
    assert_eq!(session.get_token(), "a-0");
    assert_eq!(session.get_refresh_token(), "r-0");

    let record = run(&mut session, &get(), vec![Ok(401)], vec![Err(failure(None, true, false))]);
    assert_eq!(record.end, Err(RobinhoodErr::Unauthorized));
    assert_eq!(record.sends, 1);
}

#[test]
fn refusal_without_auto_refresh() {
    let mut session = session();
    session.set_auto_refresh(false);
    let record = run(&mut session, &get(), vec![Ok(401)], vec![]);
    assert_eq!(record.sends, 1);
    assert_eq!(record.refreshes, 0);
    assert_eq!(record.end, Err(RobinhoodErr::Unauthorized));
}

#[test]
fn server_errors_until_success() {
    let mut session = session();
    session.set_retry(true, 250);
    let record =
        run(&mut session, &get(), vec![Ok(500), Ok(502), Ok(500), Ok(200)], vec![]);
    assert_eq!(record.sends, 4);
    assert_eq!(record.refreshes, 0);
    assert_eq!(record.waits, vec![250, 250, 250]);
    assert_eq!(record.end, Ok(4));

    let record = run(
        &mut session,
        &get(),
        vec![Err(failure(None, true, false)), Err(failure(None, false, true)), Ok(204)],
        vec![],
    );
    assert_eq!(record.sends, 3);
    assert_eq!(record.waits, vec![250, 250]);
    assert_eq!(record.end, Ok(3));

    let record = run(&mut session, &get(), vec![Ok(200)], vec![]);
    assert_eq!(record.sends, 1);
    assert_eq!(record.waits, Vec::<u64>::new());
    assert_eq!(record.end, Ok(1));
}

#[test]
fn server_error_without_retry() {
    let mut session = session();
    let record = run(&mut session, &get(), vec![Ok(500)], vec![]);
    assert_eq!(record.sends, 1);
    assert_eq!(record.refreshes, 0);
    assert_eq!(record.waits, Vec::<u64>::new());
    assert_eq!(record.end, Err(status_failure(500, "HTTP status server error")));
}

#[test]
fn retry_and_refresh_in_one_dispatch() {
    let mut session = session();
    session.set_retry(true, 100);
    let record = run(
        &mut session,
        &get(),
        vec![Ok(503), Ok(401), Ok(500), Ok(200)],
        vec![Ok(json(SUCCESS))],
    );
    assert_eq!(record.sends, 4);
    assert_eq!(record.refreshes, 1);
    assert_eq!(record.waits, vec![100, 100]);
    assert_eq!(record.end, Ok(4));
    assert_eq!(session.get_token(), "a-1");
}

#[test]
fn retry_ends_at_a_failure_that_stays() {
    let mut session = session();
    session.set_retry(true, 100);
    let record = run(&mut session, &get(), vec![Ok(500), Ok(404)], vec![]);
    assert_eq!(record.sends, 2);
    assert_eq!(record.waits, vec![100]);
    assert_eq!(record.end, Err(RobinhoodErr::NotFound(URL.to_owned())));
    let record = run(&mut session, &get(), vec![Ok(500), Ok(400)], vec![]);
    assert_eq!(record.end, Err(status_failure(400, "HTTP status client error")));
}
