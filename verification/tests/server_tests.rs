use std::time::{SystemTime, UNIX_EPOCH};

use gotham_test::error::TestError;
use gotham_test::harness::{HandlerKind, RaceOutcome, TestServer};
use gotham_test::addr::TestAddr;

#[test]
fn serves_requests() {
    let ticks = SystemTime::now()
        .duration_since(UNIX_EPOCH)
        .unwrap()
        .as_secs();
    let handler = HandlerKind::Fixed {
        status: 200,
        body: format!("time: {}", ticks).into_bytes(),
    };

    let test_server = TestServer::new(handler).unwrap();
    let response = test_server
        .client()
        .get("http://localhost/")
        .perform()
        .unwrap();

    assert_eq!(response.status(), 200);
    assert_eq!(response.version(), gotham_test::http::Version::Http11);
    let buf = response.read_utf8_body().unwrap();
    assert_eq!(buf, format!("time: {}", ticks));
}

#[test]
fn times_out() {
    let handler = HandlerKind::Hang;
    let test_server = TestServer::with_timeout(handler, 1).unwrap();

    let res = test_server.client().get("http://localhost/timeout").perform();

    match res {
        Err(e) => {
            assert!(matches!(e, TestError::TimedOut));
        }
        Ok(_) => panic!("expected timeout, but was Ok(_)"),
    }
}

#[test]
fn sets_client_addr() {
    let client_addr = TestAddr::new(9, 8, 7, 6, 58901);
    let test_server = TestServer::new(HandlerKind::ReportAddr).unwrap();
    let response = test_server
        .client_with_address(client_addr)
        .get("http://localhost/myaddr")
        .perform()
        .unwrap();

    assert_eq!(response.status(), 200);
    let buf = response.read_body().unwrap();
    let received_addr = String::from_utf8(buf).unwrap();
    assert_eq!(received_addr, "9.8.7.6:58901");
}

#[test]
fn async_echo() {
    let server = TestServer::new(HandlerKind::Echo).unwrap();

    let client = server.client();
    let data = "This text should get reflected back to us. Even this fancy piece of unicode: \
                \u{3044}\u{308d}\u{306f}\u{306b}\u{307b}";

    let res = client
        .post("http://host/echo", data.as_bytes().to_vec(), "text/plain")
        .perform()
        .expect("request successful");

    assert_eq!(res.status(), 200);

    {
        let content_type = res
            .header(&"content-type".to_string())
            .expect("ContentType");
        assert_eq!(content_type, b"text/plain".to_vec());
    }

    let content_length = {
        let content_length = res
            .header(&"content-length".to_string())
            .expect("ContentLength");
        assert_eq!(
            content_length,
            format!("{}", data.as_bytes().len()).into_bytes()
        );

        content_length.clone()
    };

    let buf = String::from_utf8(res.read_body().expect("readable response"))
        .expect("UTF8 response");

    assert_eq!(content_length, format!("{}", buf.len()).into_bytes());
    assert_eq!(data, &buf);
}

#[test]
fn clones_serve_sequential_requests() {
    let server = TestServer::new(HandlerKind::Fixed {
        status: 200,
        body: b"hello".to_vec(),
    })
    .unwrap();
    let second = server.clone();

    let first_response = server
        .client()
        .get("http://localhost/")
        .perform()
        .unwrap();
    assert_eq!(first_response.status(), 200);
    assert_eq!(first_response.read_body().unwrap(), b"hello".to_vec());

    let second_response = second
        .client()
        .get("http://localhost/")
        .perform()
        .unwrap();
    assert_eq!(second_response.status(), 200);
    assert_eq!(second_response.read_body().unwrap(), b"hello".to_vec());
}

#[test]
fn default_client_addr_is_observed() {
    let test_server = TestServer::new(HandlerKind::ReportAddr).unwrap();
    let response = test_server
        .client()
        .get("http://localhost/myaddr")
        .perform()
        .unwrap();
    let buf = response.read_utf8_body().unwrap();
    assert_eq!(buf, "127.0.0.1:10000");
}

#[test]
fn timeout_is_recorded() {
    let server = TestServer::new(HandlerKind::Echo).unwrap();
    assert_eq!(server.timeout(), 10);
    let server = TestServer::with_timeout(HandlerKind::Echo, 3).unwrap();
    assert_eq!(server.timeout(), 3);
}

#[test]
fn run_request_resolves_every_race() {
    let server = TestServer::with_timeout(HandlerKind::Echo, 1).unwrap();

    let won: Result<u32, TestError> = server.run_request(RaceOutcome::Completed(Ok(7)));
    assert_eq!(won.unwrap(), 7);

    let failed: Result<u32, TestError> =
        server.run_request(RaceOutcome::Completed(Err("boom".to_string())));
    match failed {
        Err(TestError::RequestFailed { cause }) => assert_eq!(cause, "boom"),
        other => panic!("expected RequestFailed, got {:?}", other),
    }

    let late: Result<u32, TestError> = server.run_request(RaceOutcome::TimerElapsed);
    assert!(matches!(late, Err(TestError::TimedOut)));
}

#[test]
fn run_future_wraps_errors() {
    let server = TestServer::new(HandlerKind::Echo).unwrap();

    let done: Result<u32, TestError> = server.run_future(Ok(5));
    assert_eq!(done.unwrap(), 5);

    let failed: Result<u32, TestError> = server.run_future(Err("broken pipe".to_string()));
    match failed {
        Err(TestError::RequestFailed { cause }) => assert_eq!(cause, "broken pipe"),
        other => panic!("expected RequestFailed, got {:?}", other),
    }
}
