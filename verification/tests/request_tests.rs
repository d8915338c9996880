use gotham_test::harness::{HandlerKind, TestServer, Uri};

#[test]
fn uri_parse_accepts_well_formed_text() {
    let uri = Uri::parse("http://localhost/").expect("well-formed");
    assert_eq!(uri.text().as_str(), "http://localhost/");
}

#[test]
fn uri_parse_rejects_malformed_text() {
    assert!(Uri::parse("localhost").is_none());
    assert!(Uri::parse("http://").is_none());
    assert!(Uri::parse("http:///no-authority").is_none());
    assert!(Uri::parse("ftp://localhost/").is_none());
}

#[test]
fn verbs_with_parsed_uri_reach_the_handler() {
    let server = TestServer::new(HandlerKind::Fixed {
        status: 202,
        body: b"accepted".to_vec(),
    })
    .unwrap();

    let uri = Uri::parse("http://localhost/").unwrap();
    let response = server.client().get_uri(uri).perform().unwrap();
    assert_eq!(response.status(), 202);
    assert_eq!(response.read_body().unwrap(), b"accepted".to_vec());

    let uri = Uri::parse("http://localhost/").unwrap();
    let response = server.client().head_uri(uri).perform().unwrap();
    assert_eq!(response.status(), 202);

    let uri = Uri::parse("http://localhost/").unwrap();
    let response = server.client().delete_uri(uri).perform().unwrap();
    assert_eq!(response.status(), 202);
}

#[test]
fn body_verbs_attach_content_type() {
    let server = TestServer::new(HandlerKind::Echo).unwrap();

    let response = server
        .client()
        .put("http://localhost/", b"stored".to_vec(), "application/json")
        .perform()
        .unwrap();
    assert_eq!(
        response.header(&"content-type".to_string()).unwrap(),
        b"application/json".to_vec()
    );
    assert_eq!(response.read_body().unwrap(), b"stored".to_vec());

    let uri = Uri::parse("http://localhost/").unwrap();
    let response = server
        .client()
        .patch_uri(uri, b"delta".to_vec(), "text/plain")
        .perform()
        .unwrap();
    assert_eq!(
        response.header(&"content-type".to_string()).unwrap(),
        b"text/plain".to_vec()
    );
    assert_eq!(response.read_body().unwrap(), b"delta".to_vec());

    let uri = Uri::parse("http://localhost/").unwrap();
    let response = server
        .client()
        .post_uri(uri, b"posted".to_vec(), "text/plain")
        .perform()
        .unwrap();
    assert_eq!(response.read_body().unwrap(), b"posted".to_vec());
}

#[test]
fn builder_headers_reach_the_handler() {
    let server = TestServer::new(HandlerKind::Echo).unwrap();

    let response = server
        .client()
        .build_request(gotham_test::http::Method::Post, "http://localhost/")
        .with_body(b"payload".to_vec())
        .with_header("content-type".to_string(), b"text/x-custom".to_vec())
        .perform()
        .unwrap();

    assert_eq!(
        response.header(&"content-type".to_string()).unwrap(),
        b"text/x-custom".to_vec()
    );
    assert_eq!(response.read_body().unwrap(), b"payload".to_vec());
}

#[test]
fn echo_without_content_type_omits_the_header() {
    let server = TestServer::new(HandlerKind::Echo).unwrap();

    let response = server
        .client()
        .build_request(gotham_test::http::Method::Post, "http://localhost/")
        .with_body(b"bare".to_vec())
        .perform()
        .unwrap();

    assert!(response.header(&"content-type".to_string()).is_none());
    assert_eq!(
        response.header(&"content-length".to_string()).unwrap(),
        b"4".to_vec()
    );
}
