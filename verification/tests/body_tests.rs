use gotham_test::addr::TestAddr;
use gotham_test::decimal::dec_u64;
use gotham_test::error::TestError;
use gotham_test::http::{find_header, Header, TestResponse, Version};

#[test]
fn read_utf8_body_decodes_valid_utf8() {
    let response = TestResponse {
        status: 200,
        version: Version::Http11,
        headers: Vec::new(),
        body: "caf\u{e9} \u{3044}".as_bytes().to_vec(),
    };
    let text = response.read_utf8_body().unwrap();
    assert_eq!(text, "caf\u{e9} \u{3044}");
}

#[test]
fn read_utf8_body_rejects_invalid_utf8() {
    let response = TestResponse {
        status: 200,
        version: Version::Http11,
        headers: Vec::new(),
        body: vec![0xff, 0xfe, 0x61],
    };
    match response.read_utf8_body() {
        Err(e) => assert!(matches!(e, TestError::Encoding)),
        Ok(text) => panic!("expected an encoding error, got {:?}", text),
    }
}

#[test]
fn read_body_then_decoding_matches_read_utf8_body() {
    let bytes = "two roads \u{306f}".as_bytes().to_vec();
    let first = TestResponse {
        status: 200,
        version: Version::Http11,
        headers: Vec::new(),
        body: bytes.clone(),
    };
    let second = TestResponse {
        status: 200,
        version: Version::Http11,
        headers: Vec::new(),
        body: bytes,
    };

    let via_bytes = String::from_utf8(first.read_body().unwrap()).unwrap();
    let direct = second.read_utf8_body().unwrap();
    assert_eq!(via_bytes, direct);
}

#[test]
fn addr_text_is_canonical() {
    assert_eq!(
        TestAddr::new(9, 8, 7, 6, 58901).text_bytes(),
        b"9.8.7.6:58901".to_vec()
    );
    assert_eq!(
        TestAddr::new(127, 0, 0, 1, 10000).text_bytes(),
        b"127.0.0.1:10000".to_vec()
    );
    assert_eq!(TestAddr::new(0, 0, 0, 0, 0).text_bytes(), b"0.0.0.0:0".to_vec());
}

#[test]
fn decimal_text_is_exact() {
    assert_eq!(dec_u64(0), b"0".to_vec());
    assert_eq!(dec_u64(7), b"7".to_vec());
    assert_eq!(dec_u64(10), b"10".to_vec());
    assert_eq!(dec_u64(10000), b"10000".to_vec());
    assert_eq!(dec_u64(65535), b"65535".to_vec());
    assert_eq!(
        dec_u64(u64::MAX),
        b"18446744073709551615".to_vec()
    );
}

#[test]
fn find_header_returns_the_first_match() {
    let headers = vec![
        Header {
            name: "x-one".to_string(),
            value: b"first".to_vec(),
        },
        Header {
            name: "x-one".to_string(),
            value: b"second".to_vec(),
        },
        Header {
            name: "x-two".to_string(),
            value: b"other".to_vec(),
        },
    ];
    assert_eq!(
        find_header(&headers, &"x-one".to_string()).unwrap(),
        b"first".to_vec()
    );
    assert_eq!(
        find_header(&headers, &"x-two".to_string()).unwrap(),
        b"other".to_vec()
    );
    assert!(find_header(&headers, &"x-three".to_string()).is_none());
}

#[test]
fn status_and_headers_read_without_consuming() {
    let response = TestResponse {
        status: 404,
        version: Version::Http11,
        headers: vec![Header {
            name: "content-length".to_string(),
            value: b"0".to_vec(),
        }],
        body: Vec::new(),
    };
    assert_eq!(response.status(), 404);
    assert_eq!(
        response.header(&"content-length".to_string()).unwrap(),
        b"0".to_vec()
    );
    assert_eq!(response.read_body().unwrap(), Vec::<u8>::new());
}
