//! Requests, responses and headers as the harness models them.
//!
//! The harness treats wire-level framing as an external collaborator, so a
//! request is the finished value a builder produces — a method, a URI, a
//! list of headers and a body — and a response is what the client observes
//! once the server is done: a status, headers, and a body whose bytes are
//! read on demand, after the response itself has been returned.

use vstd::prelude::*;
use vstd::utf8::{valid_utf8, encode_utf8, decode_utf8, encode_utf8_decode_utf8};
use crate::error::TestError;

verus! {

/// An HTTP method the harness can issue.
#[derive(Clone, Copy, PartialEq, Eq, Structural, Debug)]
pub enum Method {
    Head,
    Get,
    Post,
    Put,
    Patch,
    Delete,
}

/// One header: a name and its raw value bytes. This library writes header
/// names in lower case and compares them exactly.
#[derive(Debug)]
pub struct Header {
    pub name: String,
    pub value: Vec<u8>,
}

/// The spec-level image of a `Header`.
#[verifier::ext_equal]
pub struct HeaderModel {
    pub name: Seq<char>,
    pub value: Seq<u8>,
}

impl View for Header {
    type V = HeaderModel;

    open spec fn view(&self) -> HeaderModel {
        HeaderModel { name: self.name@, value: self.value@ }
    }
}

/// A header list, viewed header by header.
pub open spec fn headers_view(hs: Seq<Header>) -> Seq<HeaderModel> {
    hs.map_values(|h: Header| h@)
}

/// The value of the first header named `name`, if there is one.
pub open spec fn spec_find_header(hs: Seq<HeaderModel>, name: Seq<char>) -> Option<Seq<u8>>
    decreases hs.len(),
{
    if hs.len() == 0 {
        None
    } else if hs[0].name == name {
        Some(hs[0].value)
    } else {
        spec_find_header(hs.drop_first(), name)
    }
}

/// A copy of a byte vector.
pub(crate) fn clone_bytes(v: &Vec<u8>) -> (r: Vec<u8>)
    ensures
        r@ == v@,
{
    let r = v.clone();
    assert(r@ =~= v@);
    r
}

/// Finds the first header named `name` in `hs` and returns a copy of its
/// value.
pub fn find_header(hs: &Vec<Header>, name: &String) -> (r: Option<Vec<u8>>)
    ensures
        match r {
            Some(v) => spec_find_header(headers_view(hs@), name@) == Some(v@),
            None => spec_find_header(headers_view(hs@), name@) is None,
        },
{
    let ghost full = headers_view(hs@);
    let mut i: usize = 0;
    assert(full.skip(0) =~= full);
    while i < hs.len()
        invariant
            i <= hs.len(),
            full == headers_view(hs@),
            spec_find_header(full, name@) == spec_find_header(full.skip(i as int), name@),
        decreases hs.len() - i,
    {
        assert(full.skip(i as int)[0] == full[i as int]);
        assert(full[i as int] == hs@[i as int]@);
        if hs[i].name == *name {
            return Some(clone_bytes(&hs[i].value));
        }
        assert(full.skip(i as int).drop_first() =~= full.skip(i as int + 1));
        i = i + 1;
    }
    assert(full.skip(i as int) =~= Seq::<HeaderModel>::empty());
    None
}

/// A request as the harness hands it to the server: the finished value a
/// request builder produces.
#[derive(Debug)]
pub struct TestRequest {
    pub method: Method,
    pub uri: String,
    pub headers: Vec<Header>,
    pub body: Vec<u8>,
}

/// The spec-level image of a `TestRequest`.
#[verifier::ext_equal]
pub struct RequestModel {
    pub method: Method,
    pub uri: Seq<char>,
    pub headers: Seq<HeaderModel>,
    pub body: Seq<u8>,
}

impl View for TestRequest {
    type V = RequestModel;

    open spec fn view(&self) -> RequestModel {
        RequestModel {
            method: self.method,
            uri: self.uri@,
            headers: headers_view(self.headers@),
            body: self.body@,
        }
    }
}

/// The protocol version a response was carried over.
#[derive(Clone, Copy, PartialEq, Eq, Structural, Debug)]
pub enum Version {
    Http09,
    Http10,
    Http11,
    H2,
    H3,
}

/// A completed response: its status, version and headers are readable at
/// once, its body is consumed by an explicit read.
#[derive(Debug)]
pub struct TestResponse {
    pub status: u16,
    pub version: Version,
    pub headers: Vec<Header>,
    pub body: Vec<u8>,
}

/// The spec-level image of a `TestResponse`.
#[verifier::ext_equal]
pub struct ResponseModel {
    pub status: u16,
    pub version: Version,
    pub headers: Seq<HeaderModel>,
    pub body: Seq<u8>,
}

impl View for TestResponse {
    type V = ResponseModel;

    open spec fn view(&self) -> ResponseModel {
        ResponseModel {
            status: self.status,
            version: self.version,
            headers: headers_view(self.headers@),
            body: self.body@,
        }
    }
}

/// What decoding a body as UTF-8 yields: the decoded text exactly when the
/// bytes are valid UTF-8, and nothing otherwise.
pub open spec fn spec_utf8(bytes: Seq<u8>) -> Option<Seq<char>> {
    if valid_utf8(bytes) {
        Some(decode_utf8(bytes))
    } else {
        None
    }
}

/// Relies on `String::from_utf8`: it succeeds exactly when the bytes are
/// valid UTF-8, and the returned string then holds exactly those bytes.
#[verifier::external_body]
fn string_from_utf8(bytes: Vec<u8>) -> (r: Option<String>)
    ensures
        r is Some <==> valid_utf8(bytes@),
        r matches Some(s) ==> encode_utf8(s@) == bytes@,
{
    String::from_utf8(bytes).ok()
}

impl TestResponse {
    /// The status code of this response.
    pub fn status(&self) -> (r: u16)
        ensures
            r == self@.status,
    {
        self.status
    }

    /// The protocol version of this response.
    pub fn version(&self) -> (r: Version)
        ensures
            r == self@.version,
    {
        self.version
    }

    /// A copy of the value of the first header named `name`, if this
    /// response carries one.
    pub fn header(&self, name: &String) -> (r: Option<Vec<u8>>)
        ensures
            match r {
                Some(v) => spec_find_header(self@.headers, name@) == Some(v@),
                None => spec_find_header(self@.headers, name@) is None,
            },
    {
        find_header(&self.headers, name)
    }

    /// Consumes the response and returns every byte of its body.
    pub fn read_body(self) -> (r: Result<Vec<u8>, TestError>)
        ensures
            r matches Ok(b) && b@ == self@.body,
    {
        Ok(self.body)
    }

    /// Consumes the response and returns its body decoded as UTF-8 text.
    /// Fails with an `Encoding` error exactly when the body is not valid
    /// UTF-8; it never panics and never returns corrupted text.
    pub fn read_utf8_body(self) -> (r: Result<String, TestError>)
        ensures
            valid_utf8(self@.body) ==> (r matches Ok(s) && s@ == decode_utf8(self@.body)),
            !valid_utf8(self@.body) ==> (r matches Err(e) && e is Encoding),
    {
        let bytes = match self.read_body() {
            Ok(b) => b,
            Err(e) => {
                return Err(e);
            },
        };
        match string_from_utf8(bytes) {
            Some(s) => {
                proof {
                    encode_utf8_decode_utf8(s@);
                }
                Ok(s)
            },
            None => Err(TestError::Encoding),
        }
    }
}

} // verus!
