//! The guarantees of the harness, stated once and proved.
//!
//! Each lemma here speaks about the same model functions the executable
//! harness is specified against, so what it states holds of every request
//! the harness carries out.

use vstd::prelude::*;
use vstd::utf8::{encode_utf8, encode_utf8_decode_utf8};
use crate::addr::{TestAddr, addr_bytes, lemma_addr_bytes_injective};
use crate::decimal::dec_bytes;
use crate::error::ErrorModel;
use crate::harness::{
    HandlerModel, ServerModel, perform_model, content_type_name, content_length_name,
};
use crate::http::{Method, RequestModel, ResponseModel, spec_find_header};

verus! {

/// A handler that returns a fixed status and body answers a GET with
/// exactly that status and body, byte for byte.
pub proof fn lemma_fixed_handler_get(
    server: ServerModel,
    client_addr: TestAddr,
    req: RequestModel,
    status: u16,
    body: Seq<u8>,
)
    requires
        server.handler == (HandlerModel::Fixed { status, body }),
        req.method == Method::Get,
    ensures
        perform_model(server, client_addr, req) matches Ok(resp)
            && resp.status == status
            && resp.body == body,
{
}

/// A handler that echoes the body back answers a request that carried a
/// `content-type` with a response whose body equals the request body, whose
/// `content-type` equals the one sent, and whose `content-length` is the
/// byte length of that body.
pub proof fn lemma_echo_round_trip(
    server: ServerModel,
    client_addr: TestAddr,
    req: RequestModel,
    ctype: Seq<u8>,
)
    requires
        server.handler is Echo,
        spec_find_header(req.headers, content_type_name()) == Some(ctype),
    ensures
        perform_model(server, client_addr, req) matches Ok(resp)
            && resp.body == req.body
            && spec_find_header(resp.headers, content_type_name()) == Some(ctype)
            && spec_find_header(resp.headers, content_length_name())
                == Some(dec_bytes(req.body.len())),
{
    reveal_strlit("content-type");
    reveal_strlit("content-length");
    let resp = perform_model(server, client_addr, req)->Ok_0;
    assert(content_type_name().len() != content_length_name().len());
    assert(resp.headers[0].name == content_type_name());
    assert(resp.headers.drop_first() =~= seq![resp.headers[1]]);
    assert(spec_find_header(resp.headers, content_length_name())
        == spec_find_header(resp.headers.drop_first(), content_length_name()));
}

/// A harness whose timeout is one second, pointed at a handler that never
/// completes, fails with `TimedOut` — the race has no other outcome.
pub proof fn lemma_hanging_handler_times_out(
    server: ServerModel,
    client_addr: TestAddr,
    req: RequestModel,
)
    requires
        server.handler is Hang,
        server.timeout == 1,
    ensures
        perform_model(server, client_addr, req) == Err::<ResponseModel, ErrorModel>(
            ErrorModel::TimedOut,
        ),
{
}

/// Valid UTF-8 bytes decode to exactly one text: reading a body and
/// decoding it agrees with reading the UTF-8 body directly, because the
/// bytes determine the text.
pub proof fn lemma_utf8_decoding_agrees(body: Seq<u8>, s1: Seq<char>, s2: Seq<char>)
    requires
        encode_utf8(s1) == body,
        encode_utf8(s2) == body,
    ensures
        s1 == s2,
{
    encode_utf8_decode_utf8(s1);
    encode_utf8_decode_utf8(s2);
}

/// A handler that reports the observed source address answers with the
/// canonical text of exactly the address the client was built with.
pub proof fn lemma_reports_observed_address(
    server: ServerModel,
    client_addr: TestAddr,
    req: RequestModel,
)
    requires
        server.handler is ReportAddr,
    ensures
        perform_model(server, client_addr, req) matches Ok(resp)
            && resp.body == addr_bytes(client_addr),
{
}

/// The reported address is exact: when the report-address handler answers
/// two clients with the same body, the clients were built with the same
/// address — the text does not conflate two addresses.
pub proof fn lemma_reported_address_is_exact(
    server: ServerModel,
    addr1: TestAddr,
    req1: RequestModel,
    addr2: TestAddr,
    req2: RequestModel,
)
    requires
        server.handler is ReportAddr,
        perform_model(server, addr1, req1)->Ok_0.body == perform_model(server, addr2, req2)->Ok_0.body,
    ensures
        addr1 == addr2,
{
    lemma_reports_observed_address(server, addr1, req1);
    lemma_reports_observed_address(server, addr2, req2);
    lemma_addr_bytes_injective(addr1, addr2);
}

/// Two sequential requests against clones of one harness both succeed
/// whenever the handler completes, and neither changes the harness: the
/// accept loop is not consumed by a request.
pub proof fn lemma_sequential_requests(
    server: ServerModel,
    addr1: TestAddr,
    req1: RequestModel,
    addr2: TestAddr,
    req2: RequestModel,
)
    requires
        !(server.handler is Hang),
    ensures
        perform_model(server, addr1, req1) is Ok,
        perform_model(server, addr2, req2) is Ok,
{
}

} // verus!

