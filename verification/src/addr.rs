//! The socket addresses the harness speaks about, as plain values.
//!
//! The harness presents a chosen source address to the server side of a
//! connection, and the server can report the address it observed. Both
//! sides of that exchange are modelled here: an IPv4 address with a port,
//! and its canonical text `a.b.c.d:port`.

use vstd::prelude::*;
use crate::decimal::{dec_bytes, dec_u64, lemma_dec_bytes_digits, lemma_dec_bytes_injective, push_dec_u64};

verus! {

/// An IPv4 socket address: four octets and a port.
#[derive(Clone, Copy, PartialEq, Eq, Structural, Debug)]
pub struct TestAddr {
    pub a: u8,
    pub b: u8,
    pub c: u8,
    pub d: u8,
    pub port: u16,
}

/// The canonical text of `addr`, as ASCII bytes: `a.b.c.d:port`, each part
/// in decimal without leading zeros.
pub open spec fn addr_bytes(addr: TestAddr) -> Seq<u8> {
    dec_bytes(addr.a as nat) + seq![46u8] + (dec_bytes(addr.b as nat) + seq![46u8] + (dec_bytes(
        addr.c as nat,
    ) + seq![46u8] + (dec_bytes(addr.d as nat) + seq![58u8] + dec_bytes(addr.port as nat))))
}

/// A text that is a separator-free prefix, one separator, and a remainder
/// splits only one way.
proof fn lemma_split_at_separator(a1: Seq<u8>, r1: Seq<u8>, a2: Seq<u8>, r2: Seq<u8>, sep: u8)
    requires
        a1 + seq![sep] + r1 == a2 + seq![sep] + r2,
        forall|i: int| 0 <= i < a1.len() ==> a1[i] != sep,
        forall|i: int| 0 <= i < a2.len() ==> a2[i] != sep,
    ensures
        a1 == a2,
        r1 == r2,
{
    let s1 = a1 + seq![sep] + r1;
    let s2 = a2 + seq![sep] + r2;
    if a1.len() < a2.len() {
        assert(s1[a1.len() as int] == sep);
        assert(s2[a1.len() as int] == a2[a1.len() as int]);
        assert(false);
    }
    if a2.len() < a1.len() {
        assert(s2[a2.len() as int] == sep);
        assert(s1[a2.len() as int] == a1[a2.len() as int]);
        assert(false);
    }
    assert(a1 =~= a2) by {
        assert forall|i: int| 0 <= i < a1.len() implies a1[i] == a2[i] by {
            assert(s1[i] == a1[i]);
            assert(s2[i] == a2[i]);
        }
    }
    assert(s1.len() == a1.len() + 1 + r1.len());
    assert(s2.len() == a2.len() + 1 + r2.len());
    assert(r1.len() == r2.len());
    assert(r1 =~= r2) by {
        assert forall|i: int| 0 <= i < r1.len() implies r1[i] == r2[i] by {
            assert(s1[i + a1.len() + 1] == r1[i]);
            assert(s2[i + a2.len() + 1] == r2[i]);
        }
    }
}

/// The canonical text of an address determines the address: the reported
/// text is the address, exactly.
pub proof fn lemma_addr_bytes_injective(x: TestAddr, y: TestAddr)
    requires
        addr_bytes(x) == addr_bytes(y),
    ensures
        x == y,
{
    lemma_dec_bytes_digits(x.a as nat);
    lemma_dec_bytes_digits(x.b as nat);
    lemma_dec_bytes_digits(x.c as nat);
    lemma_dec_bytes_digits(x.d as nat);
    lemma_dec_bytes_digits(y.a as nat);
    lemma_dec_bytes_digits(y.b as nat);
    lemma_dec_bytes_digits(y.c as nat);
    lemma_dec_bytes_digits(y.d as nat);

    let x_rest1 = dec_bytes(x.b as nat) + seq![46u8] + (dec_bytes(x.c as nat) + seq![46u8] + (
    dec_bytes(x.d as nat) + seq![58u8] + dec_bytes(x.port as nat)));
    let y_rest1 = dec_bytes(y.b as nat) + seq![46u8] + (dec_bytes(y.c as nat) + seq![46u8] + (
    dec_bytes(y.d as nat) + seq![58u8] + dec_bytes(y.port as nat)));
    lemma_split_at_separator(dec_bytes(x.a as nat), x_rest1, dec_bytes(y.a as nat), y_rest1, 46);
    lemma_dec_bytes_injective(x.a as nat, y.a as nat);

    let x_rest2 = dec_bytes(x.c as nat) + seq![46u8] + (dec_bytes(x.d as nat) + seq![58u8]
        + dec_bytes(x.port as nat));
    let y_rest2 = dec_bytes(y.c as nat) + seq![46u8] + (dec_bytes(y.d as nat) + seq![58u8]
        + dec_bytes(y.port as nat));
    lemma_split_at_separator(dec_bytes(x.b as nat), x_rest2, dec_bytes(y.b as nat), y_rest2, 46);
    lemma_dec_bytes_injective(x.b as nat, y.b as nat);

    let x_rest3 = dec_bytes(x.d as nat) + seq![58u8] + dec_bytes(x.port as nat);
    let y_rest3 = dec_bytes(y.d as nat) + seq![58u8] + dec_bytes(y.port as nat);
    lemma_split_at_separator(dec_bytes(x.c as nat), x_rest3, dec_bytes(y.c as nat), y_rest3, 46);
    lemma_dec_bytes_injective(x.c as nat, y.c as nat);

    lemma_split_at_separator(
        dec_bytes(x.d as nat),
        dec_bytes(x.port as nat),
        dec_bytes(y.d as nat),
        dec_bytes(y.port as nat),
        58,
    );
    lemma_dec_bytes_injective(x.d as nat, y.d as nat);
    lemma_dec_bytes_injective(x.port as nat, y.port as nat);
}

/// The source address a client presents when the caller chose none:
/// `127.0.0.1:10000`.
pub open spec fn default_client_addr() -> TestAddr {
    TestAddr { a: 127, b: 0, c: 0, d: 1, port: 10000 }
}

impl TestAddr {
    /// An address from its four octets and port.
    pub fn new(a: u8, b: u8, c: u8, d: u8, port: u16) -> (r: TestAddr)
        ensures
            r == (TestAddr { a, b, c, d, port }),
    {
        TestAddr { a, b, c, d, port }
    }

    /// The canonical text of this address, as bytes.
    pub fn text_bytes(&self) -> (r: Vec<u8>)
        ensures
            r@ == addr_bytes(*self),
    {
        let mut out: Vec<u8> = dec_u64(self.a as u64);
        out.push(46);
        push_dec_u64(&mut out, self.b as u64);
        out.push(46);
        push_dec_u64(&mut out, self.c as u64);
        out.push(46);
        push_dec_u64(&mut out, self.d as u64);
        out.push(58);
        push_dec_u64(&mut out, self.port as u64);
        assert(out@ =~= addr_bytes(*self));
        out
    }
}

} // verus!
