//! Byte-level constants and fixed messages of the SOCKS5 wire format.

use vstd::prelude::*;

verus! {

/// The protocol version marker that opens every message.
pub const VERSION: u8 = 0x05;

/// The method code for "no authentication required".
pub const METHOD_NO_AUTH: u8 = 0x00;

/// The command code of CONNECT, the only command served.
pub const CMD_CONNECT: u8 = 0x01;

/// The address type of a four-octet IPv4 address.
pub const ATYP_IPV4: u8 = 0x01;

/// The address type of a length-prefixed domain name.
pub const ATYP_DOMAIN: u8 = 0x03;

/// Reply code: the connection was established.
pub const REP_SUCCEEDED: u8 = 0x00;

/// Reply code: the destination could not be reached.
pub const REP_HOST_UNREACHABLE: u8 = 0x04;

/// Reply code: the command is not CONNECT.
pub const REP_COMMAND_NOT_SUPPORTED: u8 = 0x07;

/// Reply code: the address type is neither IPv4 nor domain name.
pub const REP_ADDRESS_TYPE_NOT_SUPPORTED: u8 = 0x08;

/// The length of the envelope `VER CMD RSV ATYP` that opens a request.
pub const ENVELOPE_LEN: usize = 4;

/// The length of a reply.
pub const REPLY_LEN: usize = 10;

/// The big-endian 16-bit number held in `buf[start]` and `buf[start + 1]`.
pub open spec fn spec_port(buf: Seq<u8>, start: int) -> int
    recommends
        0 <= start,
        start + 1 < buf.len(),
{
    buf[start] as int * 256 + buf[start + 1] as int
}

/// The method-selection message: version 5, no authentication.
pub open spec fn method_selection() -> Seq<u8> {
    seq![VERSION, METHOD_NO_AUTH]
}

/// The reply that carries `code`: version, code, reserved, address type
/// IPv4, and a bound address and port that are always zero.
pub open spec fn reply(code: u8) -> Seq<u8> {
    seq![VERSION, code, 0u8, ATYP_IPV4, 0u8, 0u8, 0u8, 0u8, 0u8, 0u8]
}

/// Reads the port that stands at `start` in network byte order.
pub fn get_port(buf: &[u8], start: usize) -> (port: u16)
    requires
        start + 1 < buf.len(),
    ensures
        port as int == spec_port(buf@, start as int),
{
    let high: u8 = buf[start];
    let low: u8 = buf[start + 1];
    assert(((high as u16) << 8 | (low as u16)) == (high as u16) * 256 + (low as u16))
        by (bit_vector);
    (high as u16) << 8 | (low as u16)
}

/// Builds the method-selection message.
pub fn method_selection_bytes() -> (out: Vec<u8>)
    ensures
        out@ == method_selection(),
{
    let mut out: Vec<u8> = Vec::new();
    out.push(VERSION);
    out.push(METHOD_NO_AUTH);
    assert(out@ =~= method_selection());
    out
}

/// Builds the reply that carries `code`.
pub fn reply_bytes(code: u8) -> (out: Vec<u8>)
    ensures
        out@ == reply(code),
{
    let mut out: Vec<u8> = Vec::new();
    out.push(VERSION);
    out.push(code);
    out.push(0u8);
    out.push(ATYP_IPV4);
    let mut i: usize = 4;
    while i < REPLY_LEN
        invariant
            4 <= i <= REPLY_LEN,
            out@.len() == i,
            out@.subrange(0, 4) == seq![VERSION, code, 0u8, ATYP_IPV4],
            forall|k: int| 4 <= k < i ==> out@[k] == 0u8,
        decreases REPLY_LEN - i,
    {
        out.push(0u8);
        i = i + 1;
        assert(out@.subrange(0, 4) =~= seq![VERSION, code, 0u8, ATYP_IPV4]);
    }
    assert(out@ =~= reply(code)) by {
        assert(out@.subrange(0, 4)[0] == out@[0]);
        assert(out@.subrange(0, 4)[1] == out@[1]);
        assert(out@.subrange(0, 4)[2] == out@[2]);
        assert(out@.subrange(0, 4)[3] == out@[3]);
    }
    out
}

} // verus!
