//! The three negotiation stages, each as a decision over the bytes that the
//! client sent or the outcome of the connect.

use vstd::prelude::*;
use vstd::slice::slice_subrange;
use vstd::string::*;
use vstd::utf8::{decode_utf8, decode_utf8_encode_utf8, encode_utf8_decode_utf8, valid_utf8};
use crate::address::{AddrView, RequestView, S5Addr, S5Request};
use crate::error::S5Error;
pub use crate::wire::get_port;
use crate::wire::{
    method_selection, method_selection_bytes, reply, reply_bytes, spec_port, ATYP_DOMAIN,
    ATYP_IPV4, CMD_CONNECT, ENVELOPE_LEN, REP_SUCCEEDED, VERSION,
};

verus! {

/// The size of the buffer into which a driver reads the greeting and the
/// request: one read brings at most this many bytes.
pub const MESSAGE_BUFFER_LEN: usize = 32;

/// The length of a complete request that carries an IPv4 address.
pub const IPV4_REQUEST_LEN: usize = 10;

/// The offset of the first byte of a domain name, behind its length byte.
pub const DOMAIN_START: usize = 5;

/// The answer to a greeting: the method selection where the greeting opens
/// with the version marker, whatever methods it goes on to offer; a protocol
/// violation where it opens with any other byte or holds no byte at all.
pub open spec fn negotiate(greeting: Seq<u8>) -> Result<Seq<u8>, S5Error> {
    if greeting.len() > 0 && greeting[0] == VERSION {
        Ok(method_selection())
    } else {
        Err(S5Error::ProtocolViolation)
    }
}

/// The bytes of the domain name that a request declares.
pub open spec fn domain_bytes(msg: Seq<u8>) -> Seq<u8>
    recommends
        msg.len() >= DOMAIN_START + msg[4] as int,
{
    msg.subrange(DOMAIN_START as int, DOMAIN_START + msg[4] as int)
}

/// Whether `msg` holds every byte that its address type and, for a domain
/// name, its length byte declare. Bytes behind the port are not counted
/// against it.
pub open spec fn is_complete(msg: Seq<u8>) -> bool
    recommends
        msg.len() >= ENVELOPE_LEN,
{
    if msg[3] == ATYP_IPV4 {
        msg.len() >= IPV4_REQUEST_LEN
    } else if msg[3] == ATYP_DOMAIN {
        msg.len() > 4 && msg.len() >= DOMAIN_START + msg[4] as int + 2
    } else {
        false
    }
}

/// The destination that a complete request names, if its domain name is
/// valid UTF-8.
pub open spec fn destination(msg: Seq<u8>) -> Option<(AddrView, u16)>
    recommends
        msg.len() >= ENVELOPE_LEN,
        is_complete(msg),
{
    if msg[3] == ATYP_IPV4 {
        Some((AddrView::IPv4(msg[4], msg[5], msg[6], msg[7]), spec_port(msg, 8) as u16))
    } else if valid_utf8(domain_bytes(msg)) {
        Some(
            (
                AddrView::Domain(decode_utf8(domain_bytes(msg))),
                spec_port(msg, DOMAIN_START + msg[4] as int) as u16,
            ),
        )
    } else {
        None
    }
}

/// What a request message decodes to.
///
/// The envelope `VER CMD RSV ATYP` must be there in full. The command is
/// judged first, then the address type; only then is the destination read,
/// and a message that ends before its declared fields do, or whose domain
/// name is not UTF-8, is a protocol violation. The version byte is recorded
/// and the reserved byte ignored.
pub open spec fn parse_request(msg: Seq<u8>) -> Result<RequestView, S5Error> {
    if msg.len() < ENVELOPE_LEN {
        Err(S5Error::ProtocolViolation)
    } else if msg[1] != CMD_CONNECT {
        Err(S5Error::UnsupportedCommand)
    } else if msg[3] != ATYP_IPV4 && msg[3] != ATYP_DOMAIN {
        Err(S5Error::UnsupportedAddressType)
    } else if !is_complete(msg) {
        Err(S5Error::ProtocolViolation)
    } else {
        match destination(msg) {
            Some((dst_addr, dst_port)) => Ok(
                RequestView { ver: msg[0], cmd: msg[1], atype: msg[3], dst_addr, dst_port },
            ),
            None => Err(S5Error::ProtocolViolation),
        }
    }
}

/// The answer to the outcome of the connect: the success reply, or the
/// error that stands for an unreachable host.
pub open spec fn connect_outcome(connected: bool) -> Result<Seq<u8>, S5Error> {
    if connected {
        Ok(reply(REP_SUCCEEDED))
    } else {
        Err(S5Error::UpstreamUnreachable)
    }
}

/// `std::str::from_utf8`: the bytes as text. It gives text exactly when the
/// bytes are well-formed UTF-8, and the text then encodes to those very
/// bytes; nothing is copied or changed.
#[verifier::external_body]
fn utf8_text(bytes: &[u8]) -> (text: Option<&str>)
    ensures
        text.is_some() <==> valid_utf8(bytes@),
        text.is_some() ==> text.unwrap().spec_bytes() == bytes@,
{
    match std::str::from_utf8(bytes) {
        Ok(text) => Some(text),
        Err(_) => None,
    }
}

/// Answers the client's greeting.
///
/// `greeting` holds the bytes that one read brought, none where the client
/// had closed.
pub fn handle_handshake(greeting: &[u8]) -> (res: Result<Vec<u8>, S5Error>)
    ensures
        match res {
            Ok(bytes) => negotiate(greeting@) == Ok::<Seq<u8>, S5Error>(bytes@),
            Err(e) => negotiate(greeting@) == Err::<Seq<u8>, S5Error>(e),
        },
{
    if greeting.len() > 0 && greeting[0] == VERSION {
        Ok(method_selection_bytes())
    } else {
        Err(S5Error::ProtocolViolation)
    }
}

/// Reads the domain name of a complete request.
fn read_domain(msg: &[u8]) -> (name: Option<String>)
    requires
        msg@.len() >= ENVELOPE_LEN,
        msg@[3] == ATYP_DOMAIN,
        is_complete(msg@),
    ensures
        name.is_some() == valid_utf8(domain_bytes(msg@)),
        name.is_some() ==> name.unwrap()@ == decode_utf8(domain_bytes(msg@)),
        name.is_some() ==> AddrView::Domain(name.unwrap()@).wf(),
{
    let length: usize = msg[4] as usize;
    let raw = slice_subrange(msg, DOMAIN_START, DOMAIN_START + length);
    match utf8_text(raw) {
        Some(text) => {
            proof {
                encode_utf8_decode_utf8(text@);
            }
            Some(text.to_owned())
        },
        None => None,
    }
}

/// Decodes the client's request.
///
/// `msg` holds the bytes that one read brought. The result is the request,
/// or the error whose reply, if it has one, the client is owed before the
/// connection closes.
pub fn handle_connection(msg: &[u8]) -> (res: Result<S5Request, S5Error>)
    ensures
        match res {
            Ok(req) => parse_request(msg@) == Ok::<RequestView, S5Error>(req@)
                && req@.dst_addr.wf(),
            Err(e) => parse_request(msg@) == Err::<RequestView, S5Error>(e),
        },
{
    if msg.len() < ENVELOPE_LEN {
        return Err(S5Error::ProtocolViolation);
    }
    let ver: u8 = msg[0];
    let cmd: u8 = msg[1];
    let atype: u8 = msg[3];
    if cmd != CMD_CONNECT {
        return Err(S5Error::UnsupportedCommand);
    }
    if atype == ATYP_IPV4 {
        if msg.len() < IPV4_REQUEST_LEN {
            return Err(S5Error::ProtocolViolation);
        }
        let dst_addr = S5Addr::IPv4(msg[4], msg[5], msg[6], msg[7]);
        let dst_port: u16 = get_port(msg, 8);
        Ok(S5Request::new(ver, cmd, atype, dst_addr, dst_port))
    } else if atype == ATYP_DOMAIN {
        if msg.len() <= 4 {
            return Err(S5Error::ProtocolViolation);
        }
        let end: usize = DOMAIN_START + msg[4] as usize;
        if msg.len() < end + 2 {
            return Err(S5Error::ProtocolViolation);
        }
        match read_domain(msg) {
            Some(name) => {
                let dst_port: u16 = get_port(msg, end);
                Ok(S5Request::new(ver, cmd, atype, S5Addr::Domain(name), dst_port))
            },
            None => Err(S5Error::ProtocolViolation),
        }
    } else {
        Err(S5Error::UnsupportedAddressType)
    }
}

/// Answers the outcome of the one connect to the request's target.
pub fn handle_traffic(connected: bool) -> (res: Result<Vec<u8>, S5Error>)
    ensures
        match res {
            Ok(bytes) => connect_outcome(connected) == Ok::<Seq<u8>, S5Error>(bytes@),
            Err(e) => connect_outcome(connected) == Err::<Seq<u8>, S5Error>(e),
        },
{
    if connected {
        Ok(reply_bytes(REP_SUCCEEDED))
    } else {
        Err(S5Error::UpstreamUnreachable)
    }
}

/// A greeting that opens with the version marker is answered with the two
/// bytes `05 00`, whatever method count and methods follow the marker.
pub proof fn greeting_is_answered_with_no_auth(greeting: Seq<u8>)
    requires
        greeting.len() > 0,
        greeting[0] == 0x05u8,
    ensures
        negotiate(greeting) == Ok::<Seq<u8>, S5Error>(seq![0x05u8, 0x00u8]),
{
    assert(method_selection() =~= seq![0x05u8, 0x00u8]);
}

/// A greeting that opens with any other byte gets no answer: it is a
/// protocol violation, for which no reply exists.
pub proof fn foreign_greeting_is_refused(greeting: Seq<u8>)
    requires
        greeting.len() > 0,
        greeting[0] != 0x05u8,
    ensures
        negotiate(greeting) == Err::<Seq<u8>, S5Error>(S5Error::ProtocolViolation),
        S5Error::ProtocolViolation.spec_reply().is_none(),
{
}

/// A request whose command is not CONNECT is refused with the reply
/// `05 07 00 01 00 00 00 00 00 00`, whatever its address type is; one for
/// CONNECT whose address type is neither IPv4 nor domain name is refused
/// with `05 08 00 01 00 00 00 00 00 00`.
pub proof fn command_is_judged_before_address_type(msg: Seq<u8>)
    requires
        msg.len() >= ENVELOPE_LEN,
    ensures
        msg[1] != 0x01u8 ==> parse_request(msg) == Err::<RequestView, S5Error>(
            S5Error::UnsupportedCommand,
        ),
        msg[1] == 0x01u8 && msg[3] != 0x01u8 && msg[3] != 0x03u8 ==> parse_request(msg) == Err::<
            RequestView,
            S5Error,
        >(S5Error::UnsupportedAddressType),
        S5Error::UnsupportedCommand.spec_reply() == Some(
            seq![0x05u8, 0x07u8, 0u8, 0x01u8, 0u8, 0u8, 0u8, 0u8, 0u8, 0u8],
        ),
        S5Error::UnsupportedAddressType.spec_reply() == Some(
            seq![0x05u8, 0x08u8, 0u8, 0x01u8, 0u8, 0u8, 0u8, 0u8, 0u8, 0u8],
        ),
{
    assert(reply(0x07u8) =~= seq![0x05u8, 0x07u8, 0u8, 0x01u8, 0u8, 0u8, 0u8, 0u8, 0u8, 0u8]);
    assert(reply(0x08u8) =~= seq![0x05u8, 0x08u8, 0u8, 0x01u8, 0u8, 0u8, 0u8, 0u8, 0u8, 0u8]);
}

/// A request is accepted exactly when it is a complete CONNECT request for
/// an IPv4 address or a UTF-8 domain name, and what is accepted repeats the
/// envelope's bytes and keeps a domain name within its single length byte.
pub proof fn accepted_requests(msg: Seq<u8>)
    ensures
        parse_request(msg).is_ok() <==> msg.len() >= ENVELOPE_LEN && msg[1] == CMD_CONNECT
            && is_complete(msg) && (msg[3] == ATYP_DOMAIN ==> valid_utf8(domain_bytes(msg))),
        parse_request(msg).is_ok() ==> {
            let request = parse_request(msg).unwrap();
            &&& request.ver == msg[0]
            &&& request.cmd == CMD_CONNECT
            &&& request.atype == msg[3]
            &&& request.dst_addr.wf()
        },
{
    if parse_request(msg).is_ok() && msg[3] == ATYP_DOMAIN {
        let raw = domain_bytes(msg);
        decode_utf8_encode_utf8(raw);
    }
}

/// A domain request that one read into the message buffer brought whole
/// names a domain of 25 bytes at most: the envelope, the length byte and the
/// port take the other seven. A longer name is cut off by the read, and its
/// request is refused as a protocol violation.
pub proof fn message_buffer_bounds_domain(msg: Seq<u8>)
    requires
        msg.len() <= MESSAGE_BUFFER_LEN,
        parse_request(msg).is_ok(),
        parse_request(msg).unwrap().atype == ATYP_DOMAIN,
    ensures
        domain_bytes(msg).len() == msg[4],
        domain_bytes(msg).len() <= MESSAGE_BUFFER_LEN - 7,
{
}

/// A failed connect is answered with `05 04 00 01 00 00 00 00 00 00`, a
/// successful one with `05 00 00 01 00 00 00 00 00 00`.
pub proof fn connect_replies()
    ensures
        connect_outcome(true) == Ok::<Seq<u8>, S5Error>(
            seq![0x05u8, 0x00u8, 0u8, 0x01u8, 0u8, 0u8, 0u8, 0u8, 0u8, 0u8],
        ),
        connect_outcome(false) == Err::<Seq<u8>, S5Error>(S5Error::UpstreamUnreachable),
        S5Error::UpstreamUnreachable.spec_reply() == Some(
            seq![0x05u8, 0x04u8, 0u8, 0x01u8, 0u8, 0u8, 0u8, 0u8, 0u8, 0u8],
        ),
{
    assert(reply(0x00u8) =~= seq![0x05u8, 0x00u8, 0u8, 0x01u8, 0u8, 0u8, 0u8, 0u8, 0u8, 0u8]);
    assert(reply(0x04u8) =~= seq![0x05u8, 0x04u8, 0u8, 0x01u8, 0u8, 0u8, 0u8, 0u8, 0u8, 0u8]);
}

} // verus!
