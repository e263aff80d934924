//! The ways in which a connection ends before or instead of relaying.

use vstd::prelude::*;
use crate::wire::{
    reply, reply_bytes, REP_ADDRESS_TYPE_NOT_SUPPORTED, REP_COMMAND_NOT_SUPPORTED,
    REP_HOST_UNREACHABLE,
};

verus! {

/// Why a connection was given up.
#[derive(Clone, Copy, Debug, PartialEq, Eq, Structural)]
pub enum S5Error {
    /// The peer sent bytes that are no SOCKS5 message: a wrong version
    /// marker, or a message shorter than its own fields declare.
    ProtocolViolation,
    /// The request names a command other than CONNECT.
    UnsupportedCommand,
    /// The request names an address type other than IPv4 or domain name.
    UnsupportedAddressType,
    /// The connect to the destination failed.
    UpstreamUnreachable,
    /// A read or a write on a stream failed.
    IoFailure,
    /// A peer did not answer within the time allowed.
    Timeout,
}

impl S5Error {
    /// The reply code that tells the client of this error, where the
    /// protocol has one. A violation of the protocol, a failed read or write
    /// and a timeout close the connection without a word.
    pub open spec fn spec_reply_code(self) -> Option<u8> {
        match self {
            S5Error::UnsupportedCommand => Some(REP_COMMAND_NOT_SUPPORTED),
            S5Error::UnsupportedAddressType => Some(REP_ADDRESS_TYPE_NOT_SUPPORTED),
            S5Error::UpstreamUnreachable => Some(REP_HOST_UNREACHABLE),
            S5Error::ProtocolViolation => None,
            S5Error::IoFailure => None,
            S5Error::Timeout => None,
        }
    }

    /// The ten bytes sent to the client before closing, if any are.
    pub open spec fn spec_reply(self) -> Option<Seq<u8>> {
        match self.spec_reply_code() {
            Some(code) => Some(reply(code)),
            None => None,
        }
    }

    /// The reply code that tells the client of this error, if there is one.
    pub fn reply_code(&self) -> (code: Option<u8>)
        ensures
            code == self.spec_reply_code(),
    {
        match self {
            S5Error::UnsupportedCommand => Some(REP_COMMAND_NOT_SUPPORTED),
            S5Error::UnsupportedAddressType => Some(REP_ADDRESS_TYPE_NOT_SUPPORTED),
            S5Error::UpstreamUnreachable => Some(REP_HOST_UNREACHABLE),
            S5Error::ProtocolViolation => None,
            S5Error::IoFailure => None,
            S5Error::Timeout => None,
        }
    }

    /// The reply to send to the client before closing, if there is one.
    pub fn reply(&self) -> (out: Option<Vec<u8>>)
        ensures
            out.is_some() == self.spec_reply().is_some(),
            out.is_some() ==> out.unwrap()@ == self.spec_reply().unwrap(),
    {
        match self.reply_code() {
            Some(code) => Some(reply_bytes(code)),
            None => None,
        }
    }

    /// A short description for a log line.
    pub fn describe(&self) -> (text: &'static str)
        ensures
            text@ == self.spec_describe(),
    {
        match self {
            S5Error::ProtocolViolation => "protocol violation",
            S5Error::UnsupportedCommand => "unsupported command",
            S5Error::UnsupportedAddressType => "unsupported address type",
            S5Error::UpstreamUnreachable => "upstream unreachable",
            S5Error::IoFailure => "i/o failure",
            S5Error::Timeout => "timeout",
        }
    }

    /// The text of `describe`.
    pub open spec fn spec_describe(self) -> Seq<char> {
        match self {
            S5Error::ProtocolViolation => "protocol violation"@,
            S5Error::UnsupportedCommand => "unsupported command"@,
            S5Error::UnsupportedAddressType => "unsupported address type"@,
            S5Error::UpstreamUnreachable => "upstream unreachable"@,
            S5Error::IoFailure => "i/o failure"@,
            S5Error::Timeout => "timeout"@,
        }
    }
}

} // verus!
