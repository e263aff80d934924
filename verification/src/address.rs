//! Destinations: an IPv4 address or a domain name, a port, and the text by
//! which a transport connects to them.

use vstd::prelude::*;
use vstd::string::*;
use vstd::utf8::encode_utf8;

verus! {

/// The longest domain name, in bytes, that a request can carry: its length
/// travels in a single byte.
pub const MAX_DOMAIN_LEN: usize = 255;

/// The character of the decimal digit `d`.
pub open spec fn digit_char(d: int) -> char
    recommends
        0 <= d < 10,
{
    ((48 + d) as u8) as char
}

/// The decimal numeral of `n`, without sign or leading zeros.
pub open spec fn decimal(n: nat) -> Seq<char>
    decreases n,
{
    if n < 10 {
        seq![digit_char(n as int)]
    } else {
        decimal(n / 10).push(digit_char((n % 10) as int))
    }
}

/// The number that a sequence of decimal digits stands for, read from the
/// left.
pub open spec fn decimal_value(digits: Seq<char>) -> nat
    decreases digits.len(),
{
    if digits.len() == 0 {
        0
    } else {
        (decimal_value(digits.drop_last()) * 10 + (digits.last() as u8 - 48)) as nat
    }
}

/// The numeral of `n` is made of decimal digits alone, opens with a zero
/// only for zero itself, and reads back as `n`.
pub proof fn decimal_reads_back(n: nat)
    ensures
        decimal(n).len() >= 1,
        forall|i: int| 0 <= i < decimal(n).len() ==> '0' <= #[trigger] decimal(n)[i] <= '9',
        decimal(n)[0] == '0' <==> n == 0,
        decimal_value(decimal(n)) == n,
    decreases n,
{
    if n < 10 {
        let digits = decimal(n);
        assert(digits.drop_last().len() == 0);
        assert(decimal_value(digits.drop_last()) == 0);
    } else {
        decimal_reads_back(n / 10);
        let front = decimal(n / 10);
        let digits = decimal(n);
        assert(digits.drop_last() =~= front);
        assert(digits.last() == digit_char((n % 10) as int));
        assert(digits[0] == front[0]);
    }
}

/// The dotted-quad text of an IPv4 address.
pub open spec fn dotted_quad(a: u8, b: u8, c: u8, d: u8) -> Seq<char> {
    decimal(a as nat) + seq!['.'] + decimal(b as nat) + seq!['.'] + decimal(c as nat) + seq!['.']
        + decimal(d as nat)
}

/// A destination address.
#[derive(Clone, Debug, PartialEq, Eq)]
pub enum S5Addr {
    /// The four octets of an IPv4 address, first octet first.
    IPv4(u8, u8, u8, u8),
    /// A domain name, left to the transport to resolve.
    Domain(String),
}

/// What an address is: its octets, or the characters of its name.
pub enum AddrView {
    IPv4(u8, u8, u8, u8),
    Domain(Seq<char>),
}

impl AddrView {
    /// The host part of the connect target.
    pub open spec fn host(self) -> Seq<char> {
        match self {
            AddrView::IPv4(a, b, c, d) => dotted_quad(a, b, c, d),
            AddrView::Domain(name) => name,
        }
    }

    /// A domain name must fit the single length byte of the wire format.
    pub open spec fn wf(self) -> bool {
        match self {
            AddrView::IPv4(_, _, _, _) => true,
            AddrView::Domain(name) => encode_utf8(name).len() <= MAX_DOMAIN_LEN,
        }
    }
}

impl View for S5Addr {
    type V = AddrView;

    open spec fn view(&self) -> AddrView {
        match self {
            S5Addr::IPv4(a, b, c, d) => AddrView::IPv4(*a, *b, *c, *d),
            S5Addr::Domain(name) => AddrView::Domain(name@),
        }
    }
}

/// A request to connect, as decoded from the wire.
#[derive(Clone, Debug, PartialEq, Eq)]
pub struct S5Request {
    /// The version byte that the client sent.
    pub ver: u8,
    /// The command code.
    pub cmd: u8,
    /// The address type code.
    pub atype: u8,
    /// The destination address.
    pub dst_addr: S5Addr,
    /// The destination port.
    pub dst_port: u16,
}

/// What a request is, with its address by view.
pub struct RequestView {
    pub ver: u8,
    pub cmd: u8,
    pub atype: u8,
    pub dst_addr: AddrView,
    pub dst_port: u16,
}

impl RequestView {
    /// The connect target: the host, a colon, and the port in decimal.
    pub open spec fn addr_string(self) -> Seq<char> {
        self.dst_addr.host() + seq![':'] + decimal(self.dst_port as nat)
    }
}

impl View for S5Request {
    type V = RequestView;

    open spec fn view(&self) -> RequestView {
        RequestView {
            ver: self.ver,
            cmd: self.cmd,
            atype: self.atype,
            dst_addr: self.dst_addr@,
            dst_port: self.dst_port,
        }
    }
}

/// The one-character text of the decimal digit `d`.
fn digit_str(d: u16) -> (text: &'static str)
    requires
        d < 10,
    ensures
        text@ == seq![digit_char(d as int)],
{
    proof {
        reveal_strlit("0");
        reveal_strlit("1");
        reveal_strlit("2");
        reveal_strlit("3");
        reveal_strlit("4");
        reveal_strlit("5");
        reveal_strlit("6");
        reveal_strlit("7");
        reveal_strlit("8");
        reveal_strlit("9");
    }
    let text = match d {
        0 => "0",
        1 => "1",
        2 => "2",
        3 => "3",
        4 => "4",
        5 => "5",
        6 => "6",
        7 => "7",
        8 => "8",
        _ => "9",
    };
    assert(text@ =~= seq![digit_char(d as int)]);
    text
}

/// Appends the decimal numeral of `n` to `out`.
fn push_decimal(out: &mut String, n: u16)
    ensures
        final(out)@ == old(out)@ + decimal(n as nat),
    decreases n,
{
    if n >= 10 {
        push_decimal(out, n / 10);
    }
    out.append(digit_str(n % 10));
    assert(final(out)@ =~= old(out)@ + decimal(n as nat));
}

/// Appends `.` to `out`.
fn push_dot(out: &mut String)
    ensures
        final(out)@ == old(out)@ + seq!['.'],
{
    proof {
        reveal_strlit(".");
    }
    out.append(".");
    assert(final(out)@ =~= old(out)@ + seq!['.']);
}

/// Appends `:` to `out`.
fn push_colon(out: &mut String)
    ensures
        final(out)@ == old(out)@ + seq![':'],
{
    proof {
        reveal_strlit(":");
    }
    out.append(":");
    assert(final(out)@ =~= old(out)@ + seq![':']);
}

impl S5Addr {
    /// Renders the host part of the connect target: the dotted quad of an
    /// IPv4 address, or the domain name as it stands.
    pub fn into_host_string(self) -> (host: String)
        ensures
            host@ == self@.host(),
    {
        match self {
            S5Addr::IPv4(a, b, c, d) => {
                let mut out = String::new();
                push_decimal(&mut out, a as u16);
                push_dot(&mut out);
                push_decimal(&mut out, b as u16);
                push_dot(&mut out);
                push_decimal(&mut out, c as u16);
                push_dot(&mut out);
                push_decimal(&mut out, d as u16);
                assert(out@ =~= dotted_quad(a, b, c, d));
                out
            },
            S5Addr::Domain(name) => name,
        }
    }
}

impl S5Request {
    /// Puts a request together from its five fields, each kept as given.
    pub fn new(ver: u8, cmd: u8, atype: u8, dst_addr: S5Addr, dst_port: u16) -> (req: S5Request)
        ensures
            req.ver == ver,
            req.cmd == cmd,
            req.atype == atype,
            req.dst_addr == dst_addr,
            req.dst_port == dst_port,
    {
        S5Request { ver, cmd, atype, dst_addr, dst_port }
    }

    /// Renders the connect target `host:port`. An IPv4 address is written as
    /// a dotted quad; a domain name is copied literally, unresolved.
    pub fn into_addr_string(self) -> (target: String)
        ensures
            target@ == self@.addr_string(),
    {
        let port: u16 = self.dst_port;
        let mut out = self.dst_addr.into_host_string();
        push_colon(&mut out);
        push_decimal(&mut out, port);
        out
    }
}

} // verus!
