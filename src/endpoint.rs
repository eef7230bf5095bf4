//! Endpoints: a host name and a 16-bit port.
use vstd::prelude::*;
use vstd::string::*;
use crate::error::{kind_of, ErrorKind, SocketError, Step};

verus! {

/// The largest port number.
pub const MAX_PORT: i64 = 65535;

/// Whether an integer names a port.
pub open spec fn is_port(value: int) -> bool {
    0 <= value <= MAX_PORT
}

/// Converts an integer to a port, refusing values outside `0..=65535`.
pub fn port_from_int(value: i64) -> (r: Result<u16, SocketError>)
    ensures
        is_port(value as int) <==> r is Ok,
        r is Ok ==> r->Ok_0 as int == value as int,
        r is Err ==> r->Err_0.step == Step::InvalidPort && kind_of(r->Err_0.step)
            == ErrorKind::InvalidArgument,
{
    if 0 <= value && value <= MAX_PORT {
        Ok(value as u16)
    } else {
        Err(SocketError::new(Step::InvalidPort, String::from_str("out of range integral type conversion attempted")))
    }
}

} // verus!
verus! {

/// A host name and a port, before name resolution.
#[derive(Debug)]
pub struct Endpoint {
    pub host: String,
    pub port: u16,
}

/// The decimal digit character for `d < 10`.
pub open spec fn digit_char(d: nat) -> char {
    ((d + '0' as nat) as u8) as char
}

/// The decimal notation of a natural number, without leading zeros.
pub open spec fn decimal(n: nat) -> Seq<char>
    decreases n,
{
    if n < 10 {
        seq![digit_char(n)]
    } else {
        decimal(n / 10).push(digit_char(n % 10))
    }
}

/// The text `host:port` that name resolution is asked about.
pub open spec fn address_text_of(host: Seq<char>, port: u16) -> Seq<char> {
    host + seq![':'] + decimal(port as nat)
}

fn digit_str(d: u16) -> (r: &'static str)
    requires
        d < 10,
    ensures
        r@ == seq![digit_char(d as nat)],
{
    proof {
        reveal_strlit("0");
        reveal_strlit("1");
        reveal_strlit("2");
        reveal_strlit("3");
        reveal_strlit("4");
        reveal_strlit("5");
        reveal_strlit("6");
        reveal_strlit("7");
        reveal_strlit("8");
        reveal_strlit("9");
    }
    let r = match d {
        0 => "0",
        1 => "1",
        2 => "2",
        3 => "3",
        4 => "4",
        5 => "5",
        6 => "6",
        7 => "7",
        8 => "8",
        _ => "9",
    };
    assert(r@ =~= seq![digit_char(d as nat)]);
    r
}

fn push_decimal(out: &mut String, n: u16)
    ensures
        final(out)@ == old(out)@ + decimal(n as nat),
    decreases n,
{
    if n >= 10 {
        push_decimal(out, n / 10);
    }
    out.append(digit_str(n % 10));
    assert(final(out)@ =~= old(out)@ + decimal(n as nat));
}

impl Endpoint {
    /// An endpoint for `host` and an integer port, refused when the port is
    /// outside `0..=65535`.
    pub fn new(host: String, port: i64) -> (r: Result<Endpoint, SocketError>)
        ensures
            is_port(port as int) <==> r is Ok,
            r is Ok ==> r->Ok_0.host@ == host@ && r->Ok_0.port as int == port as int,
            r is Err ==> r->Err_0.step == Step::InvalidPort,
    {
        match port_from_int(port) {
            Ok(p) => Ok(Endpoint { host, port: p }),
            Err(e) => Err(e),
        }
    }

    /// The text `host:port`.
    pub fn address_text(&self) -> (r: String)
        ensures
            r@ == address_text_of(self.host@, self.port),
    {
        let mut r = self.host.clone();
        proof {
            reveal_strlit(":");
        }
        r.append(":");
        push_decimal(&mut r, self.port);
        assert(r@ =~= address_text_of(self.host@, self.port));
        r
    }
}

/// The address that resolution yields: the first of the addresses found.
pub open spec fn chosen_address<A>(found: Seq<A>) -> Option<A> {
    if found.len() == 0 {
        None
    } else {
        Some(found[0])
    }
}

/// Picks the first resolved address; a failed resolution and an empty
/// result are errors.
pub fn first_address<A>(resolved: Result<Vec<A>, String>) -> (r: Result<A, SocketError>)
    ensures
        resolved is Err ==> r is Err && r->Err_0.step == Step::Resolve
            && r->Err_0.cause@ == resolved->Err_0@,
        resolved is Ok && resolved->Ok_0@.len() == 0 ==> r is Err && r->Err_0.step
            == Step::NoAddress,
        resolved is Ok && resolved->Ok_0@.len() > 0 ==> r is Ok && Some(r->Ok_0)
            == chosen_address(resolved->Ok_0@),
{
    match resolved {
        Err(cause) => Err(SocketError::new(Step::Resolve, cause)),
        Ok(mut found) => {
            if found.len() == 0 {
                Err(SocketError::new(Step::NoAddress, String::new()))
            } else {
                Ok(found.remove(0))
            }
        },
    }
}

/// Resolving the same endpoint twice, while resolution yields the addresses
/// in the same order, chooses the same address both times; only the first
/// address found matters.
pub proof fn lemma_first_address_stable<A>(first: Seq<A>, second: Seq<A>)
    requires
        first.len() > 0,
        second.len() > 0,
        first[0] == second[0],
    ensures
        chosen_address(first) == chosen_address(second),
        chosen_address(first) == Some(first[0]),
{
}

} // verus!
