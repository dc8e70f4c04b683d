//! The address an HTTP server binds to.

use vstd::prelude::*;
use crate::text::{decimal, decimal_string, digits_value, is_decimal_digit, lemma_decimal_round_trip};

verus! {

/// Where an HTTP server listens.
pub struct Config {
    pub host: String,
    pub port: u16,
}

/// The text `host:port` with the port in decimal.
pub open spec fn address_text(host: Seq<char>, port: u16) -> Seq<char> {
    host + seq![':'] + decimal(port as nat)
}

/// The address to resolve for `config`, as `format!("{}:{}", host, port)`
/// renders it.
pub fn bind_address(config: &Config) -> (addr: String)
    ensures
        addr@ == address_text(config.host@, config.port),
{
    let mut addr = config.host.clone();
    proof { reveal_strlit(":"); }
    addr.append(":");
    let port = decimal_string(config.port as u64);
    addr.append(port.as_str());
    addr
}

/// Why no address could be chosen.
#[derive(Debug, PartialEq, Eq, Structural)]
pub enum AddressError {
    /// The host and port resolved to no socket address.
    Unresolved,
}

impl AddressError {
    /// The error message: `Error parsing bind host/port`.
    pub fn message(&self) -> (m: String)
        ensures
            m@ == "Error parsing bind host/port"@,
    {
        String::from_str("Error parsing bind host/port")
    }
}

/// Chooses the address to bind among those the host and port resolved to:
/// the first one, or an error when there is none.
pub fn first_address<A>(resolved: Vec<A>) -> (r: Result<A, AddressError>)
    ensures
        resolved@.len() == 0 ==> r == Err::<A, AddressError>(AddressError::Unresolved),
        resolved@.len() > 0 ==> r == Ok::<A, AddressError>(resolved@[0]),
{
    let mut resolved = resolved;
    if resolved.len() == 0 {
        Err(AddressError::Unresolved)
    } else {
        Ok(resolved.remove(0))
    }
}

/// Law: the address text is the host, a `:`, and the port's decimal
/// digits, which read back as the port.
pub proof fn lemma_address_text_parts(host: Seq<char>, port: u16)
    ensures
        address_text(host, port).subrange(0, host.len() as int) == host,
        address_text(host, port)[host.len() as int] == ':',
        digits_value(address_text(host, port).subrange(host.len() as int + 1, address_text(host, port).len() as int), 10) == port,
        forall|i: int| host.len() < i < address_text(host, port).len()
            ==> is_decimal_digit(#[trigger] address_text(host, port)[i]),
        address_text(host, port).len() > host.len() + 1,
{
    lemma_decimal_round_trip(port as nat);
    let s = address_text(host, port);
    let d = decimal(port as nat);
    assert(s.subrange(0, host.len() as int) =~= host);
    assert(s.subrange(host.len() as int + 1, s.len() as int) =~= d);
    assert forall|i: int| host.len() < i < s.len() implies is_decimal_digit(#[trigger] s[i]) by {
        assert(s[i] == d[i - host.len() - 1]);
    }
}

/// Law: the address text determines the host and the port: two
/// configurations render the same text only when they have the same host
/// and the same port.
pub proof fn lemma_address_text_injective(host1: Seq<char>, port1: u16, host2: Seq<char>, port2: u16)
    requires
        address_text(host1, port1) == address_text(host2, port2),
    ensures
        host1 == host2,
        port1 == port2,
{
    lemma_decimal_round_trip(port1 as nat);
    lemma_decimal_round_trip(port2 as nat);
    let s = address_text(host1, port1);
    let d1 = decimal(port1 as nat);
    let d2 = decimal(port2 as nat);
    let a1 = host1 + seq![':'];
    let a2 = host2 + seq![':'];
    assert(s == a1 + d1);
    assert(s == a2 + d2);
    assert(a1[host1.len() as int] == ':');
    assert(a2[host2.len() as int] == ':');
    if host1.len() < host2.len() {
        // The separator of the second rendering falls on a digit of the first.
        let i = host2.len() as int;
        assert(s[i] == a2[i]);
        assert(s[i] == d1[i - a1.len()]);
        assert(is_decimal_digit(d1[i - a1.len()]));
    } else if host2.len() < host1.len() {
        let i = host1.len() as int;
        assert(s[i] == a1[i]);
        assert(s[i] == d2[i - a2.len()]);
        assert(is_decimal_digit(d2[i - a2.len()]));
    }
    assert(host1 =~= s.subrange(0, host1.len() as int));
    assert(host2 =~= s.subrange(0, host2.len() as int));
    assert(d1 =~= s.subrange(host1.len() as int + 1, s.len() as int));
    assert(d2 =~= s.subrange(host2.len() as int + 1, s.len() as int));
}

} // verus!
