//! IP addresses as plain values, with the order that std documents for
//! `IpAddr`: every IPv4 address before every IPv6 address, and addresses
//! of one family by their bits.
use vstd::prelude::*;

verus! {

/// An IP address: an IPv4 address as its 32 bits, an IPv6 address as its
/// 128 bits, both read big-endian.
#[derive(Clone, Copy, Debug, PartialEq, Eq, Structural)]
pub enum IpValue {
    V4(u32),
    V6(u128),
}

/// The canonical strict order on addresses: family first, then bits.
pub open spec fn ip_lt(a: IpValue, b: IpValue) -> bool {
    match (a, b) {
        (IpValue::V4(x), IpValue::V4(y)) => x < y,
        (IpValue::V4(_), IpValue::V6(_)) => true,
        (IpValue::V6(_), IpValue::V4(_)) => false,
        (IpValue::V6(x), IpValue::V6(y)) => x < y,
    }
}

pub proof fn lemma_ip_lt_irreflexive(a: IpValue)
    ensures
        !ip_lt(a, a),
{
}

pub proof fn lemma_ip_lt_asymmetric(a: IpValue, b: IpValue)
    requires
        ip_lt(a, b),
    ensures
        !ip_lt(b, a),
{
}

pub proof fn lemma_ip_lt_total(a: IpValue, b: IpValue)
    requires
        a != b,
    ensures
        ip_lt(a, b) || ip_lt(b, a),
{
}

pub proof fn lemma_ip_lt_transitive(a: IpValue, b: IpValue, c: IpValue)
    requires
        ip_lt(a, b),
        ip_lt(b, c),
    ensures
        ip_lt(a, c),
{
}

/// Compares two addresses in the canonical order.
pub fn ip_less(a: &IpValue, b: &IpValue) -> (r: bool)
    ensures
        r == ip_lt(*a, *b),
{
    match (a, b) {
        (IpValue::V4(x), IpValue::V4(y)) => *x < *y,
        (IpValue::V4(_), IpValue::V6(_)) => true,
        (IpValue::V6(_), IpValue::V4(_)) => false,
        (IpValue::V6(x), IpValue::V6(y)) => *x < *y,
    }
}

/// The address that `IpAddr`'s `FromStr` reads from a text, if any.
pub uninterp spec fn ip_of_text(s: Seq<char>) -> Option<IpValue>;

/// The text that `IpAddr`'s `Display` writes for an address.
pub uninterp spec fn text_of_ip(ip: IpValue) -> Seq<char>;

/// Relies on `FromStr` for `core::net::IpAddr`: reads an IPv4 or IPv6
/// address text, a function of the text alone; the bits come from
/// `u32::from(Ipv4Addr)` and `u128::from(Ipv6Addr)`.
#[verifier::external_body]
fn parse_ip(s: &str) -> (r: Option<IpValue>)
    ensures
        r == ip_of_text(s@),
{
    match s.parse::<core::net::IpAddr>() {
        Ok(core::net::IpAddr::V4(a)) => Some(IpValue::V4(u32::from(a))),
        Ok(core::net::IpAddr::V6(a)) => Some(IpValue::V6(u128::from(a))),
        Err(_) => None,
    }
}

/// Relies on `Display` for `core::net::IpAddr`: the address's text, a
/// function of the address alone.
#[verifier::external_body]
fn ip_text(ip: IpValue) -> (r: String)
    ensures
        r@ == text_of_ip(ip),
{
    match ip {
        IpValue::V4(b) => core::net::IpAddr::V4(core::net::Ipv4Addr::from(b)).to_string(),
        IpValue::V6(b) => core::net::IpAddr::V6(core::net::Ipv6Addr::from(b)).to_string(),
    }
}

impl IpValue {
    /// Reads an IPv4 or IPv6 address text.
    pub fn parse(s: &str) -> (r: Option<IpValue>)
        ensures
            r == ip_of_text(s@),
    {
        parse_ip(s)
    }

    /// The address in its usual text form.
    pub fn to_text(&self) -> (r: String)
        ensures
            r@ == text_of_ip(*self),
    {
        ip_text(*self)
    }
}

} // verus!
