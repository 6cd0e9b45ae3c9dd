//! Public addresses of the two families, held as plain numbers.

use vstd::prelude::*;
use vstd::string::StringExecFns;
use crate::text::{decimal, push_decimal};

verus! {

/// The two address families a record can be kept for.
#[derive(Clone, Copy, Debug, PartialEq, Eq, Structural)]
pub enum Family {
    V4,
    V6,
}

/// An IPv4 address, by its four octets in network order.
#[derive(Clone, Copy, Debug, PartialEq, Eq, Structural)]
pub struct Ipv4Address {
    pub a: u8,
    pub b: u8,
    pub c: u8,
    pub d: u8,
}

/// An IPv6 address, by its 128 bits in network order.
#[derive(Clone, Copy, Debug, PartialEq, Eq, Structural)]
pub struct Ipv6Address {
    pub bits: u128,
}

/// A discovered public address of either family.
#[derive(Clone, Copy, Debug, PartialEq, Eq, Structural)]
pub enum Address {
    V4(Ipv4Address),
    V6(Ipv6Address),
}

/// The dotted-decimal text of an IPv4 address.
pub open spec fn dotted(addr: Ipv4Address) -> Seq<char> {
    decimal(addr.a as nat) + seq!['.'] + decimal(addr.b as nat) + seq!['.'] + decimal(
        addr.c as nat,
    ) + seq!['.'] + decimal(addr.d as nat)
}

impl Ipv4Address {
    pub fn new(a: u8, b: u8, c: u8, d: u8) -> (r: Self)
        ensures
            r == (Ipv4Address { a, b, c, d }),
    {
        Ipv4Address { a, b, c, d }
    }

    /// The address in dotted-decimal notation, as a record value carries it.
    pub fn to_text(&self) -> (r: String)
        ensures
            r@ == dotted(*self),
    {
        proof {
            reveal_strlit(".");
        }
        let mut out = String::new();
        push_decimal(&mut out, self.a as u64);
        out.append(".");
        push_decimal(&mut out, self.b as u64);
        out.append(".");
        push_decimal(&mut out, self.c as u64);
        out.append(".");
        push_decimal(&mut out, self.d as u64);
        assert("."@ =~= seq!['.']);
        assert(out@ =~= dotted(*self));
        out
    }
}

impl Ipv6Address {
    pub fn new(bits: u128) -> (r: Self)
        ensures
            r == (Ipv6Address { bits }),
    {
        Ipv6Address { bits }
    }
}

impl Address {
    /// The family an address belongs to.
    pub open spec fn spec_family(self) -> Family {
        match self {
            Address::V4(_) => Family::V4,
            Address::V6(_) => Family::V6,
        }
    }

    #[verifier::when_used_as_spec(spec_family)]
    pub fn family(self) -> (r: Family)
        ensures
            r == self.spec_family(),
    {
        match self {
            Address::V4(_) => Family::V4,
            Address::V6(_) => Family::V6,
        }
    }
}

} // verus!
