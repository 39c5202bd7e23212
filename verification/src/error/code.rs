use vstd::prelude::*;

use crate::text::{digits_value, empty_string, fixed_digits, lemma_fixed_digits, pow10, push_fixed_digits};

verus! {

/// Largest domain or subdomain number.
pub const MAX_DOMAIN: u8 = 99;

/// Largest reason number.
pub const MAX_REASON: u16 = 999;

/// The packed code of (domain, subdomain, reason): `DDSSRRR` in decimal.
pub open spec fn pack_code(domain: nat, subdomain: nat, reason: nat) -> nat {
    domain * 100_000 + subdomain * 1_000 + reason
}

/// The domain digits (`DD`) of a packed code.
pub open spec fn code_domain(v: nat) -> nat {
    v / 100_000
}

/// The subdomain digits (`SS`) of a packed code.
pub open spec fn code_subdomain(v: nat) -> nat {
    (v / 1_000) % 100
}

/// The reason digits (`RRR`) of a packed code.
pub open spec fn code_reason(v: nat) -> nat {
    v % 1_000
}

/// A stable numeric error code: two decimal digits of domain, two of
/// subdomain and three of reason, `DDSSRRR`, so always below 10^7.
#[derive(Debug, Clone, Copy, PartialEq, Eq, PartialOrd, Ord, Hash, Structural)]
pub struct ErrorCode(u32);

impl View for ErrorCode {
    type V = nat;

    closed spec fn view(&self) -> nat {
        self.0 as nat
    }
}

impl ErrorCode {
    #[verifier::type_invariant]
    closed spec fn seven_digits(self) -> bool {
        self.0 < 10_000_000
    }

    /// Packs the three parts into one code. Each part must fit its digits.
    pub fn from_parts(domain: u8, subdomain: u8, reason: u16) -> (c: ErrorCode)
        requires
            domain <= MAX_DOMAIN,
            subdomain <= MAX_DOMAIN,
            reason <= MAX_REASON,
        ensures
            c@ == pack_code(domain as nat, subdomain as nat, reason as nat),
            code_domain(c@) == domain,
            code_subdomain(c@) == subdomain,
            code_reason(c@) == reason,
    {
        let v = (domain as u32) * 100_000 + (subdomain as u32) * 1_000 + reason as u32;
        proof {
            lemma_unpack(domain as nat, subdomain as nat, reason as nat);
        }
        ErrorCode(v)
    }

    /// The packed value.
    pub fn as_u32(self) -> (r: u32)
        ensures
            r == self@,
            r < 10_000_000,
    {
        proof {
            use_type_invariant(&self);
        }
        self.0
    }

    /// The domain part.
    pub fn domain(self) -> (r: u8)
        ensures
            r == code_domain(self@),
            r <= MAX_DOMAIN,
    {
        proof {
            use_type_invariant(&self);
        }
        (self.0 / 100_000) as u8
    }

    /// The subdomain part.
    pub fn subdomain(self) -> (r: u8)
        ensures
            r == code_subdomain(self@),
            r <= MAX_DOMAIN,
    {
        ((self.0 / 1_000) % 100) as u8
    }

    /// The reason part.
    pub fn reason(self) -> (r: u16)
        ensures
            r == code_reason(self@),
            r <= MAX_REASON,
    {
        (self.0 % 1_000) as u16
    }

    /// Renders the code as `Display` does: seven digits, zero-padded.
    pub fn to_string(&self) -> (s: String)
        ensures
            s@ == fixed_digits(self@, 7),
    {
        let mut s = empty_string();
        push_fixed_digits(&mut s, self.0 as u64, 7);
        assert(s@ =~= fixed_digits(self@, 7));
        s
    }
}

proof fn lemma_unpack(d: nat, s: nat, r: nat)
    requires
        d <= 99,
        s <= 99,
        r <= 999,
    ensures
        code_domain(pack_code(d, s, r)) == d,
        code_subdomain(pack_code(d, s, r)) == s,
        code_reason(pack_code(d, s, r)) == r,
        pack_code(d, s, r) < 10_000_000,
{
    let v = pack_code(d, s, r);
    vstd::arithmetic::div_mod::lemma_fundamental_div_mod_converse(
        v as int, 100_000, d as int, (s * 1_000 + r) as int);
    vstd::arithmetic::div_mod::lemma_fundamental_div_mod_converse(
        v as int, 1_000, (d * 100 + s) as int, r as int);
    vstd::arithmetic::div_mod::lemma_fundamental_div_mod_converse(
        (d * 100 + s) as int, 100, d as int, s as int);
}

/// The three parts of a code determine it, and every code below 10^7 is
/// packed from its own parts: packing and unpacking are inverse.
pub proof fn law_code_parts_roundtrip(domain: nat, subdomain: nat, reason: nat, v: nat)
    requires
        domain <= 99,
        subdomain <= 99,
        reason <= 999,
        v < 10_000_000,
    ensures
        code_domain(pack_code(domain, subdomain, reason)) == domain,
        code_subdomain(pack_code(domain, subdomain, reason)) == subdomain,
        code_reason(pack_code(domain, subdomain, reason)) == reason,
        pack_code(code_domain(v), code_subdomain(v), code_reason(v)) == v,
        code_domain(v) <= 99,
{
    lemma_unpack(domain, subdomain, reason);
    let q = v / 1_000;
    vstd::arithmetic::div_mod::lemma_fundamental_div_mod(v as int, 1_000);
    vstd::arithmetic::div_mod::lemma_fundamental_div_mod(q as int, 100);
    vstd::arithmetic::div_mod::lemma_div_denominator(v as int, 1_000, 100);
}

/// Distinct part triples give distinct codes.
pub proof fn law_code_packing_injective(d1: nat, s1: nat, r1: nat, d2: nat, s2: nat, r2: nat)
    requires
        d1 <= 99,
        s1 <= 99,
        r1 <= 999,
        d2 <= 99,
        s2 <= 99,
        r2 <= 999,
        pack_code(d1, s1, r1) == pack_code(d2, s2, r2),
    ensures
        d1 == d2,
        s1 == s2,
        r1 == r2,
{
    lemma_unpack(d1, s1, r1);
    lemma_unpack(d2, s2, r2);
}

/// The seven-digit text of a code is lossless: it has seven decimal digits
/// and reading them back gives the code.
pub proof fn law_code_text_roundtrip(v: nat)
    requires
        v < 10_000_000,
    ensures
        fixed_digits(v, 7).len() == 7,
        digits_value(fixed_digits(v, 7)) == v,
{
    lemma_fixed_digits(v, 7);
    assert(pow10(7) == 10_000_000) by {
        reveal_with_fuel(pow10, 8);
    }
    vstd::arithmetic::div_mod::lemma_small_mod(v, 10_000_000);
}

} // verus!
