//! Texts: decimal numbers, addresses, and what `rcgen` and `openssl` take.
use vstd::prelude::*;

use crate::openssl_api;
use crate::rcgen_api;

verus! {

/// The character of a digit.
pub open spec fn digit(d: int) -> char {
    (48 + d) as char
}

/// A number in decimal, without leading zeros.
pub open spec fn decimal_natural(n: nat) -> Seq<char>
    decreases n,
{
    if n < 10 {
        seq![digit(n as int)]
    } else {
        decimal_natural(n / 10).push(digit((n % 10) as int))
    }
}

/// An integer in decimal, with a minus sign before a negative one.
pub open spec fn decimal(n: int) -> Seq<char> {
    if n < 0 {
        seq!['-'] + decimal_natural((-n) as nat)
    } else {
        decimal_natural(n as nat)
    }
}

/// The address of an authority's revocation list.
pub open spec fn crl_address(base: Seq<char>, ca_id: i64) -> Seq<char> {
    base + "/crl/crl-"@ + decimal(ca_id as int) + ".crl"@
}

/// The text of a digit.
fn digit_text(d: u64) -> (s: &'static str)
    requires
        d < 10,
    ensures
        s@ == seq![digit(d as int)],
{
    proof {
        reveal_strlit("0");
        reveal_strlit("1");
        reveal_strlit("2");
        reveal_strlit("3");
        reveal_strlit("4");
        reveal_strlit("5");
        reveal_strlit("6");
        reveal_strlit("7");
        reveal_strlit("8");
        reveal_strlit("9");
    }
    let s = match d {
        0 => "0",
        1 => "1",
        2 => "2",
        3 => "3",
        4 => "4",
        5 => "5",
        6 => "6",
        7 => "7",
        8 => "8",
        _ => "9",
    };
    assert(s@ =~= seq![digit(d as int)]);
    s
}

/// The decimal text of a number.
fn natural_text(n: u64) -> (s: String)
    ensures
        s@ == decimal_natural(n as nat),
    decreases n,
{
    let mut s: String = if n < 10 {
        String::new()
    } else {
        natural_text(n / 10)
    };
    s.append(digit_text(n % 10));
    assert(s@ =~= decimal_natural(n as nat));
    s
}

/// The decimal text of an integer.
pub fn integer_text(n: i64) -> (s: String)
    ensures
        s@ == decimal(n as int),
{
    if n < 0 {
        let magnitude: i128 = -(n as i128);
        let mut s: String = "-".to_owned();
        s.append(natural_text(magnitude as u64).as_str());
        proof {
            reveal_strlit("-");
        }
        assert("-"@ =~= seq!['-']);
        s
    } else {
        natural_text(n as u64)
    }
}

/// The address of the revocation list of the authority with this number.
pub fn crl_uri(base: &str, ca_id: i64) -> (uri: String)
    ensures
        uri@ == crl_address(base@, ca_id),
{
    let mut uri: String = base.to_owned();
    uri.append("/crl/crl-");
    uri.append(integer_text(ca_id).as_str());
    uri.append(".crl");
    uri
}

/// The decimal text of a number is ASCII.
proof fn lemma_natural_ascii(n: nat)
    ensures
        rcgen_api::is_ascii(decimal_natural(n)),
    decreases n,
{
    if n >= 10 {
        lemma_natural_ascii(n / 10);
    }
}

/// The address of a revocation list is ASCII if its base is.
pub proof fn lemma_crl_address_ascii(base: Seq<char>, ca_id: i64)
    requires
        rcgen_api::is_ascii(base),
    ensures
        rcgen_api::is_ascii(crl_address(base, ca_id)),
{
    reveal_strlit("/crl/crl-");
    reveal_strlit(".crl");
    let n = ca_id as int;
    lemma_natural_ascii(if n < 0 {
        (-n) as nat
    } else {
        n as nat
    });
    assert(rcgen_api::is_ascii(decimal(n)));
}

/// Whether a text has no NUL in it.
pub fn has_no_nul(s: &str) -> (r: bool)
    ensures
        r == openssl_api::no_nul(s@),
{
    for c in iter: s.chars()
        invariant
            iter.seq() == s@,
            forall|i: int| 0 <= i < iter.index() ==> s@[i] != '\0',
    {
        if c == '\0' {
            return false;
        }
    }
    true
}

/// Whether a text has so many bytes of UTF-8 at most as 31 bits can count.
pub fn has_31_bit_length(s: &str) -> (r: bool)
    ensures
        r == (openssl_api::utf8_len(s@) <= i32::MAX),
{
    s.as_bytes().len() <= i32::MAX as usize
}

/// Whether a DNS name fits into a string of `openssl`.
pub fn does_fit_asn1(s: &str) -> (r: bool)
    ensures
        r == openssl_api::fits_asn1(s@),
{
    s.as_bytes().len() < i32::MAX as usize - 1
}

}
