//! Texts: numbers in decimal and the addresses of revocation lists.
use vstd::prelude::*;

use crate::model;
use crate::model::CertError;
use crate::text;

verus! {

/// The number that digits stand for.
pub open spec fn number_of(digits: Seq<char>) -> int
    decreases digits.len(),
{
    if digits.len() == 0 {
        0
    } else {
        number_of(digits.drop_last()) * 10 + (digits.last() as int - '0' as int)
    }
}

/// The text is a natural number in decimal: digits without a leading zero that stand for it.
pub open spec fn is_natural_text(digits: Seq<char>, n: int) -> bool {
    &&& digits.len() > 0
    &&& forall|i: int| 0 <= i < digits.len() ==> '0' <= #[trigger] digits[i] <= '9'
    &&& digits.len() > 1 ==> digits[0] != '0'
    &&& number_of(digits) == n
}

/// The text is an integer in decimal, with a minus sign before a negative one.
pub open spec fn is_integer_text(s: Seq<char>, n: int) -> bool {
    if n < 0 {
        s.len() > 0 && s[0] == '-' && is_natural_text(s.drop_first(), -n)
    } else {
        is_natural_text(s, n)
    }
}

/// The text is the address of the revocation list of the authority with this number: the base,
/// `/crl/crl-`, the number in decimal, and `.crl`.
pub open spec fn is_list_address(address: Seq<char>, base: Seq<char>, ca_id: int) -> bool {
    exists|number: Seq<char>| #[trigger]
        is_integer_text(number, ca_id) && address == base + "/crl/crl-"@ + number + ".crl"@
}

/// A natural number in decimal has its digits without a leading zero.
pub proof fn lemma_decimal_natural(n: nat)
    ensures
        is_natural_text(text::decimal_natural(n), n as int),
        n > 0 ==> text::decimal_natural(n)[0] != '0',
    decreases n,
{
    let digits = text::decimal_natural(n);
    if n < 10 {
        assert(digits.drop_last() =~= Seq::empty());
        assert(number_of(digits.drop_last()) == 0);
    } else {
        lemma_decimal_natural(n / 10);
        assert(digits.drop_last() =~= text::decimal_natural(n / 10));
        assert(digits[0] == text::decimal_natural(n / 10)[0]);
        assert forall|i: int| 0 <= i < digits.len() implies '0' <= #[trigger] digits[i] <= '9' by {
            if i < digits.len() - 1 {
                assert(digits[i] == text::decimal_natural(n / 10)[i]);
            }
        }
    }
}

/// What `integer_text` writes is the integer in decimal.
pub proof fn lemma_decimal(n: int)
    ensures
        is_integer_text(text::decimal(n), n),
{
    if n < 0 {
        lemma_decimal_natural((-n) as nat);
        assert(text::decimal(n).drop_first() =~= text::decimal_natural((-n) as nat));
    } else {
        lemma_decimal_natural(n as nat);
    }
}

/// The address of a revocation list is put together from the base and the authority's number.
pub proof fn lemma_list_address(base: Seq<char>, ca_id: i64)
    ensures
        is_list_address(text::crl_address(base, ca_id), base, ca_id as int),
{
    lemma_decimal(ca_id as int);
    assert(is_integer_text(text::decimal(ca_id as int), ca_id as int));
}

/// Different integers have different texts.
pub proof fn lemma_texts_of_integers_differ(one: int, other: int)
    requires
        text::decimal(one) == text::decimal(other),
    ensures
        one == other,
{
    lemma_decimal(one);
    lemma_decimal(other);
}

/// The text begins with these words.
pub open spec fn begins_with(text: Seq<char>, words: Seq<char>) -> bool {
    text.len() >= words.len() && text.take(words.len() as int) == words
}

/// The words of an error say what is missing in a builder, what could not be parsed, or nothing
/// before the error of another crate. What could not be parsed ends so that the reason can follow.
pub proof fn lemma_words_of_errors(e: CertError)
    ensures
        e is NameNotSet ==> model::error_text(e) == "X509: name not set"@,
        e is ValidUntilNotSet ==> model::error_text(e) == "X509: valid_until not set"@,
        e is UserIdNotSet ==> model::error_text(e) == "X509: user_id not set"@,
        e is CaNotSet ==> model::error_text(e) == "X509: CA not set"@,
        e is CsrSignature ==> model::error_text(e) == "CSR signature verification failed"@,
        e is NoArchiveCertificate ==> model::error_text(e) == "No certificate found in PKCS#12"@,
        e is NoArchiveSan ==> model::error_text(e) == "No SAN found in PKCS#12 certificate"@,
        e is NoMetadataCertificate ==> model::error_text(e) == "No certificate in PKCS#12"@,
        e is NoCommonName ==> model::error_text(e) == "No CN in certificate"@,
        e is NoCaCommonName ==> model::error_text(e) == "No CN in CA certificate"@,
        e is PemParse || e is DerParse || e is CaCertPemParse || e is CaKeyPemParse
            || e is CaDerParse ==> begins_with(model::error_text(e), "Failed to parse "@)
            && model::error_text(e).last() == ' ',
        e is OpenSsl || e is Rcgen ==> model::error_text(e).len() == 0,
{
    reveal_strlit("");
    reveal_strlit("Failed to parse ");
    reveal_strlit("Failed to parse PEM: ");
    reveal_strlit("Failed to parse DER: ");
    reveal_strlit("Failed to parse CA Cert PEM: ");
    reveal_strlit("Failed to parse CA Private Key PEM: ");
    reveal_strlit("Failed to parse CA DER: ");
    let words = "Failed to parse "@;
    assert("Failed to parse PEM: "@.take(16) =~= words);
    assert("Failed to parse DER: "@.take(16) =~= words);
    assert("Failed to parse CA Cert PEM: "@.take(16) =~= words);
    assert("Failed to parse CA Private Key PEM: "@.take(16) =~= words);
    assert("Failed to parse CA DER: "@.take(16) =~= words);
}

/// Under one base the revocation lists of different authorities have different addresses.
pub proof fn lemma_list_addresses_differ(base: Seq<char>, one: i64, other: i64)
    requires
        text::crl_address(base, one) == text::crl_address(base, other),
    ensures
        one == other,
{
    let start = base + "/crl/crl-"@;
    let ending = ".crl"@;
    let first = text::decimal(one as int);
    let second = text::decimal(other as int);
    let address = text::crl_address(base, one);
    assert(address =~= start + first + ending);
    assert(address =~= start + second + ending);
    assert(first.len() == second.len());
    assert(first =~= address.subrange(start.len() as int, (start.len() + first.len()) as int));
    assert(second =~= address.subrange(start.len() as int, (start.len() + second.len()) as int));
    lemma_texts_of_integers_differ(one as int, other as int);
}

}
