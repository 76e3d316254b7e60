//! Numbers and pairs as text.
use vstd::prelude::*;

use crate::account::ascii_text;

verus! {

/// The character of a digit.
pub open spec fn digit(n: int) -> char {
    (48 + n) as char
}

/// A number in decimal.
pub open spec fn decimal(n: nat) -> Seq<char>
    decreases n,
{
    if n < 10 {
        seq![digit(n as int)]
    } else {
        decimal(n / 10).push(digit((n % 10) as int))
    }
}

fn decimal_digits(n: u64) -> (r: Vec<u8>)
    ensures
        r@.map_values(|b: u8| b as char) == decimal(n as nat),
        forall|i: int| 0 <= i < r@.len() ==> 48 <= #[trigger] r@[i] < 58,
    decreases n,
{
    if n < 10 {
        let mut r: Vec<u8> = Vec::new();
        r.push(48 + n as u8);
        assert(r@.map_values(|b: u8| b as char) =~= decimal(n as nat));
        r
    } else {
        let mut r = decimal_digits(n / 10);
        let ghost high = r@;
        let last: u8 = (n % 10) as u8;
        r.push(48 + last);
        assert(r@.map_values(|b: u8| b as char) =~= high.map_values(|b: u8| b as char).push(digit((n % 10) as int)));
        r
    }
}

/// A number in decimal.
pub fn decimal_text(n: u64) -> (r: String)
    ensures
        r@ == decimal(n as nat),
{
    ascii_text(decimal_digits(n))
}

/// Decimal text is made of digits.
pub proof fn lemma_decimal_is_digits(n: nat)
    ensures
        decimal(n).len() > 0,
        forall|i: int| 0 <= i < decimal(n).len() ==> '0' <= #[trigger] decimal(n)[i] <= '9',
    decreases n,
{
    if n >= 10 {
        lemma_decimal_is_digits(n / 10);
    }
}

/// Printable ASCII that needs no escape in JSON.
pub open spec fn is_plain(s: Seq<char>) -> bool {
    forall|i: int| 0 <= i < s.len() ==> ' ' <= #[trigger] s[i] && s[i] <= '~' && s[i] != '"' && s[i] != '\\'
}

/// A JSON object of two text fields.
pub open spec fn json_object(k1: Seq<char>, v1: Seq<char>, k2: Seq<char>, v2: Seq<char>) -> Seq<char> {
    seq!['{', '"'] + k1 + seq!['"', ':', '"'] + v1 + seq!['"', ',', '"'] + k2 + seq!['"', ':', '"'] + v2 + seq!['"', '}']
}

/// Renders a `serde_json` object with two text fields through the `Display` of `Value`, which is
/// compact and keeps plain text as it is. `near_sdk` has `serde_json` keep the fields of an object in
/// the order in which they were inserted.
#[verifier::external_body]
pub(crate) fn json_text(k1: &str, v1: &str, k2: &str, v2: &str) -> (r: String)
    requires
        is_plain(k1@),
        is_plain(v1@),
        is_plain(k2@),
        is_plain(v2@),
        k1@ != k2@,
    ensures
        r@ == json_object(k1@, v1@, k2@, v2@),
{
    let mut fields = near_sdk::serde_json::Map::new();
    fields.insert(k1.to_string(), near_sdk::serde_json::Value::String(v1.to_string()));
    fields.insert(k2.to_string(), near_sdk::serde_json::Value::String(v2.to_string()));
    near_sdk::serde_json::Value::Object(fields).to_string()
}

} // verus!
