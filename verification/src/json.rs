use vstd::prelude::*;
use crate::error::APIError;
use crate::error::APIErrorView;

verus! {

/// `serde_json::Error`, the error of a failed serialization. Nothing is read
/// from it; it is only told apart from a success.
#[verifier::external_type_specification]
#[verifier::external_body]
pub struct ExJsonError(serde_json::Error);

/// The JSON text that `serde_json::to_string` produces for a string with the
/// given characters: the characters between double quotes, escaped where JSON
/// asks for it.
pub uninterp spec fn json_string_text(s: Seq<char>) -> Seq<char>;

/// The character of a decimal digit.
pub open spec fn digit_char(d: nat) -> char
    recommends
        d < 10,
{
    if d == 0 {
        '0'
    } else if d == 1 {
        '1'
    } else if d == 2 {
        '2'
    } else if d == 3 {
        '3'
    } else if d == 4 {
        '4'
    } else if d == 5 {
        '5'
    } else if d == 6 {
        '6'
    } else if d == 7 {
        '7'
    } else if d == 8 {
        '8'
    } else {
        '9'
    }
}

/// The decimal numeral of a number: its digits, most significant first, with
/// no sign and no leading zero (zero itself is `0`).
pub open spec fn decimal_text(n: nat) -> Seq<char>
    decreases n,
{
    if n < 10 {
        seq![digit_char(n)]
    } else {
        decimal_text(n / 10).push(digit_char(n % 10))
    }
}

/// The value of a decimal digit's character; 0 for any other character.
pub open spec fn digit_value(c: char) -> nat {
    if c == '1' {
        1
    } else if c == '2' {
        2
    } else if c == '3' {
        3
    } else if c == '4' {
        4
    } else if c == '5' {
        5
    } else if c == '6' {
        6
    } else if c == '7' {
        7
    } else if c == '8' {
        8
    } else if c == '9' {
        9
    } else {
        0
    }
}

/// The number that a decimal numeral denotes.
pub open spec fn decimal_value(text: Seq<char>) -> nat
    decreases text.len(),
{
    if text.len() == 0 {
        0
    } else {
        10 * decimal_value(text.drop_last()) + digit_value(text.last())
    }
}

/// Reading a number's decimal numeral gives the number back.
pub proof fn lemma_decimal_round_trip(n: nat)
    ensures
        decimal_value(decimal_text(n)) == n,
    decreases n,
{
    if n < 10 {
        let text = decimal_text(n);
        assert(text.len() == 1);
        assert(text.last() == digit_char(n));
        assert(text.drop_last().len() == 0);
        assert(decimal_value(text.drop_last()) == 0);
    } else {
        lemma_decimal_round_trip(n / 10);
        let front = decimal_text(n / 10);
        let text = front.push(digit_char(n % 10));
        assert(text.drop_last() =~= front);
        assert(text.last() == digit_char(n % 10));
    }
}

/// Calls `serde_json::to_string` on a string slice. Believed without proof:
/// the call succeeds, since it fails only where a `Serialize` impl fails or a
/// map has keys that are not strings, and a string is written straight into a
/// growing buffer; and the text depends on the characters alone, which is all
/// that giving it the name [`json_string_text`] says.
#[verifier::external_body]
pub(crate) fn string_to_json(value: &str) -> (text: Result<String, serde_json::Error>)
    ensures
        text is Ok,
        text->Ok_0@ == json_string_text(value@),
{
    serde_json::to_string(value)
}

/// Calls `serde_json::to_string` on an unsigned 64-bit integer. Believed
/// without proof: the call succeeds, for the same reason as on a string, and
/// the text is the integer written as a JSON number, which is its decimal
/// numeral.
#[verifier::external_body]
pub(crate) fn u64_to_json(value: u64) -> (text: Result<String, serde_json::Error>)
    ensures
        text is Ok,
        text->Ok_0@ == decimal_text(value as nat),
{
    serde_json::to_string(&value)
}

/// Description of the failure reported when serialization fails.
pub open spec fn serialization_failed_desc() -> Seq<char> {
    "Value could not be serialized as JSON"@
}

/// Turns the outcome of a serialization into a body or an internal error: a
/// failure is never dropped silently.
pub fn body_or_internal_error(text: Result<String, serde_json::Error>) -> (body: Result<
    String,
    APIError,
>)
    ensures
        text is Ok ==> body == Ok::<String, APIError>(text->Ok_0),
        text is Err ==> body is Err && body->Err_0@ == (APIErrorView::InternalError {
            desc: serialization_failed_desc(),
        }),
{
    match text {
        Ok(body) => Ok(body),
        Err(_) => Err(
            APIError::InternalError {
                desc: String::from_str("Value could not be serialized as JSON"),
            },
        ),
    }
}

} // verus!
