//! What the platform's model crate and the standard library compute for this
//! library: how ids and permission sets are written and read as text.
//!
//! Each executable function here calls the code it is named after, and its
//! contract says what that code is trusted to return; none of them is
//! proved. What is proved is what follows from those contracts.

use twilight_model::guild::Permissions;
use twilight_model::id::marker::MessageMarker;
use twilight_model::id::Id;
use vstd::prelude::*;

verus! {

/// The character that writes a decimal digit.
pub open spec fn digit_char(digit: int) -> char {
    if digit == 0 {
        '0'
    } else if digit == 1 {
        '1'
    } else if digit == 2 {
        '2'
    } else if digit == 3 {
        '3'
    } else if digit == 4 {
        '4'
    } else if digit == 5 {
        '5'
    } else if digit == 6 {
        '6'
    } else if digit == 7 {
        '7'
    } else if digit == 8 {
        '8'
    } else {
        '9'
    }
}

/// The decimal digit that a character writes, if it writes one.
pub open spec fn digit_value(character: char) -> Option<nat> {
    if character == '0' {
        Some(0)
    } else if character == '1' {
        Some(1)
    } else if character == '2' {
        Some(2)
    } else if character == '3' {
        Some(3)
    } else if character == '4' {
        Some(4)
    } else if character == '5' {
        Some(5)
    } else if character == '6' {
        Some(6)
    } else if character == '7' {
        Some(7)
    } else if character == '8' {
        Some(8)
    } else if character == '9' {
        Some(9)
    } else {
        None
    }
}

/// A number written in decimal, without a sign or leading zeros.
pub open spec fn decimal_text(number: nat) -> Seq<char>
    decreases number,
{
    if number < 10 {
        seq![digit_char(number as int)]
    } else {
        decimal_text(number / 10).push(digit_char((number % 10) as int))
    }
}

/// The number that a run of decimal digits writes. There is none for an
/// empty run or for one that holds anything but digits.
pub open spec fn digits_value(text: Seq<char>) -> Option<nat>
    decreases text.len(),
{
    if text.len() == 0 {
        None
    } else {
        match digit_value(text.last()) {
            None => None,
            Some(digit) => if text.len() == 1 {
                Some(digit)
            } else {
                match digits_value(text.drop_last()) {
                    None => None,
                    Some(front) => Some(front * 10 + digit),
                }
            },
        }
    }
}

/// The message id that `text` writes: decimal digits, after a plus sign or
/// without one, that write a number other than zero which fits into 64 bits.
pub open spec fn parsed_message_id(text: Seq<char>) -> Option<u64> {
    let digits = if text.len() > 0 && text[0] == '+' {
        text.drop_first()
    } else {
        text
    };
    match digits_value(digits) {
        Some(value) => if 0 < value <= u64::MAX {
            Some(value as u64)
        } else {
            None
        },
        None => None,
    }
}

/// The text that writes the message id `id`: the number in decimal.
pub open spec fn message_id_text(id: u64) -> Seq<char> {
    decimal_text(id as nat)
}

/// The text that `twilight_model` prints for the permission flags set in `bits`.
pub uninterp spec fn permission_names(bits: u64) -> Seq<char>;

/// The lowercase form that the standard library gives to `text`.
pub uninterp spec fn lowercase(text: Seq<char>) -> Seq<char>;

/// `text` with a space in place of every underscore.
pub open spec fn underscores_spaced(text: Seq<char>) -> Seq<char> {
    Seq::new(text.len(), |i: int| if text[i] == '_' { ' ' } else { text[i] })
}

/// Calls `Id::<MessageMarker>::from_str` on `text`, which reads a 64-bit
/// integer other than zero as the standard library reads it. Trusted: the
/// text is read as an optional plus sign followed by nothing but decimal
/// digits, and nothing comes back where it is no such text, writes zero or
/// writes more than fits.
#[verifier::external_body]
pub(crate) fn parse_message_id(text: &str) -> (id: Option<u64>)
    ensures
        id == parsed_message_id(text@),
{
    text.parse::<Id<MessageMarker>>().ok().map(Id::get)
}

/// Calls `Id::<MessageMarker>::new_checked` and the id's `Display`, which
/// writes the number as the standard library writes a 64-bit integer.
/// Trusted: there is no text for zero, which is no id, and the text of any
/// other id is the number in decimal.
#[verifier::external_body]
pub(crate) fn format_message_id(id: u64) -> (text: Option<String>)
    ensures
        text is None <==> id == 0,
        text is Some ==> text.unwrap()@ == message_id_text(id),
{
    Id::<MessageMarker>::new_checked(id).map(|id| id.to_string())
}

/// Calls the `Debug` of `twilight_model`'s `Permissions` on the flags set in
/// `bits`. Trusted: the text is a function of the bits alone.
#[verifier::external_body]
pub(crate) fn format_permissions(bits: u64) -> (names: String)
    ensures
        names@ == permission_names(bits),
{
    format!("{:#?}", Permissions::from_bits_truncate(bits))
}

/// Calls `str::to_lowercase`. Trusted: the result is a function of the text alone.
#[verifier::external_body]
pub(crate) fn to_lowercase(text: &str) -> (lower: String)
    ensures
        lower@ == lowercase(text@),
{
    text.to_lowercase()
}

/// Calls `str::replace` with an underscore as the pattern and a space as the
/// replacement. Trusted: every underscore becomes a space and nothing else
/// changes.
#[verifier::external_body]
pub(crate) fn space_underscores(text: &str) -> (spaced: String)
    ensures
        spaced@ == underscores_spaced(text@),
{
    text.replace('_', " ")
}

/// The text of a message id reads back as that id: what a form is told to
/// edit is what its submission edits.
pub proof fn lemma_message_id_round_trip(id: u64)
    requires
        id != 0,
    ensures
        parsed_message_id(message_id_text(id)) == Some(id),
{
    lemma_decimal_text_reads_back(id as nat);
}

/// A number written in decimal is a run of digits that writes the number.
pub proof fn lemma_decimal_text_reads_back(number: nat)
    ensures
        decimal_text(number).len() > 0,
        digit_value(decimal_text(number)[0]) is Some,
        digits_value(decimal_text(number)) == Some(number),
    decreases number,
{
    if number >= 10 {
        lemma_decimal_text_reads_back(number / 10);
        let front = decimal_text(number / 10);
        let text = decimal_text(number);
        assert(text.drop_last() == front);
        assert(text.last() == digit_char((number % 10) as int));
        assert(text[0] == front[0]);
    }
}

} // verus!
