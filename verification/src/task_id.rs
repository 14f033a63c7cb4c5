//! Task identifiers and their canonical text.
//!
//! An identifier is 128 bits. On the wire and in the store it is written in
//! its canonical form: thirty-two hexadecimal digits, most significant
//! first, in groups of 8, 4, 4, 4 and 12 with a hyphen between the groups.

use vstd::prelude::*;
use crate::error::ServiceError;

verus! {

/// The identifier of a todo item.
#[derive(Debug, Clone, Copy, PartialEq, Eq, Structural)]
pub struct TaskId(pub u128);

/// The lower-case hexadecimal digit that stands for `d`, for `d` below 16.
pub open spec fn hex_char(d: nat) -> char {
    if d == 0 { '0' }
    else if d == 1 { '1' }
    else if d == 2 { '2' }
    else if d == 3 { '3' }
    else if d == 4 { '4' }
    else if d == 5 { '5' }
    else if d == 6 { '6' }
    else if d == 7 { '7' }
    else if d == 8 { '8' }
    else if d == 9 { '9' }
    else if d == 10 { 'a' }
    else if d == 11 { 'b' }
    else if d == 12 { 'c' }
    else if d == 13 { 'd' }
    else if d == 14 { 'e' }
    else { 'f' }
}

/// What a hexadecimal digit stands for, in either case; `None` for any other
/// character.
pub open spec fn hex_char_value(c: char) -> Option<nat> {
    match c {
        '0' => Some(0),
        '1' => Some(1),
        '2' => Some(2),
        '3' => Some(3),
        '4' => Some(4),
        '5' => Some(5),
        '6' => Some(6),
        '7' => Some(7),
        '8' => Some(8),
        '9' => Some(9),
        'a' | 'A' => Some(10),
        'b' | 'B' => Some(11),
        'c' | 'C' => Some(12),
        'd' | 'D' => Some(13),
        'e' | 'E' => Some(14),
        'f' | 'F' => Some(15),
        _ => None,
    }
}

/// The `n` lowest base-16 digits of `v`, most significant first.
pub open spec fn hex_digits(v: nat, n: nat) -> Seq<nat>
    decreases n,
{
    if n == 0 {
        Seq::empty()
    } else {
        hex_digits(v / 16, (n - 1) as nat).push(v % 16)
    }
}

/// The number that a sequence of base-16 digits writes, most significant
/// first.
pub open spec fn hex_value(digits: Seq<nat>) -> nat
    decreases digits.len(),
{
    if digits.len() == 0 {
        0
    } else {
        hex_value(digits.drop_last()) * 16 + digits.last()
    }
}

/// Whether position `i` of a canonical text holds a hyphen.
pub open spec fn is_hyphen_position(i: int) -> bool {
    i == 8 || i == 13 || i == 18 || i == 23
}

/// The position in a canonical text of its `k`th digit, counted from 0.
pub open spec fn position_of_digit(k: int) -> int {
    if k < 8 {
        k
    } else if k < 12 {
        k + 1
    } else if k < 16 {
        k + 2
    } else if k < 20 {
        k + 3
    } else {
        k + 4
    }
}

/// The canonical text of the 128-bit value `v`.
pub open spec fn canonical_text(v: u128) -> Seq<char> {
    let d = hex_digits(v as nat, 32).map_values(|x: nat| hex_char(x));
    d.subrange(0, 8) + seq!['-'] + d.subrange(8, 12) + seq!['-'] + d.subrange(12, 16) + seq!['-']
        + d.subrange(16, 20) + seq!['-'] + d.subrange(20, 32)
}

/// Whether `s` has the canonical shape: 36 characters, hyphens at the four
/// group boundaries and a hexadecimal digit, in either case, everywhere else.
pub open spec fn is_canonical_text(s: Seq<char>) -> bool {
    &&& s.len() == 36
    &&& forall|i: int|
        0 <= i < 36 ==> if is_hyphen_position(i) {
            s[i] == '-'
        } else {
            hex_char_value(#[trigger] s[i]) is Some
        }
}

/// The thirty-two digits that a text of canonical shape holds.
pub open spec fn text_digits(s: Seq<char>) -> Seq<nat> {
    (s.subrange(0, 8) + s.subrange(9, 13) + s.subrange(14, 18) + s.subrange(19, 23) + s.subrange(
        24,
        36,
    )).map_values(|c: char| hex_char_value(c).unwrap())
}

/// The value that a text of canonical shape writes.
pub open spec fn text_value(s: Seq<char>) -> nat {
    hex_value(text_digits(s))
}

/// What is left of `v` once its `n` lowest base-16 digits are dropped.
pub open spec fn without_low_digits(v: nat, n: nat) -> nat
    decreases n,
{
    if n == 0 {
        v
    } else {
        without_low_digits(v / 16, (n - 1) as nat)
    }
}

/// `hex_digits(v, n)` has `n` entries, each of them a digit.
pub proof fn lemma_hex_digits_are_digits(v: nat, n: nat)
    ensures
        hex_digits(v, n).len() == n,
        forall|i: int| 0 <= i < n ==> #[trigger] hex_digits(v, n)[i] < 16,
    decreases n,
{
    if n > 0 {
        lemma_hex_digits_are_digits(v / 16, (n - 1) as nat);
    }
}

/// The digits of a number write that number, when the number has no more
/// digits than were taken.
pub proof fn lemma_hex_value_of_digits(v: nat, n: nat)
    requires
        without_low_digits(v, n) == 0,
    ensures
        hex_value(hex_digits(v, n)) == v,
    decreases n,
{
    if n > 0 {
        let rest = hex_digits(v / 16, (n - 1) as nat);
        lemma_hex_value_of_digits(v / 16, (n - 1) as nat);
        lemma_hex_digits_are_digits(v / 16, (n - 1) as nat);
        assert(hex_digits(v, n).drop_last() =~= rest);
    }
}

/// Dropping digits keeps the order of two numbers.
proof fn lemma_without_low_digits_monotonic(v: nat, w: nat, n: nat)
    requires
        v <= w,
    ensures
        without_low_digits(v, n) <= without_low_digits(w, n),
    decreases n,
{
    if n > 0 {
        lemma_without_low_digits_monotonic(v / 16, w / 16, (n - 1) as nat);
    }
}

/// A 128-bit value has at most thirty-two base-16 digits.
pub proof fn lemma_u128_has_32_digits(v: u128)
    ensures
        without_low_digits(v as nat, 32) == 0,
{
    lemma_without_low_digits_monotonic(v as nat, u128::MAX as nat, 32);
    assert(without_low_digits(u128::MAX as nat, 32) == 0) by {
        reveal_with_fuel(without_low_digits, 33);
    }
}

/// The number that `n` digits write has no more than `n` digits.
proof fn lemma_hex_value_has_len_digits(digits: Seq<nat>)
    requires
        forall|i: int| 0 <= i < digits.len() ==> #[trigger] digits[i] < 16,
    ensures
        without_low_digits(hex_value(digits), digits.len()) == 0,
    decreases digits.len(),
{
    if digits.len() > 0 {
        lemma_hex_value_has_len_digits(digits.drop_last());
    }
}

/// A text of canonical shape writes a value of 128 bits.
pub proof fn lemma_text_value_fits(s: Seq<char>)
    requires
        is_canonical_text(s),
    ensures
        text_value(s) <= u128::MAX,
{
    let digits = text_digits(s);
    assert forall|k: int| 0 <= k < 32 implies #[trigger] digits[k] < 16 by {
        let i = position_of_digit(k);
        assert(digits[k] == hex_char_value(s[i]).unwrap());
    }
    lemma_hex_value_has_len_digits(digits);
    if text_value(s) > u128::MAX {
        lemma_without_low_digits_monotonic((u128::MAX + 1) as nat, text_value(s), 32);
        assert(without_low_digits((u128::MAX + 1) as nat, 32) == 1) by {
            reveal_with_fuel(without_low_digits, 33);
        }
    }
}

/// Parsing the canonical text of an identifier gives the identifier back:
/// the text has the canonical shape, and the value it writes is the
/// identifier's.
pub proof fn lemma_canonical_text_round_trip(v: u128)
    ensures
        is_canonical_text(canonical_text(v)),
        text_value(canonical_text(v)) == v,
{
    let digits = hex_digits(v as nat, 32);
    let text = canonical_text(v);
    lemma_hex_digits_are_digits(v as nat, 32);
    assert forall|i: int| 0 <= i < 36 implies if is_hyphen_position(i) {
        text[i] == '-'
    } else {
        hex_char_value(#[trigger] text[i]) is Some
    } by {
        if !is_hyphen_position(i) {
            let k = if i < 8 { i } else if i < 13 { i - 1 } else if i < 18 { i - 2 } else if i < 23 {
                i - 3
            } else {
                i - 4
            };
            assert(i == position_of_digit(k));
            assert(text[i] == hex_char(digits[k]));
        }
    }
    assert forall|k: int| 0 <= k < 32 implies #[trigger] text_digits(text)[k] == digits[k] by {
        assert(hex_char_value(hex_char(digits[k])) == Some(digits[k]));
    }
    assert(text_digits(text) =~= digits);
    lemma_u128_has_32_digits(v);
    lemma_hex_value_of_digits(v as nat, 32);
}

/// Whether `v` carries the marks of a random identifier: the version digit is
/// 4 and the two variant bits are `10`.
pub open spec fn is_random_v4(v: u128) -> bool {
    v & 0x0000_0000_0000_f000_c000_0000_0000_0000 == 0x0000_0000_0000_4000_8000_0000_0000_0000
}

/// The error type of the `uuid` crate.
#[verifier::external_type_specification]
#[verifier::external_body]
pub struct ExUuidError(uuid::Error);

/// Calls `uuid::Uuid::new_v4` and hands the bits out as an integer.
///
/// Trusted: the crate draws 128 random bits and overwrites six of them with
/// the version and variant marks, which is all that is claimed. The call
/// panics only where the operating system cannot supply random bytes.
#[verifier::external_body]
fn uuid_new_v4() -> (v: u128)
    ensures
        is_random_v4(v),
{
    uuid::Uuid::new_v4().as_u128()
}

/// Calls the `Display` rendering of `uuid::Uuid`, which is the lower-case
/// hyphenated form.
///
/// Trusted: the text is the canonical text of `v`.
#[verifier::external_body]
fn uuid_to_string(v: u128) -> (text: String)
    ensures
        text@ == canonical_text(v),
{
    uuid::Uuid::from_u128(v).to_string()
}

/// Calls `uuid::Uuid::parse_str`.
///
/// Trusted: a text of canonical shape is accepted, with the value that its
/// digits write. Nothing is claimed of any other text; the crate accepts
/// several more forms.
#[verifier::external_body]
fn uuid_parse_str(s: &str) -> (parsed: Result<u128, uuid::Error>)
    ensures
        is_canonical_text(s@) ==> parsed is Ok && parsed->Ok_0 == text_value(s@),
{
    match uuid::Uuid::parse_str(s) {
        Ok(id) => Ok(id.as_u128()),
        Err(e) => Err(e),
    }
}

/// Whether `c` is a hexadecimal digit, in either case.
fn is_hex_digit(c: char) -> (yes: bool)
    ensures
        yes == (hex_char_value(c) is Some),
{
    match c {
        '0' | '1' | '2' | '3' | '4' | '5' | '6' | '7' | '8' | '9' => true,
        'a' | 'b' | 'c' | 'd' | 'e' | 'f' => true,
        'A' | 'B' | 'C' | 'D' | 'E' | 'F' => true,
        _ => false,
    }
}

impl TaskId {
    /// What parsing the text `s` yields: the identifier that `s` writes, or
    /// `MalformedRecord` where `s` is not of canonical shape. The value of a
    /// text of canonical shape fits in 128 bits (`lemma_text_value_fits`).
    pub open spec fn spec_parse_str(s: Seq<char>) -> Result<TaskId, ServiceError> {
        if is_canonical_text(s) {
            Ok(TaskId(text_value(s) as u128))
        } else {
            Err(ServiceError::MalformedRecord)
        }
    }

    /// A fresh random identifier. Which one is not determined; it carries the
    /// marks of a random identifier.
    pub fn new_v4() -> (id: TaskId)
        ensures
            is_random_v4(id.0),
    {
        TaskId(uuid_new_v4())
    }

    /// The canonical text of the identifier.
    pub fn to_string(&self) -> (text: String)
        ensures
            text@ == canonical_text(self.0),
    {
        uuid_to_string(self.0)
    }

    /// Decides whether `s` has the canonical shape.
    pub fn is_canonical(s: &str) -> (yes: bool)
        ensures
            yes == is_canonical_text(s@),
    {
        if s.unicode_len() != 36 {
            return false;
        }
        let mut i: usize = 0;
        while i < 36
            invariant
                i <= 36,
                s@.len() == 36,
                forall|j: int|
                    0 <= j < i ==> if is_hyphen_position(j) {
                        s@[j] == '-'
                    } else {
                        hex_char_value(#[trigger] s@[j]) is Some
                    },
            decreases 36 - i,
        {
            let c = s.get_char(i);
            if i == 8 || i == 13 || i == 18 || i == 23 {
                if c != '-' {
                    return false;
                }
            } else if !is_hex_digit(c) {
                return false;
            }
            i += 1;
        }
        true
    }

    /// Reads an identifier from its canonical text. Any text that is not of
    /// canonical shape is a malformed record.
    pub fn parse_str(s: &str) -> (parsed: Result<TaskId, ServiceError>)
        ensures
            parsed == Self::spec_parse_str(s@),
    {
        if !Self::is_canonical(s) {
            return Err(ServiceError::MalformedRecord);
        }
        match uuid_parse_str(s) {
            Ok(v) => Ok(TaskId(v)),
            // Cannot be: a text of canonical shape is accepted.
            Err(_) => Err(ServiceError::MalformedRecord),
        }
    }
}

/// Writing an identifier as text and reading the text back gives the same
/// identifier.
pub proof fn lemma_task_id_round_trip(id: TaskId)
    ensures
        TaskId::spec_parse_str(canonical_text(id.0)) == Ok::<TaskId, ServiceError>(id),
{
    lemma_canonical_text_round_trip(id.0);
}

} // verus!
