//! Small verified helpers on strings: their characters, case-insensitive
//! comparison and building strings piece by piece.

use vstd::prelude::*;

verus! {

/// Appends a character to a string (`String::push`): the string's text
/// gains the character at its end.
#[verifier::external_body]
pub(crate) fn push_char(s: &mut String, c: char)
    ensures
        final(s)@ == old(s)@.push(c),
{
    s.push(c);
}

/// Returns the characters of a string.
pub fn chars_of(s: &str) -> (chars: Vec<char>)
    ensures
        chars@ == s@,
{
    let mut chars: Vec<char> = Vec::new();
    for c in it: s.chars()
        invariant
            chars@ == it.seq().take(it.index() as int),
    {
        chars.push(c);
    }
    chars
}

/// Returns whether two strings hold the same text.
pub fn str_equal(a: &str, b: &str) -> (equal: bool)
    ensures
        equal == (a@ == b@),
{
    let a_chars = chars_of(a);
    let b_chars = chars_of(b);
    if a_chars.len() != b_chars.len() {
        return false;
    }
    let mut i: usize = 0;
    while i < a_chars.len()
        invariant
            a_chars@ == a@,
            b_chars@ == b@,
            a_chars@.len() == b_chars@.len(),
            i <= a_chars@.len(),
            forall|j: int| 0 <= j < i ==> a@[j] == b@[j],
        decreases a_chars.len() - i,
    {
        if a_chars[i] != b_chars[i] {
            return false;
        }
        i = i + 1;
    }
    assert(a@ =~= b@);
    true
}

/// Appends a text to a string (`String::push_str`): the string's text gains
/// the other text at its end.
#[verifier::external_body]
pub(crate) fn push_str(s: &mut String, t: &str)
    ensures
        final(s)@ == old(s)@ + t@,
{
    s.push_str(t);
}

/// The code of a character with ASCII upper-case letters mapped to lower case.
pub open spec fn ascii_lower_code(c: char) -> u32 {
    let code = c as u32;
    if 65 <= code <= 90 {
        (code + 32) as u32
    } else {
        code
    }
}

/// Whether two strings are equal when ASCII letters are compared without
/// regard to case.
pub open spec fn eq_ignoring_ascii_case(a: Seq<char>, b: Seq<char>) -> bool {
    &&& a.len() == b.len()
    &&& forall|i: int| 0 <= i < a.len() ==> ascii_lower_code(#[trigger] a[i]) == ascii_lower_code(b[i])
}

/// Returns the code of a character with ASCII upper-case letters mapped to
/// lower case.
pub fn lower_code(c: char) -> (code: u32)
    ensures
        code == ascii_lower_code(c),
{
    let code = c as u32;
    if 65 <= code && code <= 90 {
        code + 32
    } else {
        code
    }
}

/// Returns whether two strings are equal when ASCII letters are compared
/// without regard to case.
pub fn eq_ignore_ascii_case(a: &str, b: &str) -> (equal: bool)
    ensures
        equal == eq_ignoring_ascii_case(a@, b@),
{
    let a_chars = chars_of(a);
    let b_chars = chars_of(b);
    if a_chars.len() != b_chars.len() {
        return false;
    }
    let mut i: usize = 0;
    while i < a_chars.len()
        invariant
            a_chars@ == a@,
            b_chars@ == b@,
            a_chars@.len() == b_chars@.len(),
            i <= a_chars@.len(),
            forall|j: int| 0 <= j < i ==> ascii_lower_code(#[trigger] a@[j]) == ascii_lower_code(b@[j]),
        decreases a_chars.len() - i,
    {
        if lower_code(a_chars[i]) != lower_code(b_chars[i]) {
            return false;
        }
        i = i + 1;
    }
    true
}

/// The decimal digit of a value below 10.
pub open spec fn decimal_digit(value: nat) -> char {
    (48 + value) as char
}

/// The decimal notation of a natural number, without leading zeros.
pub open spec fn decimal(n: nat) -> Seq<char>
    decreases n,
{
    if n < 10 {
        seq![decimal_digit(n)]
    } else {
        decimal(n / 10).push(decimal_digit(n % 10))
    }
}

/// Appends the decimal notation of a number.
pub fn push_decimal(s: &mut String, n: usize)
    ensures
        final(s)@ == old(s)@ + decimal(n as nat),
    decreases n,
{
    if n >= 10 {
        push_decimal(s, n / 10);
    }
    let digit: u8 = (n % 10) as u8;
    push_char(s, (48 + digit) as char);
    assert(final(s)@ =~= old(s)@ + decimal(n as nat));
}

/// The decimal notation of a natural number, filled up with leading zeros
/// to at least the given width.
pub open spec fn zero_padded(n: nat, width: nat) -> Seq<char> {
    let digits = decimal(n);
    if digits.len() < width {
        Seq::new((width - digits.len()) as nat, |_i: int| '0') + digits
    } else {
        digits
    }
}

/// Appends the decimal notation of a 128-bit number.
pub fn push_decimal_u128(s: &mut String, n: u128)
    ensures
        final(s)@ == old(s)@ + decimal(n as nat),
    decreases n,
{
    if n >= 10 {
        push_decimal_u128(s, n / 10);
    }
    let digit: u8 = (n % 10) as u8;
    push_char(s, (48 + digit) as char);
    assert(final(s)@ =~= old(s)@ + decimal(n as nat));
}

/// Appends the decimal notation of a number, filled up with leading zeros
/// to at least the given width.
pub fn push_padded(s: &mut String, n: u128, width: usize)
    ensures
        final(s)@ == old(s)@ + zero_padded(n as nat, width as nat),
{
    let mut digits = String::new();
    push_decimal_u128(&mut digits, n);
    let digit_chars = chars_of(digits.as_str());
    let len = digit_chars.len();
    assert(digits@ =~= decimal(n as nat));
    let ghost start = s@;
    let mut i: usize = len;
    while i < width
        invariant
            len <= i,
            i <= width || i == len,
            len == decimal(n as nat).len(),
            s@ == start + Seq::new((i - len) as nat, |_j: int| '0'),
        decreases width - i,
    {
        push_char(s, '0');
        assert(s@ =~= start + Seq::new((i + 1 - len) as nat, |_j: int| '0'));
        i = i + 1;
    }
    push_str(s, digits.as_str());
    assert(s@ =~= start + zero_padded(n as nat, width as nat));
}

/// The texts of a sequence of strings joined by a separator.
pub open spec fn joined(parts: Seq<String>, separator: Seq<char>) -> Seq<char>
    decreases parts.len(),
{
    if parts.len() == 0 {
        Seq::empty()
    } else if parts.len() == 1 {
        parts[0]@
    } else {
        joined(parts.drop_last(), separator) + separator + parts.last()@
    }
}

/// Joins the texts of a sequence of strings by a separator.
pub fn join(parts: &Vec<String>, separator: &str) -> (text: String)
    ensures
        text@ == joined(parts@, separator@),
{
    let mut text = String::new();
    let mut i: usize = 0;
    while i < parts.len()
        invariant
            i <= parts@.len(),
            text@ == joined(parts@.take(i as int), separator@),
        decreases parts.len() - i,
    {
        assert(parts@.take(i + 1).drop_last() =~= parts@.take(i as int));
        if i != 0 {
            push_str(&mut text, separator);
        }
        push_str(&mut text, parts[i].as_str());
        assert(text@ =~= joined(parts@.take(i + 1), separator@));
        i = i + 1;
    }
    assert(parts@.take(i as int) =~= parts@);
    text
}

} // verus!
