//! Characters: classes, UTF-8 widths and conversions between texts and
//! sequences of characters.

use vstd::prelude::*;

verus! {

/// Whether a character above U+007F has the Unicode property `XID_Start`.
pub uninterp spec fn xid_start_beyond_ascii(c: char) -> bool;

/// Whether a character above U+007F has the Unicode property `XID_Continue`.
pub uninterp spec fn xid_continue_beyond_ascii(c: char) -> bool;

/// Whether a character is alphabetic or numeric in Unicode's sense.
pub uninterp spec fn alphanumeric(c: char) -> bool;

/// An ASCII letter.
pub open spec fn ascii_letter(c: char) -> bool {
    ('a' <= c && c <= 'z') || ('A' <= c && c <= 'Z')
}

/// An ASCII decimal digit.
pub open spec fn decimal_digit(c: char) -> bool {
    '0' <= c && c <= '9'
}

/// An ASCII hexadecimal digit, in either case.
pub open spec fn hex_digit(c: char) -> bool {
    decimal_digit(c) || ('a' <= c && c <= 'f') || ('A' <= c && c <= 'F')
}

/// The number that a hexadecimal digit stands for; 0 for any other character.
pub open spec fn hex_value(c: char) -> int {
    if decimal_digit(c) {
        c as int - '0' as int
    } else if 'a' <= c && c <= 'f' {
        c as int - 'a' as int + 10
    } else if 'A' <= c && c <= 'F' {
        c as int - 'A' as int + 10
    } else {
        0
    }
}

/// The Unicode property `XID_Start`.
pub open spec fn xid_start(c: char) -> bool {
    ascii_letter(c) || (c > '\x7f' && xid_start_beyond_ascii(c))
}

/// The Unicode property `XID_Continue`.
pub open spec fn xid_continue(c: char) -> bool {
    ascii_letter(c) || decimal_digit(c) || c == '_' || (c > '\x7f' && xid_continue_beyond_ascii(c))
}

/// A character that may begin an identifier.
pub open spec fn id_start(c: char) -> bool {
    c == '_' || xid_start(c)
}

/// A character that may continue an identifier.
pub open spec fn id_continue(c: char) -> bool {
    xid_continue(c)
}

/// A character that separates tokens and is otherwise ignored.
pub open spec fn whitespace(c: char) -> bool {
    c == '\u{0009}' || c == '\u{000A}' || c == '\u{000B}' || c == '\u{000C}' || c == '\u{000D}'
        || c == '\u{0020}' || c == '\u{0085}' || c == '\u{200E}' || c == '\u{200F}' || c
        == '\u{2028}' || c == '\u{2029}'
}

/// The number of bytes that the UTF-8 encoding of a character takes.
pub open spec fn utf8_width(c: char) -> int {
    if c as u32 <= 0x7f {
        1
    } else if c as u32 <= 0x7ff {
        2
    } else if c as u32 <= 0xffff {
        3
    } else {
        4
    }
}

/// The number of bytes that the UTF-8 encoding of the first `n` characters
/// of `text` takes.
pub open spec fn byte_offset(text: Seq<char>, n: int) -> int
    decreases n,
{
    if n <= 0 || n > text.len() {
        0
    } else {
        byte_offset(text, n - 1) + utf8_width(text[n - 1])
    }
}

/// The number of bytes that the UTF-8 encoding of `text` takes.
pub open spec fn utf8_len(text: Seq<char>) -> int {
    byte_offset(text, text.len() as int)
}

/// A number that is the code of a character: not above U+10FFFF and no surrogate.
pub open spec fn scalar_value(v: int) -> bool {
    (0 <= v <= 0xD7FF) || (0xE000 <= v <= 0x10FFFF)
}

/// Byte offsets grow with the number of characters, by at least one for each.
pub proof fn lemma_byte_offset_grows(text: Seq<char>, i: int, j: int)
    requires
        0 <= i <= j <= text.len(),
    ensures
        byte_offset(text, i) + (j - i) <= byte_offset(text, j),
        byte_offset(text, j) <= byte_offset(text, i) + 4 * (j - i),
        0 <= byte_offset(text, i),
    decreases j,
{
    if i < j {
        lemma_byte_offset_grows(text, i, j - 1);
    } else if 0 < i {
        lemma_byte_offset_grows(text, i - 1, i - 1);
    }
}

/// `UnicodeXID::is_xid_start` of the crate `unicode-xid`. For a character up
/// to U+007F the result is whether it is an ASCII letter, as the function's
/// source shows; for any other it is what the crate's table for `XID_Start`
/// holds, which is named and not stated.
#[verifier::external_body]
pub(crate) fn is_xid_start(c: char) -> (r: bool)
    ensures
        r == (ascii_letter(c) || (c > '\x7f' && xid_start_beyond_ascii(c))),
{
    unicode_xid::UnicodeXID::is_xid_start(c)
}

/// `UnicodeXID::is_xid_continue` of the crate `unicode-xid`. For a character
/// up to U+007F the result is whether it is an ASCII letter, a decimal digit
/// or `_`, as the function's source shows; for any other it is what the
/// crate's table for `XID_Continue` holds, which is named and not stated.
#[verifier::external_body]
pub(crate) fn is_xid_continue(c: char) -> (r: bool)
    ensures
        r == (ascii_letter(c) || decimal_digit(c) || c == '_' || (c > '\x7f'
            && xid_continue_beyond_ascii(c))),
{
    unicode_xid::UnicodeXID::is_xid_continue(c)
}

/// `char::is_alphanumeric` of std. The result depends on the character
/// alone; it is named and not stated.
#[verifier::external_body]
pub(crate) fn char_is_alphanumeric(c: char) -> (r: bool)
    ensures
        r == alphanumeric(c),
{
    c.is_alphanumeric()
}

/// `char::from_u32` of std: the character with the given code, and `None`
/// where the number is a surrogate or above U+10FFFF.
#[verifier::external_body]
pub(crate) fn char_from_u32(v: u32) -> (r: Option<char>)
    ensures
        match r {
            Some(c) => scalar_value(v as int) && c == v as char,
            None => !scalar_value(v as int),
        },
{
    char::from_u32(v)
}

/// `String::push` of std appends one character to the text.
pub assume_specification[ std::string::String::push ](s: &mut std::string::String, c: char)
    ensures
        final(s)@ == old(s)@.push(c),
;

/// True if `c` is a whitespace character.
pub fn is_whitespace(c: char) -> (r: bool)
    ensures
        r == whitespace(c),
{
    c == '\u{0009}' || c == '\u{000A}' || c == '\u{000B}' || c == '\u{000C}' || c == '\u{000D}'
        || c == '\u{0020}' || c == '\u{0085}' || c == '\u{200E}' || c == '\u{200F}' || c
        == '\u{2028}' || c == '\u{2029}'
}

/// True if `c` may begin an identifier.
pub fn is_id_start(c: char) -> (r: bool)
    ensures
        r == id_start(c),
{
    c == '_' || is_xid_start(c)
}

/// True if `c` may continue an identifier.
pub fn is_id_continue(c: char) -> (r: bool)
    ensures
        r == id_continue(c),
{
    is_xid_continue(c)
}

/// True if `c` is an ASCII decimal digit.
pub fn decimal(c: char) -> (r: bool)
    ensures
        r == decimal_digit(c),
{
    '0' <= c && c <= '9'
}

/// True if `c` is an ASCII hexadecimal digit.
pub fn hexadecimal(c: char) -> (r: bool)
    ensures
        r == hex_digit(c),
{
    ('0' <= c && c <= '9') || ('a' <= c && c <= 'f') || ('A' <= c && c <= 'F')
}

/// The number that the hexadecimal digit `c` stands for.
pub fn hex_digit_value(c: char) -> (r: u32)
    requires
        hex_digit(c),
    ensures
        r == hex_value(c),
        r < 16,
{
    let code: u32 = c as u32;
    if '0' <= c && c <= '9' {
        code - 0x30
    } else if 'a' <= c && c <= 'f' {
        code - 0x61 + 10
    } else {
        code - 0x41 + 10
    }
}

/// The number of bytes that `c` takes in UTF-8.
pub fn len_utf8(c: char) -> (r: usize)
    ensures
        r == utf8_width(c),
        1 <= r <= 4,
{
    let code: u32 = c as u32;
    if code <= 0x7f {
        1
    } else if code <= 0x7ff {
        2
    } else if code <= 0xffff {
        3
    } else {
        4
    }
}

/// The characters of `text`, in order.
pub fn chars_of(text: &str) -> (r: Vec<char>)
    ensures
        r@ == text@,
{
    let mut r: Vec<char> = Vec::new();
    let it0 = text.chars();
    for c in it: it0
        invariant
            r@ == it.seq().take(it.index() as int),
            it.seq() == text@,
    {
        r.push(c);
    }
    r
}

/// The text made of the characters of `chars` from `start` up to `end`.
pub fn string_of(chars: &Vec<char>, start: usize, end: usize) -> (r: String)
    requires
        start <= end <= chars.len(),
    ensures
        r@ == chars@.subrange(start as int, end as int),
{
    let mut r = String::new();
    let mut i: usize = start;
    while i < end
        invariant
            start <= i <= end <= chars.len(),
            r@ == chars@.subrange(start as int, i as int),
        decreases end - i,
    {
        r.push(chars[i]);
        i += 1;
    }
    r
}

/// Whether the characters of `chars` from `start` up to `end` spell `word`.
pub fn matches_text(chars: &Vec<char>, start: usize, end: usize, word: &str) -> (r: bool)
    requires
        start <= end <= chars.len(),
    ensures
        r == (chars@.subrange(start as int, end as int) == word@),
{
    let n: usize = word.unicode_len();
    if n != end - start {
        return false;
    }
    let mut i: usize = 0;
    while i < n
        invariant
            i <= n,
            n == end - start,
            n == word@.len(),
            start <= end <= chars.len(),
            chars@.subrange(start as int, start + i) == word@.take(i as int),
        decreases n - i,
    {
        if word.get_char(i) != chars[start + i] {
            assert(chars@.subrange(start as int, end as int)[i as int] != word@[i as int]);
            return false;
        }
        assert(chars@.subrange(start as int, start + i + 1) =~= chars@.subrange(
            start as int,
            start + i,
        ).push(chars@[start + i]));
        assert(word@.take(i + 1) =~= word@.take(i as int).push(word@[i as int]));
        i += 1;
    }
    assert(word@.take(n as int) =~= word@);
    true
}

} // verus!
