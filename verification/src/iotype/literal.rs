//! The numbers of a description: integer literals as Rust writes them.
//!
//! A number is `0x`, `0o` or `0b` or nothing, then digits of that base with
//! `_` among them where one likes, then nothing or the name of an integer
//! type. Its value is read by `syn`.

use vstd::prelude::*;
use vstd::string::*;

use crate::iotype::token::{char_at, is_digit, is_number_word, lemma_word_is_ascii};
use crate::text::same_text;

verus! {

/// The base that the first two characters of a number announce.
pub open spec fn base_of(word: Seq<char>) -> nat {
    if word.len() >= 2 && word[0] == '0' && word[1] == 'x' {
        16
    } else if word.len() >= 2 && word[0] == '0' && word[1] == 'o' {
        8
    } else if word.len() >= 2 && word[0] == '0' && word[1] == 'b' {
        2
    } else {
        10
    }
}

/// Where the digits of a number start: after the two characters that announce
/// the base, if there are such.
pub open spec fn digits_start(word: Seq<char>) -> int {
    if base_of(word) == 10 {
        0
    } else {
        2
    }
}

/// Whether `c` is a digit of the base, which is 2, 8, 10 or 16.
pub open spec fn is_digit_of(c: char, base: nat) -> bool {
    if base == 2 {
        c == '0' || c == '1'
    } else if base == 8 {
        '0' <= c <= '7'
    } else if base == 10 {
        is_digit(c)
    } else {
        is_digit(c) || 'a' <= c <= 'f' || 'A' <= c <= 'F'
    }
}

/// What a digit is worth.
pub open spec fn digit_value(c: char) -> nat {
    if is_digit(c) {
        (c as nat - '0' as nat) as nat
    } else if 'a' <= c <= 'f' {
        (c as nat - 'a' as nat + 10) as nat
    } else if 'A' <= c <= 'F' {
        (c as nat - 'A' as nat + 10) as nat
    } else {
        0
    }
}

/// Where the digits of a number end that holds the characters before `from`:
/// at the first character from `from` on that is neither a digit of the base
/// nor `_`, or at the end of the word.
pub open spec fn digits_end(word: Seq<char>, base: nat, from: int) -> int
    decreases word.len() - from,
{
    if 0 <= from < word.len() && (is_digit_of(word[from], base) || word[from] == '_') {
        digits_end(word, base, from + 1)
    } else {
        from
    }
}

/// Whether a digit stands among the characters from `from` to before `to`,
/// which are digits and `_`.
pub open spec fn has_digit(word: Seq<char>, from: int, to: int) -> bool {
    exists|i: int| from <= i < to && #[trigger] word[i] != '_'
}

/// What the digits from `from` to before `to` are worth in the base. A `_`
/// among them counts for nothing.
pub open spec fn number_of(word: Seq<char>, base: nat, from: int, to: int) -> nat
    decreases to - from,
{
    if to <= from {
        0
    } else if word[to - 1] == '_' {
        number_of(word, base, from, to - 1)
    } else {
        number_of(word, base, from, to - 1) * base + digit_value(word[to - 1])
    }
}

/// Whether `text` is nothing or the name of an integer type.
pub open spec fn is_integer_suffix(text: Seq<char>) -> bool {
    ||| text == ""@
    ||| text == "u8"@
    ||| text == "u16"@
    ||| text == "u32"@
    ||| text == "u64"@
    ||| text == "u128"@
    ||| text == "usize"@
    ||| text == "i8"@
    ||| text == "i16"@
    ||| text == "i32"@
    ||| text == "i64"@
    ||| text == "i128"@
    ||| text == "isize"@
}

/// Whether `word` is an integer literal: a word that starts with a digit and
/// is made of what may announce a base, digits of the base and `_` with one
/// digit at least, and then nothing or the name of an integer type.
pub open spec fn is_integer_literal(word: Seq<char>) -> bool {
    let start = digits_start(word);
    let end = digits_end(word, base_of(word), start);
    &&& is_number_word(word)
    &&& has_digit(word, start, end)
    &&& is_integer_suffix(word.subrange(end, word.len() as int))
}

/// What an integer literal is worth, whatever integer type it names.
pub open spec fn literal_number(word: Seq<char>) -> nat {
    let start = digits_start(word);
    number_of(word, base_of(word), start, digits_end(word, base_of(word), start))
}

/// The value of the number that `word` is: what the word is worth, where it is
/// an integer literal that is worth no more than 64 bits hold.
pub open spec fn literal_value(word: Seq<char>) -> Option<u64> {
    if is_integer_literal(word) && literal_number(word) <= u64::MAX {
        Some(literal_number(word) as u64)
    } else {
        None
    }
}

/// The digits of a number end inside the word and not before the place they
/// are looked for from.
pub proof fn lemma_digits_end_bounds(word: Seq<char>, base: nat, from: int)
    requires
        0 <= from <= word.len(),
    ensures
        from <= digits_end(word, base, from) <= word.len(),
    decreases word.len() - from,
{
    if from < word.len() && (is_digit_of(word[from], base) || word[from] == '_') {
        lemma_digits_end_bounds(word, base, from + 1);
    }
}

/// The base that the first two characters of `word` announce.
fn base(word: &str, length: usize) -> (base: u8)
    requires
        is_number_word(word@),
        word.is_ascii(),
        length == word@.len(),
    ensures
        base == base_of(word@),
        base == 2 || base == 8 || base == 10 || base == 16,
{
    if length >= 2 && char_at(word, 0) == '0' {
        let second = char_at(word, 1);
        if second == 'x' {
            16
        } else if second == 'o' {
            8
        } else if second == 'b' {
            2
        } else {
            10
        }
    } else {
        10
    }
}

fn digit_of(c: char, base: u8) -> (yes: bool)
    requires
        base == 2 || base == 8 || base == 10 || base == 16,
    ensures
        yes == is_digit_of(c, base as nat),
{
    if base == 2 {
        c == '0' || c == '1'
    } else if base == 8 {
        '0' <= c && c <= '7'
    } else if base == 10 {
        '0' <= c && c <= '9'
    } else {
        ('0' <= c && c <= '9') || ('a' <= c && c <= 'f') || ('A' <= c && c <= 'F')
    }
}

fn integer_suffix(text: &str) -> (yes: bool)
    ensures
        yes == is_integer_suffix(text@),
{
    same_text(text, "") || same_text(text, "u8") || same_text(text, "u16") || same_text(
        text,
        "u32",
    ) || same_text(text, "u64") || same_text(text, "u128") || same_text(text, "usize")
        || same_text(text, "i8") || same_text(text, "i16") || same_text(text, "i32")
        || same_text(text, "i64") || same_text(text, "i128") || same_text(text, "isize")
}

/// Whether a word that starts with a digit is an integer literal.
pub fn is_literal(word: &str) -> (yes: bool)
    requires
        is_number_word(word@),
    ensures
        yes == is_integer_literal(word@),
{
    proof {
        lemma_word_is_ascii(word@);
        is_ascii_spec_bytes(word);
    }
    let length: usize = word.as_bytes().len();
    let base: u8 = base(word, length);
    let start: usize = if base == 10 {
        0
    } else {
        2
    };
    let mut end: usize = start;
    let mut seen: bool = false;
    while end < length && (digit_of(char_at(word, end), base) || char_at(word, end) == '_')
        invariant
            word.is_ascii(),
            length == word@.len(),
            base == 2 || base == 8 || base == 10 || base == 16,
            start <= end <= length,
            digits_end(word@, base as nat, end as int) == digits_end(
                word@,
                base as nat,
                start as int,
            ),
            seen == has_digit(word@, start as int, end as int),
        decreases length - end,
    {
        if char_at(word, end) != '_' {
            seen = true;
        }
        end = end + 1;
    }
    seen && integer_suffix(word.substring_ascii(end, length))
}

/// Takes the value of an integer literal with `syn::parse_str::<syn::LitInt>`
/// and `LitInt::base10_parse::<u64>`.
///
/// `syn` has the text cut into tokens by `proc-macro2`, whose own lexer and the
/// compiler's both take an integer literal for one token with the literal as
/// its text. From that text `syn` reads the digits in their base, passes over
/// each `_` and the name of the integer type, and gives the value if 64 bits
/// hold it. That is [`literal_value`] of the text.
///
/// Only an integer literal is handed over: what `syn` makes of another word is
/// not the same under every lexer, and `syn` goes as deep into its stack as
/// brackets are nested in a text.
#[verifier::external_body]
pub(crate) fn parse_literal(text: &str) -> (value: Option<u64>)
    requires
        is_integer_literal(text@),
    ensures
        value == literal_value(text@),
{
    match syn::parse_str::<syn::LitInt>(text) {
        Ok(literal) => literal.base10_parse::<u64>().ok(),
        Err(_) => None,
    }
}

} // verus!
