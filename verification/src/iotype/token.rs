//! The tokens of a description, and the cutting of a text into them.

use vstd::prelude::*;
use vstd::string::*;

use crate::iotype::error::SyntaxError;
use crate::iotype::literal::{is_literal, literal_value, parse_literal};
use crate::text::same_text;

verus! {

/// A token of a description.
#[derive(Debug, PartialEq, Eq)]
pub enum Token {
    /// The keyword `pub`.
    Pub,
    /// The keyword `type`.
    Type,
    /// The keyword `mut`.
    Mut,
    /// The keyword `const`.
    Const,
    /// Another word that Rust keeps for itself, and that can be no name.
    Reserved,
    /// A name: a word that Rust does not keep for itself and that does not
    /// start with a digit.
    Ident(String),
    /// A number, by its value.
    Number(u64),
    /// `:`
    Colon,
    /// `,`
    Comma,
    /// `=`
    Equals,
    /// `{`
    OpenBrace,
    /// `}`
    CloseBrace,
}

/// What a [`Token`] stands for.
pub ghost enum TokenView {
    Pub,
    Type,
    Mut,
    Const,
    Reserved,
    Ident(Seq<char>),
    Number(u64),
    Colon,
    Comma,
    Equals,
    OpenBrace,
    CloseBrace,
}

impl View for Token {
    type V = TokenView;

    open spec fn view(&self) -> TokenView {
        match self {
            Token::Pub => TokenView::Pub,
            Token::Type => TokenView::Type,
            Token::Mut => TokenView::Mut,
            Token::Const => TokenView::Const,
            Token::Reserved => TokenView::Reserved,
            Token::Ident(name) => TokenView::Ident(name@),
            Token::Number(value) => TokenView::Number(*value),
            Token::Colon => TokenView::Colon,
            Token::Comma => TokenView::Comma,
            Token::Equals => TokenView::Equals,
            Token::OpenBrace => TokenView::OpenBrace,
            Token::CloseBrace => TokenView::CloseBrace,
        }
    }
}

impl Token {
    /// The token of a number whose text has the value `value`, or has none.
    pub fn number(value: Option<u64>) -> (result: Result<Token, SyntaxError>)
        ensures
            match value {
                Some(value) => result matches Ok(token) && token@ == TokenView::Number(value),
                None => result == Err::<Token, SyntaxError>(SyntaxError::MalformedNumber),
            },
    {
        match value {
            Some(value) => Ok(Token::Number(value)),
            None => Err(SyntaxError::MalformedNumber),
        }
    }
}

/// What a sequence of tokens stands for.
pub open spec fn tokens_view(tokens: Seq<Token>) -> Seq<TokenView> {
    tokens.map_values(|token: Token| token@)
}

/// Blanks separate tokens and mean nothing else.
pub open spec fn is_blank(c: char) -> bool {
    c == ' ' || c == '\t' || c == '\n' || c == '\r'
}

/// The digits.
pub open spec fn is_digit(c: char) -> bool {
    '0' <= c <= '9'
}

/// The characters of a word: letters, digits and the underscore.
pub open spec fn is_word_part(c: char) -> bool {
    'a' <= c <= 'z' || 'A' <= c <= 'Z' || c == '_' || is_digit(c)
}

/// Whether `text` is a word: one character or more, each a letter, a digit or
/// the underscore.
pub open spec fn is_word(text: Seq<char>) -> bool {
    text.len() > 0 && forall|i: int| 0 <= i < text.len() ==> is_word_part(#[trigger] text[i])
}

/// Whether `text` is the word of a number: a word that starts with a digit.
pub open spec fn is_number_word(text: Seq<char>) -> bool {
    is_word(text) && is_digit(text[0])
}

/// The token that is a single character, if `c` is one.
pub open spec fn punctuation(c: char) -> Option<TokenView> {
    if c == ':' {
        Some(TokenView::Colon)
    } else if c == ',' {
        Some(TokenView::Comma)
    } else if c == '=' {
        Some(TokenView::Equals)
    } else if c == '{' {
        Some(TokenView::OpenBrace)
    } else if c == '}' {
        Some(TokenView::CloseBrace)
    } else {
        None
    }
}

/// Whether `word` is a word that Rust keeps for itself, other than the four
/// that a description is written with: a keyword of the language, one that is
/// set aside for later, or the lone underscore.
pub open spec fn is_reserved(word: Seq<char>) -> bool {
    ||| word == "_"@
    ||| word == "abstract"@
    ||| word == "as"@
    ||| word == "async"@
    ||| word == "await"@
    ||| word == "become"@
    ||| word == "box"@
    ||| word == "break"@
    ||| word == "continue"@
    ||| word == "crate"@
    ||| word == "do"@
    ||| word == "dyn"@
    ||| word == "else"@
    ||| word == "enum"@
    ||| word == "extern"@
    ||| word == "false"@
    ||| word == "final"@
    ||| word == "fn"@
    ||| word == "for"@
    ||| word == "if"@
    ||| word == "impl"@
    ||| word == "in"@
    ||| word == "let"@
    ||| word == "loop"@
    ||| word == "macro"@
    ||| word == "match"@
    ||| word == "mod"@
    ||| word == "move"@
    ||| word == "override"@
    ||| word == "priv"@
    ||| word == "ref"@
    ||| word == "return"@
    ||| word == "Self"@
    ||| word == "self"@
    ||| word == "static"@
    ||| word == "struct"@
    ||| word == "super"@
    ||| word == "trait"@
    ||| word == "true"@
    ||| word == "try"@
    ||| word == "typeof"@
    ||| word == "unsafe"@
    ||| word == "unsized"@
    ||| word == "use"@
    ||| word == "virtual"@
    ||| word == "where"@
    ||| word == "while"@
    ||| word == "yield"@
}

/// The token that a word is. A word that starts with a digit is a number, and
/// must be an integer literal that is worth no more than 64 bits hold.
pub open spec fn word_token(word: Seq<char>) -> Result<TokenView, SyntaxError> {
    if word.len() > 0 && is_digit(word[0]) {
        match literal_value(word) {
            Some(value) => Ok(TokenView::Number(value)),
            None => Err(SyntaxError::MalformedNumber),
        }
    } else if word == "pub"@ {
        Ok(TokenView::Pub)
    } else if word == "type"@ {
        Ok(TokenView::Type)
    } else if word == "mut"@ {
        Ok(TokenView::Mut)
    } else if word == "const"@ {
        Ok(TokenView::Const)
    } else if is_reserved(word) {
        Ok(TokenView::Reserved)
    } else {
        Ok(TokenView::Ident(word))
    }
}

/// Where the word ends that holds the characters before `from`: at the first
/// character from `from` on that is no part of a word, or at the end of the text.
pub open spec fn word_end(text: Seq<char>, from: int) -> int
    decreases text.len() - from,
{
    if 0 <= from < text.len() && is_word_part(text[from]) {
        word_end(text, from + 1)
    } else {
        from
    }
}

/// Puts `tokens` before the tokens of the rest of a text, if the rest has any.
pub open spec fn tokens_then(
    tokens: Seq<TokenView>,
    rest: Result<Seq<TokenView>, SyntaxError>,
) -> Result<Seq<TokenView>, SyntaxError> {
    match rest {
        Ok(rest) => Ok(tokens + rest),
        Err(error) => Err(error),
    }
}

/// The tokens of `text` from the character at `from` on, or the first error on
/// the way. A word reaches as far as it can.
pub open spec fn lex_from(text: Seq<char>, from: int) -> Result<Seq<TokenView>, SyntaxError>
    decreases text.len() - from,
{
    if from < 0 || from >= text.len() {
        Ok(Seq::empty())
    } else if is_blank(text[from]) {
        lex_from(text, from + 1)
    } else if is_word_part(text[from]) {
        let end = word_end(text, from + 1);
        proof {
            lemma_word_end_bounds(text, from + 1);
        }
        match word_token(text.subrange(from, end)) {
            Ok(token) => tokens_then(seq![token], lex_from(text, end)),
            Err(error) => Err(error),
        }
    } else {
        match punctuation(text[from]) {
            Some(token) => tokens_then(seq![token], lex_from(text, from + 1)),
            None => Err(SyntaxError::InvalidCharacter),
        }
    }
}

/// The tokens of a text. A text with a character outside ASCII has none.
pub open spec fn lex(text: Seq<char>) -> Result<Seq<TokenView>, SyntaxError> {
    if vstd::utf8::is_ascii_chars(text) {
        lex_from(text, 0)
    } else {
        Err(SyntaxError::InvalidCharacter)
    }
}

/// A word holds no character outside ASCII.
pub proof fn lemma_word_is_ascii(word: Seq<char>)
    requires
        is_word(word),
    ensures
        vstd::utf8::is_ascii_chars(word),
{
    assert forall|i: int| 0 <= i < word.len() implies '\0' <= #[trigger] word[i] <= '\u{7f}' by {
        assert(is_word_part(word[i]));
    }
}

/// A word ends inside the text and not before the place it is looked for from.
pub proof fn lemma_word_end_bounds(text: Seq<char>, from: int)
    requires
        0 <= from <= text.len(),
    ensures
        from <= word_end(text, from) <= text.len(),
    decreases text.len() - from,
{
    if from < text.len() && is_word_part(text[from]) {
        lemma_word_end_bounds(text, from + 1);
    }
}

/// What the outcome of [`tokenize`] stands for.
pub open spec fn tokenized_view(
    result: Result<Vec<Token>, SyntaxError>,
) -> Result<Seq<TokenView>, SyntaxError> {
    match result {
        Ok(tokens) => Ok(tokens_view(tokens@)),
        Err(error) => Err(error),
    }
}

pub(crate) fn char_at(text: &str, at: usize) -> (c: char)
    requires
        text.is_ascii(),
        at < text@.len(),
    ensures
        c == text@[at as int],
{
    text.get_ascii(at) as char
}

fn blank(c: char) -> (yes: bool)
    ensures
        yes == is_blank(c),
{
    c == ' ' || c == '\t' || c == '\n' || c == '\r'
}

fn digit(c: char) -> (yes: bool)
    ensures
        yes == is_digit(c),
{
    '0' <= c && c <= '9'
}

fn word_part(c: char) -> (yes: bool)
    ensures
        yes == is_word_part(c),
{
    ('a' <= c && c <= 'z') || ('A' <= c && c <= 'Z') || c == '_' || digit(c)
}

fn punctuation_token(c: char) -> (token: Option<Token>)
    ensures
        match token {
            Some(token) => punctuation(c) == Some(token@),
            None => punctuation(c) is None,
        },
{
    if c == ':' {
        Some(Token::Colon)
    } else if c == ',' {
        Some(Token::Comma)
    } else if c == '=' {
        Some(Token::Equals)
    } else if c == '{' {
        Some(Token::OpenBrace)
    } else if c == '}' {
        Some(Token::CloseBrace)
    } else {
        None
    }
}

fn reserved(word: &str) -> (yes: bool)
    ensures
        yes == is_reserved(word@),
{
    same_text(word, "_")
        || same_text(word, "abstract")
        || same_text(word, "as")
        || same_text(word, "async")
        || same_text(word, "await")
        || same_text(word, "become")
        || same_text(word, "box")
        || same_text(word, "break")
        || same_text(word, "continue")
        || same_text(word, "crate")
        || same_text(word, "do")
        || same_text(word, "dyn")
        || same_text(word, "else")
        || same_text(word, "enum")
        || same_text(word, "extern")
        || same_text(word, "false")
        || same_text(word, "final")
        || same_text(word, "fn")
        || same_text(word, "for")
        || same_text(word, "if")
        || same_text(word, "impl")
        || same_text(word, "in")
        || same_text(word, "let")
        || same_text(word, "loop")
        || same_text(word, "macro")
        || same_text(word, "match")
        || same_text(word, "mod")
        || same_text(word, "move")
        || same_text(word, "override")
        || same_text(word, "priv")
        || same_text(word, "ref")
        || same_text(word, "return")
        || same_text(word, "Self")
        || same_text(word, "self")
        || same_text(word, "static")
        || same_text(word, "struct")
        || same_text(word, "super")
        || same_text(word, "trait")
        || same_text(word, "true")
        || same_text(word, "try")
        || same_text(word, "typeof")
        || same_text(word, "unsafe")
        || same_text(word, "unsized")
        || same_text(word, "use")
        || same_text(word, "virtual")
        || same_text(word, "where")
        || same_text(word, "while")
        || same_text(word, "yield")
}

/// The token that `word` is, whose first character is `first`.
fn classify(first: char, word: &str) -> (result: Result<Token, SyntaxError>)
    requires
        is_word(word@),
        first == word@[0],
    ensures
        match result {
            Ok(token) => word_token(word@) == Ok::<TokenView, SyntaxError>(token@),
            Err(error) => word_token(word@) == Err::<TokenView, SyntaxError>(error),
        },
{
    if digit(first) {
        if is_literal(word) {
            Token::number(parse_literal(word))
        } else {
            Err(SyntaxError::MalformedNumber)
        }
    } else if same_text(word, "pub") {
        Ok(Token::Pub)
    } else if same_text(word, "type") {
        Ok(Token::Type)
    } else if same_text(word, "mut") {
        Ok(Token::Mut)
    } else if same_text(word, "const") {
        Ok(Token::Const)
    } else if reserved(word) {
        Ok(Token::Reserved)
    } else {
        Ok(Token::Ident(word.to_owned()))
    }
}

/// Cuts a description into its tokens.
///
/// Blanks separate tokens. A word is as long as it can be; one that starts
/// with a digit is a number, whose value `syn` reads. The first character that
/// fits no token, or the first number that is none, ends the work with an error.
pub fn tokenize(text: &str) -> (result: Result<Vec<Token>, SyntaxError>)
    ensures
        tokenized_view(result) == lex(text@),
{
    if !text.is_ascii() {
        return Err(SyntaxError::InvalidCharacter);
    }
    proof {
        is_ascii_spec_bytes(text);
    }
    let length: usize = text.as_bytes().len();
    let mut tokens: Vec<Token> = Vec::new();
    let mut at: usize = 0;
    while at < length
        invariant
            text.is_ascii(),
            length == text@.len(),
            at <= length,
            lex_from(text@, 0) == tokens_then(tokens_view(tokens@), lex_from(text@, at as int)),
        decreases length - at,
    {
        let c = char_at(text, at);
        if blank(c) {
            at = at + 1;
        } else if word_part(c) {
            let mut end: usize = at + 1;
            while end < length && word_part(char_at(text, end))
                invariant
                    text.is_ascii(),
                    length == text@.len(),
                    at < end <= length,
                    word_end(text@, end as int) == word_end(text@, at + 1),
                    forall|k: int| at <= k < end ==> is_word_part(#[trigger] text@[k]),
                decreases length - end,
            {
                end = end + 1;
            }
            let word = text.substring_ascii(at, end);
            assert(is_word(word@)) by {
                assert forall|k: int| 0 <= k < word@.len() implies is_word_part(
                    #[trigger] word@[k],
                ) by {
                    assert(word@[k] == text@[at + k]);
                }
            }
            match classify(c, word) {
                Ok(token) => {
                    proof {
                        lemma_tokens_then_push(
                            tokens_view(tokens@),
                            token@,
                            lex_from(text@, end as int),
                        );
                        assert(tokens_view(tokens@.push(token)) == tokens_view(tokens@).push(
                            token@,
                        ));
                    }
                    tokens.push(token);
                },
                Err(error) => {
                    return Err(error);
                },
            }
            at = end;
        } else {
            match punctuation_token(c) {
                Some(token) => {
                    proof {
                        lemma_tokens_then_push(
                            tokens_view(tokens@),
                            token@,
                            lex_from(text@, at + 1),
                        );
                        assert(tokens_view(tokens@.push(token)) == tokens_view(tokens@).push(
                            token@,
                        ));
                    }
                    tokens.push(token);
                },
                None => {
                    return Err(SyntaxError::InvalidCharacter);
                },
            }
            at = at + 1;
        }
    }
    proof {
        assert(tokens_view(tokens@) + Seq::<TokenView>::empty() == tokens_view(tokens@));
    }
    Ok(tokens)
}

/// To put tokens and one more before the rest is to put the tokens before the
/// one more and the rest.
proof fn lemma_tokens_then_push(
    tokens: Seq<TokenView>,
    token: TokenView,
    rest: Result<Seq<TokenView>, SyntaxError>,
)
    ensures
        tokens_then(tokens.push(token), rest) == tokens_then(tokens, tokens_then(seq![token], rest)),
{
    if let Ok(rest) = rest {
        assert(tokens.push(token) + rest == tokens + (seq![token] + rest));
    }
}

} // verus!
