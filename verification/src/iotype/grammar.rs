//! The grammar of a description, stated by writing descriptions out.
//!
//! The tokens of a description are written out here, and what
//! [`parse_item`] reads is held against it: it reads a description from the
//! tokens that the description is written with, and from no others. In the
//! same way [`lex`] finds in a text the tokens that were written into it.

use vstd::prelude::*;

use crate::iotype::error::SyntaxError;
use crate::iotype::item::{
    fields_then, kind_at, parse_body, parse_field, parse_item, IoFieldView, IoTypeItemView, Kind,
};
use crate::iotype::primitive::lemma_name_names_primitive;
use crate::iotype::token::{
    is_blank, is_word, is_word_part, lex, lex_from, punctuation, word_end, word_token, TokenView,
};

verus! {

impl IoFieldView {
    /// The six tokens that declare the register.
    pub open spec fn tokens(self) -> Seq<TokenView> {
        seq![
            TokenView::Ident(self.ident),
            TokenView::Colon,
            if self.writable {
                TokenView::Mut
            } else {
                TokenView::Const
            },
            TokenView::Ident(self.primitive.name()),
            TokenView::Equals,
            TokenView::Number(self.offset),
        ]
    }
}

/// The tokens that declare the registers of a body: a `,` between each two, and
/// one after the last if `trailing` says so.
pub open spec fn body_tokens(body: Seq<IoFieldView>, trailing: bool) -> Seq<TokenView>
    decreases body.len(),
{
    if body.len() == 0 {
        Seq::empty()
    } else if body.len() == 1 {
        body[0].tokens() + if trailing {
            seq![TokenView::Comma]
        } else {
            Seq::empty()
        }
    } else {
        body[0].tokens() + seq![TokenView::Comma] + body_tokens(body.drop_first(), trailing)
    }
}

impl IoTypeItemView {
    /// The tokens before the registers.
    pub open spec fn head_tokens(self) -> Seq<TokenView> {
        (if self.public {
            seq![TokenView::Pub]
        } else {
            Seq::empty()
        }) + seq![
            TokenView::Type,
            TokenView::Ident(self.ident),
            TokenView::Colon,
            TokenView::Number(self.base_adr),
            TokenView::Comma,
            TokenView::Number(self.len),
            TokenView::OpenBrace,
        ]
    }

    /// The tokens that the description is written with.
    pub open spec fn tokens(self, trailing: bool) -> Seq<TokenView> {
        self.head_tokens() + body_tokens(self.body, trailing) + seq![TokenView::CloseBrace]
    }
}

/// The tokens that declare a register are read as that register, wherever
/// they stand.
pub proof fn lemma_field_is_read(tokens: Seq<TokenView>, at: int, field: IoFieldView)
    requires
        0 <= at,
        at + 6 <= tokens.len(),
        tokens.subrange(at, at + 6) == field.tokens(),
    ensures
        parse_field(tokens, at) == Ok::<IoFieldView, SyntaxError>(field),
{
    lemma_name_names_primitive(field.primitive);
    let written = field.tokens();
    assert forall|k: int| 0 <= k < 6 implies tokens[at + k] == #[trigger] written[k] by {
        assert(tokens.subrange(at, at + 6)[k] == tokens[at + k]);
    }
    assert(tokens[at] == written[0]);
    assert(tokens[at + 1] == written[1]);
    assert(tokens[at + 2] == written[2]);
    assert(tokens[at + 3] == written[3]);
    assert(tokens[at + 4] == written[4]);
    assert(tokens[at + 5] == written[5]);
}

/// Six tokens that are read as a register are the tokens that declare it.
pub proof fn lemma_field_is_read_from_its_tokens(
    tokens: Seq<TokenView>,
    at: int,
    field: IoFieldView,
)
    requires
        parse_field(tokens, at) == Ok::<IoFieldView, SyntaxError>(field),
    ensures
        0 <= at,
        at + 6 <= tokens.len(),
        tokens.subrange(at, at + 6) == field.tokens(),
{
    assert(kind_at(tokens, at) == Kind::Ident);
    assert(kind_at(tokens, at + 5) == Kind::Number);
    assert(tokens[at + 3] == TokenView::Ident(field.primitive.name()));
    assert(tokens.subrange(at, at + 6) =~= field.tokens());
}

/// Where the tokens that declare a register stand, the registers of the body
/// are read as that register and what the token after the six asks for.
proof fn lemma_body_begins_with_field(tokens: Seq<TokenView>, at: int, field: IoFieldView)
    requires
        0 <= at,
        at + 6 <= tokens.len(),
        tokens.subrange(at, at + 6) == field.tokens(),
    ensures
        parse_body(tokens, at) == if kind_at(tokens, at + 6) == Kind::Comma {
            fields_then(seq![field], parse_body(tokens, at + 7))
        } else if kind_at(tokens, at + 6) == Kind::CloseBrace {
            if at + 7 == tokens.len() {
                Ok::<Seq<IoFieldView>, SyntaxError>(seq![field])
            } else {
                Err::<Seq<IoFieldView>, SyntaxError>(SyntaxError::TrailingInput)
            }
        } else {
            Err::<Seq<IoFieldView>, SyntaxError>(SyntaxError::ExpectedComma)
        },
{
    lemma_field_is_read(tokens, at, field);
    assert(tokens[at] == tokens.subrange(at, at + 6)[0]);
    assert(kind_at(tokens, at) == Kind::Ident);
}

/// The registers of a body are read from the tokens that declare them and the
/// closing `}`, whatever stands before them.
#[verifier::rlimit(50)]
#[verifier::spinoff_prover]
pub proof fn lemma_body_is_read(before: Seq<TokenView>, body: Seq<IoFieldView>, trailing: bool)
    ensures
        parse_body(
            before + body_tokens(body, trailing) + seq![TokenView::CloseBrace],
            before.len() as int,
        ) == Ok::<Seq<IoFieldView>, SyntaxError>(body),
    decreases body.len(),
{
    let tokens = before + body_tokens(body, trailing) + seq![TokenView::CloseBrace];
    let at = before.len() as int;
    if body.len() == 0 {
        assert(tokens =~= before + seq![TokenView::CloseBrace]);
        assert(tokens[at] == TokenView::CloseBrace);
        assert(body =~= Seq::<IoFieldView>::empty());
    } else {
        let field = body[0];
        let written = field.tokens();
        if body.len() == 1 {
            assert(body =~= seq![field]);
            if trailing {
                assert(tokens =~= before + written + seq![
                    TokenView::Comma,
                    TokenView::CloseBrace,
                ]);
                assert(tokens.subrange(at, at + 6) =~= written);
                lemma_body_begins_with_field(tokens, at, field);
                assert(tokens[at + 6] == TokenView::Comma);
                assert(tokens[at + 7] == TokenView::CloseBrace);
                assert(parse_body(tokens, at + 7) == Ok::<Seq<IoFieldView>, SyntaxError>(
                    Seq::empty(),
                ));
                assert(seq![field] + Seq::<IoFieldView>::empty() =~= body);
            } else {
                assert(tokens =~= before + written + seq![TokenView::CloseBrace]);
                assert(tokens.subrange(at, at + 6) =~= written);
                lemma_body_begins_with_field(tokens, at, field);
                assert(tokens[at + 6] == TokenView::CloseBrace);
            }
        } else {
            let rest = body.drop_first();
            let next = before + written + seq![TokenView::Comma];
            assert(tokens =~= next + body_tokens(rest, trailing) + seq![TokenView::CloseBrace]);
            assert(tokens.subrange(at, at + 6) =~= written);
            lemma_body_begins_with_field(tokens, at, field);
            assert(tokens[at + 6] == TokenView::Comma);
            lemma_body_is_read(next, rest, trailing);
            assert(parse_body(tokens, at + 7) == Ok::<Seq<IoFieldView>, SyntaxError>(rest));
            assert(seq![field] + rest =~= body);
        }
    }
}

/// Tokens that are read as the registers of a body are the tokens that
/// declare them and the closing `}`, with or without a `,` after the last.
#[verifier::rlimit(50)]
#[verifier::spinoff_prover]
pub proof fn lemma_body_is_read_from_its_tokens(
    tokens: Seq<TokenView>,
    at: int,
    body: Seq<IoFieldView>,
)
    requires
        0 <= at <= tokens.len(),
        parse_body(tokens, at) == Ok::<Seq<IoFieldView>, SyntaxError>(body),
    ensures
        exists|trailing: bool|
            tokens.subrange(at, tokens.len() as int) == #[trigger] body_tokens(body, trailing)
                + seq![TokenView::CloseBrace],
    decreases tokens.len() - at,
{
    let tail = tokens.subrange(at, tokens.len() as int);
    if kind_at(tokens, at) == Kind::CloseBrace {
        assert(tail =~= body_tokens(body, false) + seq![TokenView::CloseBrace]);
    } else {
        let field = parse_field(tokens, at)->Ok_0;
        lemma_field_is_read_from_its_tokens(tokens, at, field);
        assert(tokens.subrange(at, at + 6) == field.tokens());
        if kind_at(tokens, at + 6) == Kind::Comma {
            let rest = parse_body(tokens, at + 7)->Ok_0;
            assert(body == seq![field] + rest);
            lemma_body_is_read_from_its_tokens(tokens, at + 7, rest);
            let trailing = choose|trailing: bool|
                tokens.subrange(at + 7, tokens.len() as int) == #[trigger] body_tokens(
                    rest,
                    trailing,
                ) + seq![TokenView::CloseBrace];
            let after = tokens.subrange(at + 7, tokens.len() as int);
            assert(tail =~= tokens.subrange(at, at + 6) + seq![TokenView::Comma] + after);
            if rest.len() == 0 {
                assert(body =~= seq![field]);
                assert(body_tokens(rest, trailing) =~= Seq::<TokenView>::empty());
                assert(tail =~= body_tokens(body, true) + seq![TokenView::CloseBrace]);
            } else {
                assert(body.drop_first() =~= rest);
                assert(body[0] == field);
                assert(tail =~= body_tokens(body, trailing) + seq![TokenView::CloseBrace]);
            }
        } else {
            assert(body == seq![field]);
            assert(tail =~= body_tokens(body, false) + seq![TokenView::CloseBrace]);
        }
    }
}

/// A description is read from the tokens that it is written with, with or
/// without a `,` after the last register.
#[verifier::rlimit(50)]
#[verifier::spinoff_prover]
pub proof fn lemma_description_is_read(item: IoTypeItemView, trailing: bool)
    ensures
        parse_item(item.tokens(trailing)) == Ok::<IoTypeItemView, SyntaxError>(item),
{
    let head = item.head_tokens();
    let tokens = item.tokens(trailing);
    lemma_body_is_read(head, item.body, trailing);
    if item.public {
        assert(head.len() == 8);
        assert(tokens[0] == head[0]);
        assert(tokens[1] == head[1]);
        assert(tokens[2] == head[2]);
        assert(tokens[3] == head[3]);
        assert(tokens[4] == head[4]);
        assert(tokens[5] == head[5]);
        assert(tokens[6] == head[6]);
        assert(tokens[7] == head[7]);
    } else {
        assert(head.len() == 7);
        assert(tokens[0] == head[0]);
        assert(tokens[1] == head[1]);
        assert(tokens[2] == head[2]);
        assert(tokens[3] == head[3]);
        assert(tokens[4] == head[4]);
        assert(tokens[5] == head[5]);
        assert(tokens[6] == head[6]);
    }
}

/// Tokens that are read as a description are the tokens that the description
/// is written with, with or without a `,` after the last register.
#[verifier::rlimit(50)]
#[verifier::spinoff_prover]
pub proof fn lemma_description_is_read_from_its_tokens(
    tokens: Seq<TokenView>,
    item: IoTypeItemView,
)
    requires
        parse_item(tokens) == Ok::<IoTypeItemView, SyntaxError>(item),
    ensures
        exists|trailing: bool| tokens == #[trigger] item.tokens(trailing),
{
    let head = item.head_tokens();
    let at: int = if item.public {
        1
    } else {
        0
    };
    assert(kind_at(tokens, at + 6) == Kind::OpenBrace);
    lemma_body_is_read_from_its_tokens(tokens, at + 7, item.body);
    let trailing = choose|trailing: bool|
        tokens.subrange(at + 7, tokens.len() as int) == #[trigger] body_tokens(
            item.body,
            trailing,
        ) + seq![TokenView::CloseBrace];
    if item.public {
        assert(tokens.subrange(0, 8) =~= head);
    } else {
        assert(tokens.subrange(0, 7) =~= head);
    }
    assert(tokens =~= tokens.subrange(0, at + 7) + tokens.subrange(at + 7, tokens.len() as int));
    assert(tokens =~= item.tokens(trailing));
}

/// What is read is what was written: the tokens are read as a description
/// exactly if they are the tokens that the description is written with, with
/// or without a `,` after the last register.
pub proof fn lemma_reading_is_the_grammar(tokens: Seq<TokenView>, item: IoTypeItemView)
    ensures
        parse_item(tokens) == Ok::<IoTypeItemView, SyntaxError>(item) <==> exists|trailing: bool|
            tokens == #[trigger] item.tokens(trailing),
{
    if parse_item(tokens) == Ok::<IoTypeItemView, SyntaxError>(item) {
        lemma_description_is_read_from_its_tokens(tokens, item);
    }
    if exists|trailing: bool| tokens == #[trigger] item.tokens(trailing) {
        let trailing = choose|trailing: bool| tokens == #[trigger] item.tokens(trailing);
        lemma_description_is_read(item, trailing);
    }
}

/// Whether `text` is a way to write `token`: the one character of a token of
/// punctuation, or a word that is the token.
pub open spec fn writes(text: Seq<char>, token: TokenView) -> bool {
    if text.len() == 1 && punctuation(text[0]) is Some {
        punctuation(text[0]) == Some(token)
    } else {
        is_word(text) && word_token(text) == Ok::<TokenView, SyntaxError>(token)
    }
}

/// The texts in a row, with a blank after each.
pub open spec fn spaced(texts: Seq<Seq<char>>) -> Seq<char>
    decreases texts.len(),
{
    if texts.len() == 0 {
        Seq::empty()
    } else {
        texts[0] + seq![' '] + spaced(texts.drop_first())
    }
}

/// Whether `texts` are ways to write `tokens`, one for one.
pub open spec fn writes_all(texts: Seq<Seq<char>>, tokens: Seq<TokenView>) -> bool {
    &&& texts.len() == tokens.len()
    &&& forall|i: int| 0 <= i < texts.len() ==> writes(#[trigger] texts[i], tokens[i])
}

/// A word that stands in a text ends where its characters end.
pub proof fn lemma_word_ends_with_its_characters(text: Seq<char>, from: int, end: int)
    requires
        0 <= from <= end <= text.len(),
        forall|k: int| from <= k < end ==> is_word_part(#[trigger] text[k]),
        end == text.len() || !is_word_part(text[end]),
    ensures
        word_end(text, from) == end,
    decreases end - from,
{
    if from < end {
        assert(is_word_part(text[from]));
        lemma_word_ends_with_its_characters(text, from + 1, end);
    }
}

/// Tokens that are written with a blank after each are found again, whatever
/// stands before them.
#[verifier::rlimit(50)]
#[verifier::spinoff_prover]
pub proof fn lemma_written_tokens_are_found(
    before: Seq<char>,
    texts: Seq<Seq<char>>,
    tokens: Seq<TokenView>,
)
    requires
        writes_all(texts, tokens),
    ensures
        lex_from(before + spaced(texts), before.len() as int) == Ok::<
            Seq<TokenView>,
            SyntaxError,
        >(tokens),
    decreases texts.len(),
{
    let text = before + spaced(texts);
    let at = before.len() as int;
    if texts.len() == 0 {
        assert(text =~= before);
        assert(tokens =~= Seq::<TokenView>::empty());
    } else {
        let first = texts[0];
        let rest = texts.drop_first();
        let next = before + first + seq![' '];
        let end = at + first.len();
        assert(writes(first, tokens[0]));
        assert(text =~= next + spaced(rest));
        assert(writes_all(rest, tokens.drop_first())) by {
            assert forall|i: int| 0 <= i < rest.len() implies writes(
                #[trigger] rest[i],
                tokens.drop_first()[i],
            ) by {
                assert(writes(texts[i + 1], tokens[i + 1]));
            }
        }
        lemma_written_tokens_are_found(next, rest, tokens.drop_first());
        assert(next.len() == end + 1);
        assert(text[end] == ' ');
        assert(lex_from(text, end) == lex_from(text, end + 1));
        assert(seq![tokens[0]] + tokens.drop_first() =~= tokens);
        assert(text[at] == first[0]);
        if first.len() == 1 && punctuation(first[0]) is Some {
            assert(!is_blank(first[0]) && !is_word_part(first[0]));
        } else {
            assert(is_word_part(first[0]));
            assert forall|k: int| at <= k < end implies is_word_part(#[trigger] text[k]) by {
                assert(text[k] == first[k - at]);
            }
            lemma_word_ends_with_its_characters(text, at + 1, end);
            assert(text.subrange(at, end) =~= first);
        }
    }
}

/// What is found is what was written: the tokens of a text in which tokens are
/// written with a blank after each are those tokens.
pub proof fn lemma_lex_finds_what_is_written(texts: Seq<Seq<char>>, tokens: Seq<TokenView>)
    requires
        writes_all(texts, tokens),
    ensures
        lex(spaced(texts)) == Ok::<Seq<TokenView>, SyntaxError>(tokens),
{
    lemma_written_tokens_are_found(Seq::empty(), texts, tokens);
    assert(Seq::<char>::empty() + spaced(texts) =~= spaced(texts));
    lemma_written_text_is_ascii(texts, tokens);
}

/// A text in which tokens are written holds no character outside ASCII.
#[verifier::rlimit(50)]
#[verifier::spinoff_prover]
pub proof fn lemma_written_text_is_ascii(texts: Seq<Seq<char>>, tokens: Seq<TokenView>)
    requires
        writes_all(texts, tokens),
    ensures
        vstd::utf8::is_ascii_chars(spaced(texts)),
    decreases texts.len(),
{
    if texts.len() > 0 {
        let first = texts[0];
        let rest = texts.drop_first();
        assert(writes(first, tokens[0]));
        assert(writes_all(rest, tokens.drop_first())) by {
            assert forall|i: int| 0 <= i < rest.len() implies writes(
                #[trigger] rest[i],
                tokens.drop_first()[i],
            ) by {
                assert(writes(texts[i + 1], tokens[i + 1]));
            }
        }
        lemma_written_text_is_ascii(rest, tokens.drop_first());
        let text = spaced(texts);
        assert forall|i: int| 0 <= i < text.len() implies '\0' <= #[trigger] text[i]
            <= '\u{7f}' by {
            if i < first.len() {
                assert(text[i] == first[i]);
                if !(first.len() == 1 && punctuation(first[0]) is Some) {
                    assert(is_word_part(first[i]));
                }
            } else if i == first.len() {
                assert(text[i] == ' ');
            } else {
                assert(text[i] == spaced(rest)[i - first.len() - 1]);
            }
        }
    }
}

} // verus!
