//! The description of a register block, and its reading from tokens.

use vstd::prelude::*;

use crate::iotype::error::SyntaxError;
use crate::iotype::primitive::Primitive;
use crate::iotype::token::{tokens_view, Token, TokenView};

verus! {

/// One register of a block.
#[derive(Debug, PartialEq, Eq)]
pub struct IoField {
    /// The name of the register.
    pub ident: String,
    /// Whether the register can be written.
    pub writable: bool,
    /// The width of the register.
    pub primitive: Primitive,
    /// The offset of the register from the base address of the block, in bytes.
    pub offset: u64,
}

/// What an [`IoField`] stands for.
pub ghost struct IoFieldView {
    pub ident: Seq<char>,
    pub writable: bool,
    pub primitive: Primitive,
    pub offset: u64,
}

impl View for IoField {
    type V = IoFieldView;

    open spec fn view(&self) -> IoFieldView {
        IoFieldView {
            ident: self.ident@,
            writable: self.writable,
            primitive: self.primitive,
            offset: self.offset,
        }
    }
}

/// What a sequence of registers stands for.
pub open spec fn fields_view(fields: Seq<IoField>) -> Seq<IoFieldView> {
    fields.map_values(|field: IoField| field@)
}

/// The description of a register block.
#[derive(Debug, PartialEq, Eq)]
pub struct IoTypeItem {
    /// Whether the block is declared `pub`.
    pub public: bool,
    /// The name of the block.
    pub ident: String,
    /// The address of the first byte of the block.
    pub base_adr: u64,
    /// The length of the block in bytes.
    pub len: u64,
    /// The registers, in the order of the description.
    pub body: Vec<IoField>,
}

/// What an [`IoTypeItem`] stands for.
pub ghost struct IoTypeItemView {
    pub public: bool,
    pub ident: Seq<char>,
    pub base_adr: u64,
    pub len: u64,
    pub body: Seq<IoFieldView>,
}

impl View for IoTypeItem {
    type V = IoTypeItemView;

    open spec fn view(&self) -> IoTypeItemView {
        IoTypeItemView {
            public: self.public,
            ident: self.ident@,
            base_adr: self.base_adr,
            len: self.len,
            body: fields_view(self.body@),
        }
    }
}

/// The kinds of token, and the end of the tokens.
#[derive(Debug, Clone, Copy, PartialEq, Eq, Structural)]
pub enum Kind {
    Pub,
    Type,
    Mut,
    Const,
    Reserved,
    Ident,
    Number,
    Colon,
    Comma,
    Equals,
    OpenBrace,
    CloseBrace,
    /// No token: the place is past the last one.
    End,
}

/// The kind of a token.
pub open spec fn kind_of(token: TokenView) -> Kind {
    match token {
        TokenView::Pub => Kind::Pub,
        TokenView::Type => Kind::Type,
        TokenView::Mut => Kind::Mut,
        TokenView::Const => Kind::Const,
        TokenView::Reserved => Kind::Reserved,
        TokenView::Ident(_) => Kind::Ident,
        TokenView::Number(_) => Kind::Number,
        TokenView::Colon => Kind::Colon,
        TokenView::Comma => Kind::Comma,
        TokenView::Equals => Kind::Equals,
        TokenView::OpenBrace => Kind::OpenBrace,
        TokenView::CloseBrace => Kind::CloseBrace,
    }
}

/// The kind of the token at `at`.
pub open spec fn kind_at(tokens: Seq<TokenView>, at: int) -> Kind {
    if 0 <= at < tokens.len() {
        kind_of(tokens[at])
    } else {
        Kind::End
    }
}

/// The name that the token at `at` is. It means something where that token is a name.
pub open spec fn name_at(tokens: Seq<TokenView>, at: int) -> Seq<char> {
    match tokens[at] {
        TokenView::Ident(name) => name,
        _ => Seq::empty(),
    }
}

/// The value of the token at `at`. It means something where that token is a number.
pub open spec fn number_at(tokens: Seq<TokenView>, at: int) -> u64 {
    match tokens[at] {
        TokenView::Number(value) => value,
        _ => 0,
    }
}

/// The register that the six tokens from `at` on declare:
/// a name, `:`, `mut` or `const`, a width, `=` and the offset.
/// Where they declare none, the error names what is wrong with the first token
/// that does not fit.
pub open spec fn parse_field(tokens: Seq<TokenView>, at: int) -> Result<IoFieldView, SyntaxError> {
    if kind_at(tokens, at) != Kind::Ident {
        Err(SyntaxError::ExpectedName)
    } else if kind_at(tokens, at + 1) != Kind::Colon {
        Err(SyntaxError::ExpectedColon)
    } else if kind_at(tokens, at + 2) != Kind::Mut && kind_at(tokens, at + 2) != Kind::Const {
        Err(SyntaxError::MissingMutability)
    } else if kind_at(tokens, at + 3) != Kind::Ident || Primitive::named(name_at(tokens, at + 3))
        is None {
        Err(SyntaxError::UnknownWidth)
    } else if kind_at(tokens, at + 4) != Kind::Equals {
        Err(SyntaxError::ExpectedEquals)
    } else if kind_at(tokens, at + 5) != Kind::Number {
        Err(SyntaxError::ExpectedNumber)
    } else {
        Ok(
            IoFieldView {
                ident: name_at(tokens, at),
                writable: kind_at(tokens, at + 2) == Kind::Mut,
                primitive: Primitive::named(name_at(tokens, at + 3))->Some_0,
                offset: number_at(tokens, at + 5),
            },
        )
    }
}

/// Puts `fields` before the registers that the rest of the tokens declare, if
/// the rest declares any.
pub open spec fn fields_then(
    fields: Seq<IoFieldView>,
    rest: Result<Seq<IoFieldView>, SyntaxError>,
) -> Result<Seq<IoFieldView>, SyntaxError> {
    match rest {
        Ok(rest) => Ok(fields + rest),
        Err(error) => Err(error),
    }
}

/// The registers that the tokens from `at` on declare, up to the `}` that
/// closes the body and must be the last token. Registers are separated by `,`,
/// and a `,` may follow the last one.
pub open spec fn parse_body(tokens: Seq<TokenView>, at: int) -> Result<
    Seq<IoFieldView>,
    SyntaxError,
>
    decreases tokens.len() - at,
{
    if kind_at(tokens, at) == Kind::End {
        Err(SyntaxError::ExpectedCloseBrace)
    } else if kind_at(tokens, at) == Kind::CloseBrace {
        if at + 1 == tokens.len() {
            Ok(Seq::empty())
        } else {
            Err(SyntaxError::TrailingInput)
        }
    } else {
        match parse_field(tokens, at) {
            Err(error) => Err(error),
            Ok(field) => {
                if kind_at(tokens, at + 6) == Kind::Comma {
                    fields_then(seq![field], parse_body(tokens, at + 7))
                } else if kind_at(tokens, at + 6) == Kind::CloseBrace {
                    if at + 7 == tokens.len() {
                        Ok(seq![field])
                    } else {
                        Err(SyntaxError::TrailingInput)
                    }
                } else {
                    Err(SyntaxError::ExpectedComma)
                }
            },
        }
    }
}

/// The description that the tokens are: `pub` or nothing, `type`, the name of
/// the block, `:`, the base address, `,`, the length, `{`, the registers and `}`.
/// Where they are none, the error names what is wrong with the first token that
/// does not fit.
pub open spec fn parse_item(tokens: Seq<TokenView>) -> Result<IoTypeItemView, SyntaxError> {
    let public = kind_at(tokens, 0) == Kind::Pub;
    let at: int = if public {
        1
    } else {
        0
    };
    if kind_at(tokens, at) != Kind::Type {
        Err(SyntaxError::ExpectedType)
    } else if kind_at(tokens, at + 1) != Kind::Ident {
        Err(SyntaxError::ExpectedName)
    } else if kind_at(tokens, at + 2) != Kind::Colon {
        Err(SyntaxError::ExpectedColon)
    } else if kind_at(tokens, at + 3) != Kind::Number {
        Err(SyntaxError::ExpectedNumber)
    } else if kind_at(tokens, at + 4) != Kind::Comma {
        Err(SyntaxError::ExpectedComma)
    } else if kind_at(tokens, at + 5) != Kind::Number {
        Err(SyntaxError::ExpectedNumber)
    } else if kind_at(tokens, at + 6) != Kind::OpenBrace {
        Err(SyntaxError::ExpectedOpenBrace)
    } else {
        match parse_body(tokens, at + 7) {
            Err(error) => Err(error),
            Ok(body) => Ok(
                IoTypeItemView {
                    public,
                    ident: name_at(tokens, at + 1),
                    base_adr: number_at(tokens, at + 3),
                    len: number_at(tokens, at + 5),
                    body,
                },
            ),
        }
    }
}

/// The kind of the token at `at`.
fn kind(tokens: &Vec<Token>, at: usize) -> (kind: Kind)
    ensures
        kind == kind_at(tokens_view(tokens@), at as int),
        kind != Kind::End <==> at < tokens.len(),
{
    if at < tokens.len() {
        match &tokens[at] {
            Token::Pub => Kind::Pub,
            Token::Type => Kind::Type,
            Token::Mut => Kind::Mut,
            Token::Const => Kind::Const,
            Token::Reserved => Kind::Reserved,
            Token::Ident(_) => Kind::Ident,
            Token::Number(_) => Kind::Number,
            Token::Colon => Kind::Colon,
            Token::Comma => Kind::Comma,
            Token::Equals => Kind::Equals,
            Token::OpenBrace => Kind::OpenBrace,
            Token::CloseBrace => Kind::CloseBrace,
        }
    } else {
        Kind::End
    }
}

/// The name that the token at `at` is.
fn name(tokens: &Vec<Token>, at: usize) -> (name: &str)
    requires
        kind_at(tokens_view(tokens@), at as int) == Kind::Ident,
    ensures
        name@ == name_at(tokens_view(tokens@), at as int),
{
    match &tokens[at] {
        Token::Ident(name) => name.as_str(),
        _ => "",
    }
}

/// The value of the token at `at`.
fn number(tokens: &Vec<Token>, at: usize) -> (value: u64)
    requires
        kind_at(tokens_view(tokens@), at as int) == Kind::Number,
    ensures
        value == number_at(tokens_view(tokens@), at as int),
{
    match &tokens[at] {
        Token::Number(value) => *value,
        _ => 0,
    }
}

/// What the outcome of [`IoField::parse`] stands for.
pub open spec fn field_result_view(result: Result<IoField, SyntaxError>) -> Result<
    IoFieldView,
    SyntaxError,
> {
    match result {
        Ok(field) => Ok(field@),
        Err(error) => Err(error),
    }
}

/// What the outcome of [`IoTypeItem::parse`] stands for.
pub open spec fn item_result_view(result: Result<IoTypeItem, SyntaxError>) -> Result<
    IoTypeItemView,
    SyntaxError,
> {
    match result {
        Ok(item) => Ok(item@),
        Err(error) => Err(error),
    }
}

impl IoField {
    /// Reads the register that the six tokens from `at` on declare.
    pub fn parse(tokens: &Vec<Token>, at: usize) -> (result: Result<IoField, SyntaxError>)
        ensures
            field_result_view(result) == parse_field(tokens_view(tokens@), at as int),
    {
        if kind(tokens, at) != Kind::Ident {
            return Err(SyntaxError::ExpectedName);
        }
        let ident = name(tokens, at).to_owned();
        if kind(tokens, at + 1) != Kind::Colon {
            return Err(SyntaxError::ExpectedColon);
        }
        let writable = if kind(tokens, at + 2) == Kind::Mut {
            true
        } else if kind(tokens, at + 2) == Kind::Const {
            false
        } else {
            return Err(SyntaxError::MissingMutability);
        };
        if kind(tokens, at + 3) != Kind::Ident {
            return Err(SyntaxError::UnknownWidth);
        }
        let primitive = match Primitive::from_name(name(tokens, at + 3)) {
            Some(primitive) => primitive,
            None => {
                return Err(SyntaxError::UnknownWidth);
            },
        };
        if kind(tokens, at + 4) != Kind::Equals {
            return Err(SyntaxError::ExpectedEquals);
        }
        if kind(tokens, at + 5) != Kind::Number {
            return Err(SyntaxError::ExpectedNumber);
        }
        let offset = number(tokens, at + 5);
        Ok(IoField { ident, writable, primitive, offset })
    }
}

/// The registers that the tokens from `from` on declare, up to the closing `}`.
fn parse_fields(tokens: &Vec<Token>, from: usize) -> (result: Result<Vec<IoField>, SyntaxError>)
    ensures
        match result {
            Ok(fields) => parse_body(tokens_view(tokens@), from as int) == Ok::<
                Seq<IoFieldView>,
                SyntaxError,
            >(fields_view(fields@)),
            Err(error) => parse_body(tokens_view(tokens@), from as int) == Err::<
                Seq<IoFieldView>,
                SyntaxError,
            >(error),
        },
{
    let ghost view = tokens_view(tokens@);
    let mut fields: Vec<IoField> = Vec::new();
    let mut at = from;
    proof {
        lemma_fields_then_nothing(parse_body(view, at as int));
    }
    loop
        invariant
            view == tokens_view(tokens@),
            parse_body(view, from as int) == fields_then(
                fields_view(fields@),
                parse_body(view, at as int),
            ),
        decreases tokens.len() - at,
    {
        let here = kind(tokens, at);
        if here == Kind::End {
            return Err(SyntaxError::ExpectedCloseBrace);
        }
        if here == Kind::CloseBrace {
            if at + 1 == tokens.len() {
                proof {
                    assert(fields_view(fields@) + Seq::<IoFieldView>::empty() == fields_view(
                        fields@,
                    ));
                }
                return Ok(fields);
            }
            return Err(SyntaxError::TrailingInput);
        }
        let field = match IoField::parse(tokens, at) {
            Ok(field) => field,
            Err(error) => {
                return Err(error);
            },
        };
        let next = kind(tokens, at + 6);
        proof {
            assert(fields_view(fields@.push(field)) == fields_view(fields@).push(field@));
            assert(fields_view(fields@).push(field@) == fields_view(fields@) + seq![field@]);
        }
        if next == Kind::Comma {
            proof {
                lemma_fields_then_push(fields_view(fields@), field@, parse_body(view, at + 7));
            }
            fields.push(field);
            at = at + 7;
        } else if next == Kind::CloseBrace {
            if at + 7 == tokens.len() {
                fields.push(field);
                return Ok(fields);
            }
            return Err(SyntaxError::TrailingInput);
        } else {
            return Err(SyntaxError::ExpectedComma);
        }
    }
}

impl IoTypeItem {
    /// Reads the description that the tokens are.
    pub fn parse(tokens: &Vec<Token>) -> (result: Result<IoTypeItem, SyntaxError>)
        ensures
            item_result_view(result) == parse_item(tokens_view(tokens@)),
    {
        let public = kind(tokens, 0) == Kind::Pub;
        let at: usize = if public {
            1
        } else {
            0
        };
        if kind(tokens, at) != Kind::Type {
            return Err(SyntaxError::ExpectedType);
        }
        if kind(tokens, at + 1) != Kind::Ident {
            return Err(SyntaxError::ExpectedName);
        }
        let ident = name(tokens, at + 1).to_owned();
        if kind(tokens, at + 2) != Kind::Colon {
            return Err(SyntaxError::ExpectedColon);
        }
        if kind(tokens, at + 3) != Kind::Number {
            return Err(SyntaxError::ExpectedNumber);
        }
        let base_adr = number(tokens, at + 3);
        if kind(tokens, at + 4) != Kind::Comma {
            return Err(SyntaxError::ExpectedComma);
        }
        if kind(tokens, at + 5) != Kind::Number {
            return Err(SyntaxError::ExpectedNumber);
        }
        let len = number(tokens, at + 5);
        if kind(tokens, at + 6) != Kind::OpenBrace {
            return Err(SyntaxError::ExpectedOpenBrace);
        }
        match parse_fields(tokens, at + 7) {
            Ok(body) => Ok(IoTypeItem { public, ident, base_adr, len, body }),
            Err(error) => Err(error),
        }
    }
}

/// To put no registers before the rest is to leave the rest as it is.
proof fn lemma_fields_then_nothing(rest: Result<Seq<IoFieldView>, SyntaxError>)
    ensures
        fields_then(Seq::empty(), rest) == rest,
{
    if let Ok(fields) = rest {
        assert(Seq::<IoFieldView>::empty() + fields == fields);
    }
}

/// To put registers and one more before the rest is to put the registers
/// before the one more and the rest.
proof fn lemma_fields_then_push(
    fields: Seq<IoFieldView>,
    field: IoFieldView,
    rest: Result<Seq<IoFieldView>, SyntaxError>,
)
    ensures
        fields_then(fields.push(field), rest) == fields_then(
            fields,
            fields_then(seq![field], rest),
        ),
{
    if let Ok(rest) = rest {
        assert(fields.push(field) + rest == fields + (seq![field] + rest));
    }
}

} // verus!
