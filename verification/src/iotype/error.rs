//! Why a description of a register block is refused.

use vstd::prelude::*;

verus! {

/// The ways in which a text can fail to be a description of a register block.
#[derive(Debug, Clone, Copy, PartialEq, Eq, Structural)]
pub enum SyntaxError {
    /// A character that no token can hold.
    InvalidCharacter,
    /// A number that is no integer literal, or that is worth more than 64 bits
    /// hold.
    MalformedNumber,
    /// The keyword `type` is missing.
    ExpectedType,
    /// A name is missing: that of the block or that of a register.
    ExpectedName,
    /// A `:` is missing.
    ExpectedColon,
    /// A `,` is missing.
    ExpectedComma,
    /// A `=` is missing.
    ExpectedEquals,
    /// A number is missing.
    ExpectedNumber,
    /// The `{` that opens the body is missing.
    ExpectedOpenBrace,
    /// The `}` that closes the body is missing.
    ExpectedCloseBrace,
    /// A register is declared neither `mut` nor `const`.
    MissingMutability,
    /// The width of a register is none of `u8`, `u16`, `u32` and `u64`.
    UnknownWidth,
    /// Something follows the `}` that closes the body.
    TrailingInput,
}

/// Why no accessors are made for a description.
#[derive(Debug, PartialEq, Eq)]
pub enum IoTypeError {
    /// The text is no description of a register block.
    Syntax(SyntaxError),
    /// The address of a register is no multiple of its width in bytes.
    Alignment {
        /// The name of the first such register.
        ident: String,
        /// Its offset from the base address.
        offset: u64,
    },
    /// Every register is aligned, but one lies outside the block: its offset is
    /// not below the length of the block, or its address exceeds 64 bits.
    Range {
        /// The name of the first such register.
        ident: String,
        /// Its offset from the base address.
        offset: u64,
    },
}

/// What an [`IoTypeError`] stands for.
pub ghost enum IoTypeErrorView {
    Syntax(SyntaxError),
    Alignment { ident: Seq<char>, offset: u64 },
    Range { ident: Seq<char>, offset: u64 },
}

impl View for IoTypeError {
    type V = IoTypeErrorView;

    open spec fn view(&self) -> IoTypeErrorView {
        match self {
            IoTypeError::Syntax(error) => IoTypeErrorView::Syntax(*error),
            IoTypeError::Alignment { ident, offset } => IoTypeErrorView::Alignment {
                ident: ident@,
                offset: *offset,
            },
            IoTypeError::Range { ident, offset } => IoTypeErrorView::Range {
                ident: ident@,
                offset: *offset,
            },
        }
    }
}

} // verus!
