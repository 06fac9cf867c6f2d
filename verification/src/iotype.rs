//! The register-map compiler.
//!
//! A register block is described in a few lines of text:
//!
//! ```text
//! pub type VI: 0xcc002000, 0x100 {
//!     vtr: mut u16 = 0x00,
//!     dpv: const u16 = 0x2c,
//! }
//! ```
//!
//! The first number is the base address of the block and the second its length
//! in bytes. Each line of the body names a register, says whether it can be
//! written (`mut`) or only read (`const`), gives its width and its offset from
//! the base address in bytes.
//!
//! [`tokenize`] cuts such a text into tokens, [`IoTypeItem::parse`] reads the
//! description from the tokens, and [`IoTypeItem::compile`] turns it into the
//! [`AccessorModule`] of the block, or refuses it.

pub mod accessor;
pub mod error;
pub mod grammar;
pub mod item;
pub mod literal;
pub mod primitive;
pub mod token;

pub use accessor::{Accessor, AccessorModule, AccessorModuleView, AccessorView};
pub use error::{IoTypeError, IoTypeErrorView, SyntaxError};
pub use item::{IoField, IoFieldView, IoTypeItem, IoTypeItemView};
pub use primitive::Primitive;
pub use token::{tokenize, Token, TokenView};

use vstd::prelude::*;

use grammar::{lemma_description_is_read, lemma_lex_finds_what_is_written, spaced, writes_all};
use item::parse_item;
use token::lex;

verus! {

/// Whether `outcome` is what compiling the text of a description gives: the
/// first error in the tokens of the text; else the first error in the
/// description that the tokens are; else what compiling that description gives.
pub open spec fn compilation(
    text: Seq<char>,
    outcome: Result<AccessorModuleView, IoTypeErrorView>,
) -> bool {
    match lex(text) {
        Err(error) => outcome == Err::<AccessorModuleView, IoTypeErrorView>(
            IoTypeErrorView::Syntax(error),
        ),
        Ok(tokens) => match parse_item(tokens) {
            Err(error) => outcome == Err::<AccessorModuleView, IoTypeErrorView>(
                IoTypeErrorView::Syntax(error),
            ),
            Ok(item) => item.compiles_to(outcome),
        },
    }
}

/// Whether `item` is the description that `text` holds.
pub open spec fn describes(text: Seq<char>, item: IoTypeItemView) -> bool {
    lex(text) matches Ok(tokens) && parse_item(tokens) == Ok::<IoTypeItemView, SyntaxError>(item)
}

/// Compiles the text of a description into the accessors of the register block.
///
/// The text is cut into tokens, the tokens are read as a description, and the
/// description is compiled. Whatever goes wrong first is the error, and then
/// there are no accessors at all.
pub fn iotype2(ts: &str) -> (result: Result<AccessorModule, IoTypeError>)
    ensures
        compilation(ts@, accessor::module_result_view(result)),
        result matches Ok(module) ==> module@.well_formed(),
{
    let tokens = match tokenize(ts) {
        Ok(tokens) => tokens,
        Err(error) => {
            return Err(IoTypeError::Syntax(error));
        },
    };
    let item = match IoTypeItem::parse(&tokens) {
        Ok(item) => item,
        Err(error) => {
            return Err(IoTypeError::Syntax(error));
        },
    };
    item.compile()
}

/// Compiling a text has one outcome: whatever two outcomes a text compiles to
/// are the same.
pub proof fn lemma_compilation_has_one_outcome(
    text: Seq<char>,
    first: Result<AccessorModuleView, IoTypeErrorView>,
    second: Result<AccessorModuleView, IoTypeErrorView>,
)
    requires
        compilation(text, first),
        compilation(text, second),
    ensures
        first == second,
{
    if let Ok(tokens) = lex(text) {
        if let Ok(item) = parse_item(tokens) {
            accessor::lemma_compiling_has_one_outcome(item, first, second);
        }
    }
}

/// A description that is written out compiles as the description does: where
/// `texts` write the tokens of `item`, with or without a `,` after the last
/// register, whatever the text with a blank after each of `texts` compiles to
/// is what `item` compiles to.
pub proof fn lemma_written_description_compiles(
    item: IoTypeItemView,
    trailing: bool,
    texts: Seq<Seq<char>>,
    outcome: Result<AccessorModuleView, IoTypeErrorView>,
)
    requires
        writes_all(texts, item.tokens(trailing)),
    ensures
        compilation(spaced(texts), outcome) <==> item.compiles_to(outcome),
{
    lemma_lex_finds_what_is_written(texts, item.tokens(trailing));
    lemma_description_is_read(item, trailing);
}

/// The text of a description whose registers are all aligned and inside the
/// block compiles to accessors, one for each register, and the pointer to each
/// register is the base address plus the offset of the register, exactly.
pub proof fn lemma_described_pointers_are_exact(
    text: Seq<char>,
    item: IoTypeItemView,
    outcome: Result<AccessorModuleView, IoTypeErrorView>,
    i: int,
)
    requires
        describes(text, item),
        item.well_formed(),
        compilation(text, outcome),
        0 <= i < item.body.len(),
    ensures
        outcome == Ok::<AccessorModuleView, IoTypeErrorView>(item.module()),
        item.module().base == item.base_adr,
        item.module().len == item.len,
        item.module().accessors.len() == item.body.len(),
        item.module().accessors[i].address == item.base_adr + item.body[i].offset,
        item.module().accessors[i].ident == item.body[i].ident,
        item.module().accessors[i].writable == item.body[i].writable,
        item.module().accessors[i].primitive == item.body[i].primitive,
{
    accessor::lemma_compiles_iff_well_formed(item, outcome);
    accessor::lemma_pointer_is_base_plus_offset(item, item.module(), i);
}

/// The text of a description with a register that is not aligned compiles to
/// no accessors: the outcome is an alignment error.
pub proof fn lemma_described_misaligned_is_refused(
    text: Seq<char>,
    item: IoTypeItemView,
    outcome: Result<AccessorModuleView, IoTypeErrorView>,
    i: int,
)
    requires
        describes(text, item),
        compilation(text, outcome),
        0 <= i < item.body.len(),
        !item.body[i].aligned(item.base_adr),
    ensures
        outcome is Err,
        outcome->Err_0 is Alignment,
{
    accessor::lemma_misaligned_is_refused(item, outcome, i);
}

/// The text of a description whose registers are all aligned, but with a
/// register outside the block, compiles to no accessors: the outcome is a
/// range error.
pub proof fn lemma_described_outside_is_refused(
    text: Seq<char>,
    item: IoTypeItemView,
    outcome: Result<AccessorModuleView, IoTypeErrorView>,
    i: int,
)
    requires
        describes(text, item),
        compilation(text, outcome),
        item.aligned(),
        0 <= i < item.body.len(),
        !item.body[i].inside(item.base_adr, item.len),
    ensures
        outcome is Err,
        outcome->Err_0 is Range,
{
    accessor::lemma_outside_is_refused(item, outcome, i);
}

} // verus!
