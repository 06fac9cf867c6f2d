//! The widths that a register can have.

use vstd::prelude::*;

use crate::text::same_text;

verus! {

/// The unsigned integer that a register holds.
#[derive(Debug, Clone, Copy, PartialEq, Eq, Structural)]
pub enum Primitive {
    /// 8 bits.
    U8,
    /// 16 bits.
    U16,
    /// 32 bits.
    U32,
    /// 64 bits.
    U64,
}

impl Primitive {
    /// The width in bytes, which is also the alignment that the register needs.
    pub open spec fn bytes(self) -> u64 {
        match self {
            Primitive::U8 => 1,
            Primitive::U16 => 2,
            Primitive::U32 => 4,
            Primitive::U64 => 8,
        }
    }

    /// The name of the width in a description.
    pub open spec fn name(self) -> Seq<char> {
        match self {
            Primitive::U8 => "u8"@,
            Primitive::U16 => "u16"@,
            Primitive::U32 => "u32"@,
            Primitive::U64 => "u64"@,
        }
    }

    /// The width that a description calls `name`, if it is one.
    pub open spec fn named(name: Seq<char>) -> Option<Primitive> {
        if name == "u8"@ {
            Some(Primitive::U8)
        } else if name == "u16"@ {
            Some(Primitive::U16)
        } else if name == "u32"@ {
            Some(Primitive::U32)
        } else if name == "u64"@ {
            Some(Primitive::U64)
        } else {
            None
        }
    }

    /// The Rust type of the value that the register holds, by name.
    pub fn as_ty(self) -> (ty: &'static str)
        ensures
            ty@ == self.name(),
    {
        match self {
            Primitive::U8 => "u8",
            Primitive::U16 => "u16",
            Primitive::U32 => "u32",
            Primitive::U64 => "u64",
        }
    }

    /// The alignment in bytes that a register of this width needs.
    pub fn align(self) -> (align: u64)
        ensures
            align == self.bytes(),
    {
        match self {
            Primitive::U8 => 1,
            Primitive::U16 => 2,
            Primitive::U32 => 4,
            Primitive::U64 => 8,
        }
    }

    /// Reads the name of a width.
    pub fn from_name(name: &str) -> (primitive: Option<Primitive>)
        ensures
            primitive == Self::named(name@),
    {
        if same_text(name, "u8") {
            Some(Primitive::U8)
        } else if same_text(name, "u16") {
            Some(Primitive::U16)
        } else if same_text(name, "u32") {
            Some(Primitive::U32)
        } else if same_text(name, "u64") {
            Some(Primitive::U64)
        } else {
            None
        }
    }
}

/// Naming a width and reading the name back gives the width.
pub proof fn lemma_name_names_primitive(primitive: Primitive)
    ensures
        Primitive::named(primitive.name()) == Some(primitive),
{
    reveal_strlit("u8");
    reveal_strlit("u16");
    reveal_strlit("u32");
    reveal_strlit("u64");
    assert("u8"@.len() == 2 && "u16"@.len() == 3);
    assert("u16"@[1] != "u32"@[1] && "u16"@[1] != "u64"@[1] && "u32"@[1] != "u64"@[1]);
}

} // verus!
