//! The accessors of a register block, and their making from a description.

use vstd::prelude::*;
use vstd::string::*;

use crate::iotype::error::{IoTypeError, IoTypeErrorView};
use crate::iotype::item::{IoField, IoFieldView, IoTypeItem, IoTypeItemView};
use crate::iotype::primitive::Primitive;

verus! {

/// The operations on one register: the pointer to it, the volatile read
/// through that pointer and, where the register can be written, the volatile
/// write through it.
#[derive(Debug, PartialEq, Eq)]
pub struct Accessor {
    /// The name of the register.
    pub ident: String,
    /// Whether there is a write operation, and the pointer is mutable.
    pub writable: bool,
    /// The width of the value that is read and written.
    pub primitive: Primitive,
    /// The address that the pointer holds.
    pub address: u64,
}

/// What an [`Accessor`] stands for.
pub ghost struct AccessorView {
    pub ident: Seq<char>,
    pub writable: bool,
    pub primitive: Primitive,
    pub address: u64,
}

impl View for Accessor {
    type V = AccessorView;

    open spec fn view(&self) -> AccessorView {
        AccessorView {
            ident: self.ident@,
            writable: self.writable,
            primitive: self.primitive,
            address: self.address,
        }
    }
}

impl AccessorView {
    /// Whether the pointer is good for a block of `len` bytes at `base`: it
    /// points into the block, at a multiple of the width of the register.
    pub open spec fn well_formed(self, base: u64, len: u64) -> bool {
        &&& base <= self.address < base + len
        &&& self.address % self.primitive.bytes() == 0
    }

    /// The name of the operation that gives the pointer.
    pub open spec fn ptr_name(self) -> Seq<char> {
        self.ident + "_ptr"@
    }

    /// The name of the read operation.
    pub open spec fn read_name(self) -> Seq<char> {
        self.ident + "_read"@
    }

    /// The name of the write operation, which only a writable register has.
    pub open spec fn write_name(self) -> Option<Seq<char>> {
        if self.writable {
            Some(self.ident + "_write"@)
        } else {
            None
        }
    }
}

impl Accessor {
    /// The name of the operation that gives the pointer: the name of the
    /// register and `_ptr`.
    pub fn ptr_name(&self) -> (name: String)
        ensures
            name@ == self@.ptr_name(),
    {
        self.ident.clone().concat("_ptr")
    }

    /// The name of the read operation: the name of the register and `_read`.
    pub fn read_name(&self) -> (name: String)
        ensures
            name@ == self@.read_name(),
    {
        self.ident.clone().concat("_read")
    }

    /// The name of the write operation: the name of the register and `_write`.
    /// A register that cannot be written has none.
    pub fn write_name(&self) -> (name: Option<String>)
        ensures
            match name {
                Some(name) => self@.write_name() == Some(name@),
                None => self@.write_name() is None,
            },
    {
        if self.writable {
            Some(self.ident.clone().concat("_write"))
        } else {
            None
        }
    }
}

/// What a sequence of accessors stands for.
pub open spec fn accessors_view(accessors: Seq<Accessor>) -> Seq<AccessorView> {
    accessors.map_values(|accessor: Accessor| accessor@)
}

/// The accessors of a register block: its base address and length as they were
/// described, and the operations on each register.
#[derive(Debug, PartialEq, Eq)]
pub struct AccessorModule {
    /// Whether the block is declared `pub`.
    pub public: bool,
    /// The name of the block.
    pub ident: String,
    /// The address of the first byte of the block.
    pub base: u64,
    /// The length of the block in bytes.
    pub len: u64,
    /// The operations on each register, in the order of the description.
    pub accessors: Vec<Accessor>,
}

/// What an [`AccessorModule`] stands for.
pub ghost struct AccessorModuleView {
    pub public: bool,
    pub ident: Seq<char>,
    pub base: u64,
    pub len: u64,
    pub accessors: Seq<AccessorView>,
}

impl AccessorModuleView {
    /// Whether every pointer is good for the block.
    pub open spec fn well_formed(self) -> bool {
        forall|i: int|
            0 <= i < self.accessors.len() ==> (#[trigger] self.accessors[i]).well_formed(
                self.base,
                self.len,
            )
    }
}

impl View for AccessorModule {
    type V = AccessorModuleView;

    open spec fn view(&self) -> AccessorModuleView {
        AccessorModuleView {
            public: self.public,
            ident: self.ident@,
            base: self.base,
            len: self.len,
            accessors: accessors_view(self.accessors@),
        }
    }
}

impl IoFieldView {
    /// The address of the register in a block that starts at `base`.
    pub open spec fn address(self, base: u64) -> int {
        base + self.offset
    }

    /// Whether the address of the register is a multiple of its width in bytes.
    pub open spec fn aligned(self, base: u64) -> bool {
        self.address(base) % (self.primitive.bytes() as int) == 0
    }

    /// Whether the register starts inside a block of `len` bytes at `base`, at
    /// an address of at most 64 bits.
    pub open spec fn inside(self, base: u64, len: u64) -> bool {
        self.offset < len && self.address(base) <= u64::MAX
    }

    /// The operations on the register in a block that starts at `base`.
    pub open spec fn accessor(self, base: u64) -> AccessorView {
        AccessorView {
            ident: self.ident,
            writable: self.writable,
            primitive: self.primitive,
            address: self.address(base) as u64,
        }
    }
}

impl IoTypeItemView {
    /// Whether the description is one of a register block: every register is
    /// aligned and lies inside the block.
    pub open spec fn well_formed(self) -> bool {
        self.aligned() && self.inside()
    }

    /// Whether every register is aligned.
    pub open spec fn aligned(self) -> bool {
        forall|i: int| 0 <= i < self.body.len() ==> (#[trigger] self.body[i]).aligned(self.base_adr)
    }

    /// Whether every register lies inside the block.
    pub open spec fn inside(self) -> bool {
        forall|i: int|
            0 <= i < self.body.len() ==> (#[trigger] self.body[i]).inside(self.base_adr, self.len)
    }

    /// Whether the register at `i` is the first that is not aligned.
    pub open spec fn first_misaligned(self, i: int) -> bool {
        &&& 0 <= i < self.body.len()
        &&& !self.body[i].aligned(self.base_adr)
        &&& forall|j: int| 0 <= j < i ==> (#[trigger] self.body[j]).aligned(self.base_adr)
    }

    /// Whether the register at `i` is the first that lies outside the block.
    pub open spec fn first_outside(self, i: int) -> bool {
        &&& 0 <= i < self.body.len()
        &&& !self.body[i].inside(self.base_adr, self.len)
        &&& forall|j: int|
            0 <= j < i ==> (#[trigger] self.body[j]).inside(self.base_adr, self.len)
    }

    /// The accessors of the block, which mean something where every register
    /// is aligned and inside the block.
    pub open spec fn module(self) -> AccessorModuleView {
        AccessorModuleView {
            public: self.public,
            ident: self.ident,
            base: self.base_adr,
            len: self.len,
            accessors: self.body.map_values(|field: IoFieldView| field.accessor(self.base_adr)),
        }
    }

    /// Whether `outcome` is what compiling the description gives:
    ///
    /// * an alignment error for the first register that is not aligned, if
    ///   there is one;
    /// * else a range error for the first register outside the block, if there
    ///   is one;
    /// * else the accessors, one for each register, with the address of the
    ///   register: the base address plus its offset.
    pub open spec fn compiles_to(self, outcome: Result<AccessorModuleView, IoTypeErrorView>) -> bool {
        match outcome {
            Ok(module) => self.aligned() && self.inside() && module == self.module(),
            Err(IoTypeErrorView::Alignment { ident, offset }) => exists|i: int|
                #![trigger self.body[i]]
                self.first_misaligned(i) && ident == self.body[i].ident && offset
                    == self.body[i].offset,
            Err(IoTypeErrorView::Range { ident, offset }) => self.aligned() && exists|i: int|
                #![trigger self.body[i]]
                self.first_outside(i) && ident == self.body[i].ident && offset
                    == self.body[i].offset,
            Err(IoTypeErrorView::Syntax(_)) => false,
        }
    }
}

/// What the outcome of [`IoTypeItem::compile`] stands for.
pub open spec fn module_result_view(result: Result<AccessorModule, IoTypeError>) -> Result<
    AccessorModuleView,
    IoTypeErrorView,
> {
    match result {
        Ok(module) => Ok(module@),
        Err(error) => Err(error@),
    }
}

impl IoField {
    /// Whether the address of the register in a block at `base` is a multiple
    /// of its width in bytes.
    pub fn is_aligned(&self, base: u64) -> (aligned: bool)
        ensures
            aligned == self@.aligned(base),
    {
        let address: u128 = base as u128 + self.offset as u128;
        address % (self.primitive.align() as u128) == 0
    }

    /// The address of the register in a block of `len` bytes at `base`, if the
    /// register starts inside the block at an address of at most 64 bits.
    pub fn address_in(&self, base: u64, len: u64) -> (address: Option<u64>)
        ensures
            match address {
                Some(address) => self@.inside(base, len) && address == self@.address(base),
                None => !self@.inside(base, len),
            },
    {
        if self.offset < len {
            base.checked_add(self.offset)
        } else {
            None
        }
    }
}

impl IoTypeItem {
    /// Makes the accessors of the block, or refuses the description.
    ///
    /// Nothing is made for a part of a description: one register that is not
    /// aligned, or lies outside the block, and there are no accessors at all.
    pub fn compile(&self) -> (result: Result<AccessorModule, IoTypeError>)
        ensures
            self@.compiles_to(module_result_view(result)),
            result matches Ok(module) ==> module@.well_formed(),
    {
        let count = self.body.len();
        let mut i: usize = 0;
        while i < count
            invariant
                count == self.body.len(),
                i <= count,
                forall|j: int| 0 <= j < i ==> (#[trigger] self@.body[j]).aligned(self.base_adr),
            decreases count - i,
        {
            let field = &self.body[i];
            assert(self@.body[i as int] == field@);
            if !field.is_aligned(self.base_adr) {
                assert(self@.first_misaligned(i as int));
                return Err(
                    IoTypeError::Alignment { ident: field.ident.clone(), offset: field.offset },
                );
            }
            i = i + 1;
        }
        let mut accessors: Vec<Accessor> = Vec::new();
        let mut i: usize = 0;
        while i < count
            invariant
                count == self.body.len(),
                i <= count,
                self@.aligned(),
                forall|j: int|
                    0 <= j < i ==> (#[trigger] self@.body[j]).inside(self.base_adr, self.len),
                accessors@.len() == i,
                forall|j: int|
                    0 <= j < i ==> (#[trigger] accessors@[j])@ == self@.body[j].accessor(
                        self.base_adr,
                    ),
            decreases count - i,
        {
            let field = &self.body[i];
            assert(self@.body[i as int] == field@);
            match field.address_in(self.base_adr, self.len) {
                Some(address) => {
                    accessors.push(
                        Accessor {
                            ident: field.ident.clone(),
                            writable: field.writable,
                            primitive: field.primitive,
                            address,
                        },
                    );
                },
                None => {
                    assert(self@.first_outside(i as int));
                    return Err(
                        IoTypeError::Range { ident: field.ident.clone(), offset: field.offset },
                    );
                },
            }
            i = i + 1;
        }
        assert(accessors_view(accessors@) == self@.module().accessors);
        proof {
            lemma_compiles_iff_well_formed(
                self@,
                Ok::<AccessorModuleView, IoTypeErrorView>(self@.module()),
            );
        }
        Ok(
            AccessorModule {
                public: self.public,
                ident: self.ident.clone(),
                base: self.base_adr,
                len: self.len,
                accessors,
            },
        )
    }
}

/// Compiling has one outcome: whatever two outcomes a description compiles to
/// are the same.
pub proof fn lemma_compiling_has_one_outcome(
    item: IoTypeItemView,
    first: Result<AccessorModuleView, IoTypeErrorView>,
    second: Result<AccessorModuleView, IoTypeErrorView>,
)
    requires
        item.compiles_to(first),
        item.compiles_to(second),
    ensures
        first == second,
{
    match (first, second) {
        (
            Err(IoTypeErrorView::Alignment { ident: _, offset: _ }),
            Err(IoTypeErrorView::Alignment { ident: _, offset: _ }),
        ) => {
            let i = choose|i: int|
                #![trigger item.body[i]]
                item.first_misaligned(i) && first->Err_0->Alignment_ident == item.body[i].ident
                    && first->Err_0->Alignment_offset == item.body[i].offset;
            let j = choose|j: int|
                #![trigger item.body[j]]
                item.first_misaligned(j) && second->Err_0->Alignment_ident == item.body[j].ident
                    && second->Err_0->Alignment_offset == item.body[j].offset;
            assert(i == j) by {
                if i < j {
                    assert(item.body[i].aligned(item.base_adr));
                } else if j < i {
                    assert(item.body[j].aligned(item.base_adr));
                }
            }
        },
        (
            Err(IoTypeErrorView::Range { ident: _, offset: _ }),
            Err(IoTypeErrorView::Range { ident: _, offset: _ }),
        ) => {
            let i = choose|i: int|
                #![trigger item.body[i]]
                item.first_outside(i) && first->Err_0->Range_ident == item.body[i].ident
                    && first->Err_0->Range_offset == item.body[i].offset;
            let j = choose|j: int|
                #![trigger item.body[j]]
                item.first_outside(j) && second->Err_0->Range_ident == item.body[j].ident
                    && second->Err_0->Range_offset == item.body[j].offset;
            assert(i == j) by {
                if i < j {
                    assert(item.body[i].inside(item.base_adr, item.len));
                } else if j < i {
                    assert(item.body[j].inside(item.base_adr, item.len));
                }
            }
        },
        _ => {},
    }
}

/// A description compiles to accessors exactly if every register is aligned
/// and inside the block, and then to one accessor for each register.
pub proof fn lemma_compiles_iff_well_formed(
    item: IoTypeItemView,
    outcome: Result<AccessorModuleView, IoTypeErrorView>,
)
    requires
        item.compiles_to(outcome),
    ensures
        outcome is Ok <==> item.well_formed(),
        outcome is Ok ==> outcome == Ok::<AccessorModuleView, IoTypeErrorView>(item.module()),
        outcome is Ok ==> outcome->Ok_0.accessors.len() == item.body.len(),
        outcome is Ok ==> outcome->Ok_0.well_formed(),
{
    if outcome is Ok {
        let module = outcome->Ok_0;
        assert forall|i: int| 0 <= i < module.accessors.len() implies (
        #[trigger] module.accessors[i]).well_formed(module.base, module.len) by {
            lemma_pointer_is_base_plus_offset(item, module, i);
        }
    }
}

/// The pointer to a register of a compiled block is the base address plus the
/// offset of the register, exactly. It is a multiple of the width of the
/// register in bytes, and it points into the block.
pub proof fn lemma_pointer_is_base_plus_offset(
    item: IoTypeItemView,
    module: AccessorModuleView,
    i: int,
)
    requires
        item.compiles_to(Ok(module)),
        0 <= i < item.body.len(),
    ensures
        module.accessors[i].address == item.base_adr + item.body[i].offset,
        module.accessors[i].address % module.accessors[i].primitive.bytes() == 0,
        module.base <= module.accessors[i].address < module.base + module.len,
        module.accessors[i].ident == item.body[i].ident,
        module.accessors[i].writable == item.body[i].writable,
        module.accessors[i].primitive == item.body[i].primitive,
{
    assert(item.body[i].aligned(item.base_adr));
    assert(item.body[i].inside(item.base_adr, item.len));
}

/// A description with a register that is not aligned compiles to no accessors:
/// the outcome is an alignment error.
pub proof fn lemma_misaligned_is_refused(
    item: IoTypeItemView,
    outcome: Result<AccessorModuleView, IoTypeErrorView>,
    i: int,
)
    requires
        item.compiles_to(outcome),
        0 <= i < item.body.len(),
        !item.body[i].aligned(item.base_adr),
    ensures
        outcome is Err,
        outcome->Err_0 is Alignment,
{
}

/// A description whose registers are all aligned, but with a register outside
/// the block, compiles to no accessors: the outcome is a range error.
pub proof fn lemma_outside_is_refused(
    item: IoTypeItemView,
    outcome: Result<AccessorModuleView, IoTypeErrorView>,
    i: int,
)
    requires
        item.compiles_to(outcome),
        item.aligned(),
        0 <= i < item.body.len(),
        !item.body[i].inside(item.base_adr, item.len),
    ensures
        outcome is Err,
        outcome->Err_0 is Range,
{
    if outcome is Err && outcome->Err_0 is Alignment {
        let j = choose|j: int|
            #![trigger item.body[j]]
            item.first_misaligned(j) && outcome->Err_0->Alignment_ident == item.body[j].ident
                && outcome->Err_0->Alignment_offset == item.body[j].offset;
        assert(item.body[j].aligned(item.base_adr));
    }
}

} // verus!
