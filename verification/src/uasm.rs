//! The data model of Udon assembly: a program is an optional data section
//! and an optional code section.
//!
//! Every type has a view, a mathematical value that leaves out how the
//! text of a name is stored. The contracts in this crate speak of views.

use crate::block_table::{table_blocks, table_get, table_insert, table_new, BlockTable};
use std::borrow::Cow;
use vstd::prelude::*;
use vstd::string::StringExecFns;

verus! {

/// The name of a variable.
#[derive(Debug)]
pub struct UasmVarName(String);

impl View for UasmVarName {
    type V = Seq<char>;

    closed spec fn view(&self) -> Seq<char> {
        self.0@
    }
}

impl Clone for UasmVarName {
    fn clone(&self) -> (copy: Self)
        ensures
            copy == *self,
    {
        UasmVarName(self.0.clone())
    }
}

impl UasmVarName {
    pub fn new(name: Cow<'_, str>) -> (var_name: UasmVarName)
        ensures
            var_name@ == name@,
    {
        match name {
            Cow::Borrowed(text) => UasmVarName(String::from_str(text)),
            Cow::Owned(text) => UasmVarName(text),
        }
    }

    /// The name as text.
    pub fn to_string(&self) -> (text: String)
        ensures
            text@ == self@,
    {
        self.0.clone()
    }
}

/// The label of a code block.
#[derive(Debug, Hash, PartialEq, Eq)]
pub struct UasmCodeLabel(String);

impl View for UasmCodeLabel {
    type V = Seq<char>;

    closed spec fn view(&self) -> Seq<char> {
        self.0@
    }
}

impl Clone for UasmCodeLabel {
    fn clone(&self) -> (copy: Self)
        ensures
            copy == *self,
    {
        UasmCodeLabel(self.0.clone())
    }
}

impl UasmCodeLabel {
    pub fn new(label: Cow<'_, str>) -> (code_label: UasmCodeLabel)
        ensures
            code_label@ == label@,
    {
        match label {
            Cow::Borrowed(text) => UasmCodeLabel(String::from_str(text)),
            Cow::Owned(text) => UasmCodeLabel(text),
        }
    }

    /// The label as text.
    pub fn to_string(&self) -> (text: String)
        ensures
            text@ == self@,
    {
        self.0.clone()
    }
}

/// An opcode as a mathematical value.
pub enum OpcodeView {
    Nop,
    Push(Seq<char>),
    Pop,
    Jump(Seq<char>),
    JumpIfFalse(Seq<char>),
    JumpIndirect(Seq<char>),
    Copy,
    Extern(Seq<char>),
    Annotation,
}

/// Udon assembly opcode, with its operand.
#[derive(Debug)]
pub enum UasmOpcode {
    /// Does nothing.
    Nop,
    /// Pushes the value of a variable.
    Push(UasmVarName),
    /// Discards the top of the stack.
    Pop,
    /// Jumps to a label.
    Jump(UasmCodeLabel),
    /// Jumps to a label if the top of the stack is false.
    JumpIfFalse(UasmCodeLabel),
    /// Jumps to the address held in a variable.
    JumpIndirect(UasmVarName),
    /// Duplicates the top of the stack.
    Copy,
    /// Calls the externally defined symbol of this name.
    Extern(String),
    /// A marker that stands for no code and has no text.
    Annotation,
}

impl View for UasmOpcode {
    type V = OpcodeView;

    open spec fn view(&self) -> OpcodeView {
        match self {
            UasmOpcode::Nop => OpcodeView::Nop,
            UasmOpcode::Push(name) => OpcodeView::Push(name@),
            UasmOpcode::Pop => OpcodeView::Pop,
            UasmOpcode::Jump(label) => OpcodeView::Jump(label@),
            UasmOpcode::JumpIfFalse(label) => OpcodeView::JumpIfFalse(label@),
            UasmOpcode::JumpIndirect(name) => OpcodeView::JumpIndirect(name@),
            UasmOpcode::Copy => OpcodeView::Copy,
            UasmOpcode::Extern(symbol) => OpcodeView::Extern(symbol@),
            UasmOpcode::Annotation => OpcodeView::Annotation,
        }
    }
}

impl Clone for UasmOpcode {
    fn clone(&self) -> (copy: Self)
        ensures
            copy == *self,
    {
        match self {
            UasmOpcode::Nop => UasmOpcode::Nop,
            UasmOpcode::Push(name) => UasmOpcode::Push(name.clone()),
            UasmOpcode::Pop => UasmOpcode::Pop,
            UasmOpcode::Jump(label) => UasmOpcode::Jump(label.clone()),
            UasmOpcode::JumpIfFalse(label) => UasmOpcode::JumpIfFalse(label.clone()),
            UasmOpcode::JumpIndirect(name) => UasmOpcode::JumpIndirect(name.clone()),
            UasmOpcode::Copy => UasmOpcode::Copy,
            UasmOpcode::Extern(symbol) => UasmOpcode::Extern(symbol.clone()),
            UasmOpcode::Annotation => UasmOpcode::Annotation,
        }
    }
}

/// Udon assembly instruction.
#[derive(Debug)]
pub struct UasmInstruction {
    pub opcode: UasmOpcode,
}

impl View for UasmInstruction {
    type V = OpcodeView;

    open spec fn view(&self) -> OpcodeView {
        self.opcode@
    }
}

impl Clone for UasmInstruction {
    fn clone(&self) -> (copy: Self)
        ensures
            copy == *self,
    {
        UasmInstruction { opcode: self.opcode.clone() }
    }
}

impl UasmInstruction {
    pub fn new(opcode: UasmOpcode) -> (instruction: UasmInstruction)
        ensures
            instruction.opcode == opcode,
    {
        UasmInstruction { opcode }
    }
}

/// The code block of a code section: instructions in the order in which
/// they were pushed.
#[derive(Debug)]
pub struct UasmCodeBlock {
    instructions: Vec<UasmInstruction>,
}

impl View for UasmCodeBlock {
    type V = Seq<OpcodeView>;

    closed spec fn view(&self) -> Seq<OpcodeView> {
        self.instructions@.map_values(|instruction: UasmInstruction| instruction@)
    }
}

impl UasmCodeBlock {
    pub fn new() -> (block: UasmCodeBlock)
        ensures
            block@ == Seq::<OpcodeView>::empty(),
    {
        let block = UasmCodeBlock { instructions: Vec::new() };
        assert(block@ =~= Seq::<OpcodeView>::empty());
        block
    }

    /// Appends a copy of `instruction`.
    pub fn push_instruction(&mut self, instruction: &UasmInstruction)
        ensures
            final(self)@ == old(self)@.push(instruction@),
    {
        self.instructions.push(instruction.clone());
        assert(self@ =~= old(self)@.push(instruction@));
    }

    pub fn get_instructions(&self) -> (instructions: &Vec<UasmInstruction>)
        ensures
            instructions@.len() == self@.len(),
            forall|i: int| 0 <= i < self@.len() ==> (#[trigger] instructions@[i])@ == self@[i],
    {
        &self.instructions
    }
}

/// A labelled code block as a mathematical value.
pub struct BlockView {
    pub label: Seq<char>,
    pub instructions: Seq<OpcodeView>,
}

/// Whether one of `blocks` has the label `label`.
pub open spec fn has_label(blocks: Seq<BlockView>, label: Seq<char>) -> bool {
    exists|i: int| 0 <= i < blocks.len() && (#[trigger] blocks[i]).label == label
}

/// Whether no two of `blocks` have the same label.
pub open spec fn distinct_labels(blocks: Seq<BlockView>) -> bool {
    forall|i: int, j: int|
        0 <= i < j < blocks.len() ==> (#[trigger] blocks[i]).label != (#[trigger] blocks[j]).label
}

/// `blocks` after `label` has been made to lead to `instructions`: a block
/// that had the label keeps its place and gets the new instructions, and
/// a new label comes last.
pub open spec fn with_block(
    blocks: Seq<BlockView>,
    label: Seq<char>,
    instructions: Seq<OpcodeView>,
) -> Seq<BlockView> {
    if has_label(blocks, label) {
        blocks.map_values(
            |block: BlockView|
                if block.label == label {
                    BlockView { label, instructions }
                } else {
                    block
                },
        )
    } else {
        blocks.push(BlockView { label, instructions })
    }
}

/// Whether `blocks` holds a block for each of `labels` and for nothing else,
/// and no label stands in `labels` twice.
spec fn consistent(labels: Seq<UasmCodeLabel>, blocks: Map<Seq<char>, UasmCodeBlock>) -> bool {
    &&& forall|i: int, j: int|
        0 <= i < j < labels.len() ==> (#[trigger] labels[i])@ != (#[trigger] labels[j])@
    &&& forall|i: int| 0 <= i < labels.len() ==> blocks.contains_key((#[trigger] labels[i])@)
    &&& forall|label: Seq<char>| #[trigger]
        blocks.contains_key(label) ==> exists|i: int|
            0 <= i < labels.len() && (#[trigger] labels[i])@ == label
}

/// The map of code labels and their code blocks. It keeps its labels in
/// the order in which they first came.
#[derive(Debug)]
pub struct UasmCode {
    labels: Vec<UasmCodeLabel>,
    table: BlockTable,
}

impl View for UasmCode {
    type V = Seq<BlockView>;

    closed spec fn view(&self) -> Seq<BlockView> {
        Seq::new(
            self.labels@.len(),
            |i: int|
                BlockView {
                    label: self.labels@[i]@,
                    instructions: table_blocks(self.table)[self.labels@[i]@]@,
                },
        )
    }
}

impl UasmCode {
    /// The table holds the blocks of exactly the labels in `labels`, and no
    /// label stands there twice.
    #[verifier::type_invariant]
    spec fn well_formed(self) -> bool {
        consistent(self.labels@, table_blocks(self.table))
    }

    pub fn new() -> (code: UasmCode)
        ensures
            code@ == Seq::<BlockView>::empty(),
    {
        let code = UasmCode { labels: Vec::new(), table: table_new() };
        assert(code@ =~= Seq::<BlockView>::empty());
        code
    }

    /// `self` with `block` under `label`.
    fn with_label(self, label: UasmCodeLabel, block: UasmCodeBlock) -> (code: UasmCode)
        ensures
            code@ == with_block(self@, label@, block@),
    {
        proof {
            use_type_invariant(&self);
        }
        let ghost before = self@;
        let ghost instructions = block@;
        let UasmCode { mut labels, mut table } = self;
        let ghost old_labels = labels@;
        let ghost old_table = table_blocks(table);
        let previous = table_insert(&mut table, label.0.clone(), block);
        if previous.is_none() {
            labels.push(label);
            proof {
                let new_table = table_blocks(table);
                assert forall|key: Seq<char>| #[trigger] new_table.contains_key(key) implies exists|
                    i: int,
                | 0 <= i < labels@.len() && (#[trigger] labels@[i])@ == key by {
                    if key == label@ {
                        assert(labels@[labels@.len() - 1]@ == key);
                    } else {
                        assert(old_table.contains_key(key));
                        let i = choose|i: int|
                            0 <= i < old_labels.len() && (#[trigger] old_labels[i])@ == key;
                        assert(labels@[i]@ == key);
                    }
                }
                assert(consistent(labels@, new_table));
            }
            let code = UasmCode { labels, table };
            assert(!has_label(before, label@)) by {
                if has_label(before, label@) {
                    let i = choose|i: int| 0 <= i < before.len() && (#[trigger] before[i]).label == label@;
                    assert(old_table.contains_key(old_labels[i]@));
                }
            }
            assert(code@ =~= before.push(BlockView { label: label@, instructions }));
            code
        } else {
            proof {
                let new_table = table_blocks(table);
                assert forall|key: Seq<char>| #[trigger] new_table.contains_key(key) implies exists|
                    i: int,
                | 0 <= i < labels@.len() && (#[trigger] labels@[i])@ == key by {
                    assert(old_table.contains_key(key));
                }
                assert(consistent(labels@, new_table));
            }
            let code = UasmCode { labels, table };
            assert(has_label(before, label@)) by {
                let i = choose|i: int| 0 <= i < old_labels.len() && (#[trigger] old_labels[i])@ == label@;
                assert(before[i].label == label@);
            }
            assert(code@ =~= with_block(before, label@, instructions));
            code
        }
    }

    /// Inserts a code block with a label. A block that was there under the
    /// same label is replaced.
    pub fn set_block_with_label(&mut self, label: UasmCodeLabel, block: UasmCodeBlock)
        ensures
            final(self)@ == with_block(old(self)@, label@, block@),
    {
        let mut code = UasmCode::new();
        std::mem::swap(self, &mut code);
        *self = code.with_label(label, block);
    }

    /// The block under `label`, if there is one. There is at most one: no
    /// two blocks of a code map have the same label.
    pub fn get_block_with_label(&self, label: &UasmCodeLabel) -> (found: Option<&UasmCodeBlock>)
        ensures
            distinct_labels(self@),
            match found {
                Some(block) => exists|i: int|
                    0 <= i < self@.len() && #[trigger] self@[i] == (BlockView {
                        label: label@,
                        instructions: block@,
                    }),
                None => !has_label(self@, label@),
            },
    {
        proof {
            use_type_invariant(self);
        }
        let found = table_get(&self.table, label.0.as_str());
        proof {
            match found {
                Some(block) => {
                    let i = choose|i: int|
                        0 <= i < self.labels@.len() && (#[trigger] self.labels@[i])@ == label@;
                    assert(self@[i] == BlockView { label: label@, instructions: block@ });
                },
                None => {
                    if has_label(self@, label@) {
                        let i = choose|i: int|
                            0 <= i < self@.len() && (#[trigger] self@[i]).label == label@;
                        assert(table_blocks(self.table).contains_key(self.labels@[i]@));
                    }
                },
            }
        }
        found
    }

    /// The number of blocks.
    pub fn len(&self) -> (count: usize)
        ensures
            count == self@.len(),
    {
        self.labels.len()
    }

    /// The label of the block at `index`, counting in the order in which
    /// the labels first came.
    pub fn label_at(&self, index: usize) -> (label: &UasmCodeLabel)
        requires
            index < self@.len(),
        ensures
            label@ == self@[index as int].label,
    {
        &self.labels[index]
    }

    /// The block at `index`, counting in the order in which the labels
    /// first came.
    pub fn block_at(&self, index: usize) -> (block: &UasmCodeBlock)
        requires
            index < self@.len(),
        ensures
            block@ == self@[index as int].instructions,
    {
        proof {
            use_type_invariant(self);
        }
        let found = table_get(&self.table, self.labels[index].0.as_str());
        assert(table_blocks(self.table).contains_key(self.labels@[index as int]@));
        found.unwrap()
    }
}

/// A code section as a mathematical value.
pub enum CodeSectionView {
    Export(Seq<BlockView>),
    NoExport(Seq<BlockView>),
}

/// The code section of Udon assembly.
#[derive(Debug)]
pub enum UasmCodeSection {
    /// The code section with export: each label is announced to the
    /// outside.
    Export(UasmCode),
    /// The code section without export.
    NoExport(UasmCode),
}

impl View for UasmCodeSection {
    type V = CodeSectionView;

    open spec fn view(&self) -> CodeSectionView {
        match self {
            UasmCodeSection::Export(code) => CodeSectionView::Export(code@),
            UasmCodeSection::NoExport(code) => CodeSectionView::NoExport(code@),
        }
    }
}

/// The type of the value of a variable.
#[derive(Debug, Clone, Copy, PartialEq, Eq, Structural)]
pub enum UasmType {
    Int32,
    Int64,
    Single,
    Double,
    String,
}

/// The variation of a sync attribute.
#[derive(Debug, Clone, Copy, PartialEq, Eq, Structural)]
pub enum UasmDataAttributeSync {
    /// The value is taken over as it is.
    NoInterpolation,
    /// The value is interpolated linearly.
    Linear,
    /// The value is smoothed.
    Smooth,
}

impl Default for UasmDataAttributeSync {
    fn default() -> (sync: Self)
        ensures
            sync == UasmDataAttributeSync::NoInterpolation,
    {
        UasmDataAttributeSync::NoInterpolation
    }
}

/// The attribute of a data declaration.
#[derive(Debug, Clone, Copy, PartialEq, Eq, Structural)]
pub enum UasmDataAttribute {
    /// The declaration has no attribute.
    NoAttribute,
    /// The variable is exported.
    Export,
    /// The variable is synchronised.
    Sync(UasmDataAttributeSync),
}

impl Default for UasmDataAttribute {
    fn default() -> (attribute: Self)
        ensures
            attribute == UasmDataAttribute::NoAttribute,
    {
        UasmDataAttribute::NoAttribute
    }
}

/// A variable as a mathematical value.
pub struct VariableView {
    pub name: Seq<char>,
    pub ty: UasmType,
}

/// A variable of a data section: its name and the type of its value.
#[derive(Debug)]
pub struct UasmVariable {
    pub name: UasmVarName,
    pub ty: UasmType,
}

impl View for UasmVariable {
    type V = VariableView;

    open spec fn view(&self) -> VariableView {
        VariableView { name: self.name@, ty: self.ty }
    }
}

impl UasmVariable {
    pub fn new(name: UasmVarName, ty: UasmType) -> (variable: Self)
        ensures
            variable.name == name,
            variable.ty == ty,
    {
        UasmVariable { name, ty }
    }
}

/// A data declaration as a mathematical value.
pub struct DataView {
    pub attribute: UasmDataAttribute,
    pub variable: VariableView,
}

/// A declaration of a data section.
#[derive(Debug)]
pub struct UasmData {
    pub attribute: UasmDataAttribute,
    pub variable: UasmVariable,
}

impl View for UasmData {
    type V = DataView;

    open spec fn view(&self) -> DataView {
        DataView { attribute: self.attribute, variable: self.variable@ }
    }
}

impl UasmData {
    pub fn set_attribute(&mut self, attribute: UasmDataAttribute)
        ensures
            final(self).attribute == attribute,
            final(self).variable == old(self).variable,
    {
        self.attribute = attribute;
    }

    pub fn set_variable(&mut self, variable: UasmVariable)
        ensures
            final(self).variable == variable,
            final(self).attribute == old(self).attribute,
    {
        self.variable = variable;
    }
}

/// The data section of Udon assembly: declarations in the order in which
/// they were pushed.
#[derive(Debug)]
pub struct UasmDataSection {
    data: Vec<UasmData>,
}

impl View for UasmDataSection {
    type V = Seq<DataView>;

    closed spec fn view(&self) -> Seq<DataView> {
        self.data@.map_values(|data: UasmData| data@)
    }
}

impl UasmDataSection {
    pub fn new() -> (section: UasmDataSection)
        ensures
            section@ == Seq::<DataView>::empty(),
    {
        let section = UasmDataSection { data: Vec::new() };
        assert(section@ =~= Seq::<DataView>::empty());
        section
    }

    /// Appends `data`.
    pub fn push_data(&mut self, data: UasmData)
        ensures
            final(self)@ == old(self)@.push(data@),
    {
        let ghost pushed = data@;
        self.data.push(data);
        assert(self@ =~= old(self)@.push(pushed));
    }

    pub fn get_data(&self) -> (data: &Vec<UasmData>)
        ensures
            data@.len() == self@.len(),
            forall|i: int| 0 <= i < self@.len() ==> (#[trigger] data@[i])@ == self@[i],
    {
        &self.data
    }

    /// Appends the declarations of `other`, in their order.
    pub fn append(&mut self, other: UasmDataSection)
        ensures
            final(self)@ == old(self)@ + other@,
    {
        let mut other = other;
        let ghost appended = other@;
        self.data.append(&mut other.data);
        assert(self@ =~= old(self)@ + appended);
    }
}

impl Default for UasmDataSection {
    fn default() -> (section: Self)
        ensures
            section@ == Seq::<DataView>::empty(),
    {
        UasmDataSection::new()
    }
}

/// A program as a mathematical value.
pub struct UasmView {
    pub data_section: Option<Seq<DataView>>,
    pub code_section: Option<CodeSectionView>,
}

/// The whole data structure of Udon assembly.
#[derive(Debug)]
pub struct Uasm {
    /// The data section of Udon assembly.
    pub data_section: Option<UasmDataSection>,
    /// The code section of Udon assembly.
    pub code_section: Option<UasmCodeSection>,
}

impl View for Uasm {
    type V = UasmView;

    open spec fn view(&self) -> UasmView {
        UasmView {
            data_section: match self.data_section {
                Some(section) => Some(section@),
                None => None,
            },
            code_section: match self.code_section {
                Some(section) => Some(section@),
                None => None,
            },
        }
    }
}

impl Uasm {
    pub fn new(data_section: Option<UasmDataSection>, code_section: Option<UasmCodeSection>) -> (uasm:
        Uasm)
        ensures
            uasm.data_section == data_section,
            uasm.code_section == code_section,
    {
        Uasm { data_section, code_section }
    }

    /// Sets the data section; one that was set before is replaced.
    pub fn set_data_section(&mut self, data_section: UasmDataSection)
        ensures
            final(self).data_section == Some(data_section),
            final(self).code_section == old(self).code_section,
    {
        self.data_section = Some(data_section);
    }

    /// Sets the code section; one that was set before is replaced.
    pub fn set_code_section(&mut self, code_section: UasmCodeSection)
        ensures
            final(self).code_section == Some(code_section),
            final(self).data_section == old(self).data_section,
    {
        self.code_section = Some(code_section);
    }
}

impl Default for Uasm {
    fn default() -> (uasm: Self)
        ensures
            uasm.data_section is None,
            uasm.code_section is None,
    {
        Uasm { data_section: None, code_section: None }
    }
}

} // verus!
