//! The text of Udon assembly: what each part of a program is written as.
//!
//! The text of a program depends on the program's view alone. The blocks of
//! a code section are written in the order in which their labels first
//! came.

use crate::error::{TranslateError, TranslateErrorView};
use crate::uasm::{
    BlockView, CodeSectionView, DataView, OpcodeView, Uasm, UasmCode, UasmCodeBlock,
    UasmCodeSection, UasmData, UasmDataAttribute, UasmDataAttributeSync, UasmDataSection,
    UasmInstruction, UasmOpcode, UasmType, UasmView,
};
use vstd::prelude::*;
use vstd::string::StringExecFns;

verus! {

/// What opens the data section.
pub const DATA_OPEN: &'static str = "\n            .data_start\n            ";

/// What closes the data section.
pub const DATA_CLOSE: &'static str = "\n            .data_end\n            ";

/// What opens the code section.
pub const CODE_OPEN: &'static str = "\n            .code_start\n            ";

/// What closes the code section.
pub const CODE_CLOSE: &'static str = "\n            .code_end\n            ";

/// The line break and indentation before each line of a labelled block,
/// and after its last.
pub const BLOCK_INDENT: &'static str = "\n                        ";

/// What stands behind a label, at the end of its line.
pub const LABEL_CLOSE: &'static str = ":";

/// The line break and indentation before each instruction of a block.
pub const INSTRUCTION_INDENT: &'static str = "\n                            ";

/// The keyword of a type.
pub open spec fn type_keyword(ty: UasmType) -> Seq<char> {
    match ty {
        UasmType::Int32 => "%SystemInt32"@,
        UasmType::Int64 => "%SystemInt64"@,
        UasmType::Single => "%SystemSingle"@,
        UasmType::Double => "$SystemDouble"@,
        UasmType::String => "%SystemString"@,
    }
}

/// Whether an attribute has a text: a sync attribute has none.
pub open spec fn attribute_has_text(attribute: UasmDataAttribute) -> bool {
    !(attribute is Sync)
}

/// The text of an attribute that has one: nothing for no attribute,
/// `.export` for an export.
pub open spec fn attribute_text(attribute: UasmDataAttribute) -> Seq<char>
    recommends
        attribute_has_text(attribute),
{
    match attribute {
        UasmDataAttribute::Export => ".export"@,
        _ => Seq::empty(),
    }
}

/// Whether an opcode has a text: an annotation has none.
pub open spec fn opcode_has_text(opcode: OpcodeView) -> bool {
    !(opcode is Annotation)
}

/// The text of an opcode that has one: its name in upper case, then a
/// comma and the operand where there is one. The symbol of `Extern` stands
/// in double quotes.
pub open spec fn opcode_text(opcode: OpcodeView) -> Seq<char>
    recommends
        opcode_has_text(opcode),
{
    match opcode {
        OpcodeView::Nop => "NOP"@,
        OpcodeView::Push(name) => "PUSH,"@ + name,
        OpcodeView::Pop => "POP"@,
        OpcodeView::Jump(label) => "JUMP,"@ + label,
        OpcodeView::JumpIfFalse(label) => "JUMP_IF_FALSE,"@ + label,
        OpcodeView::JumpIndirect(name) => "JUMP_INDIRECT,"@ + name,
        OpcodeView::Copy => "COPY"@,
        OpcodeView::Extern(symbol) => "EXTERN,\""@ + symbol + "\""@,
        OpcodeView::Annotation => Seq::empty(),
    }
}

/// Whether every instruction of a block has a text.
pub open spec fn block_has_text(instructions: Seq<OpcodeView>) -> bool {
    forall|i: int| 0 <= i < instructions.len() ==> opcode_has_text(#[trigger] instructions[i])
}

/// The text of a block: each instruction on a line of its own, indented.
pub open spec fn block_text(instructions: Seq<OpcodeView>) -> Seq<char>
    decreases instructions.len(),
{
    if instructions.len() == 0 {
        Seq::empty()
    } else {
        block_text(instructions.drop_last()) + INSTRUCTION_INDENT@ + opcode_text(
            instructions.last(),
        )
    }
}

/// The text of a data declaration: the attribute, then at once the name, a
/// colon, a blank and the keyword of the type.
pub open spec fn declaration_text(data: DataView) -> Seq<char> {
    attribute_text(data.attribute) + data.variable.name + ": "@ + type_keyword(data.variable.ty)
}

/// Whether every declaration of a data section has a text.
pub open spec fn data_has_text(declarations: Seq<DataView>) -> bool {
    forall|i: int|
        0 <= i < declarations.len() ==> attribute_has_text((#[trigger] declarations[i]).attribute)
}

/// The text of a data section: its declarations in their order, with
/// nothing between them.
pub open spec fn data_text(declarations: Seq<DataView>) -> Seq<char>
    decreases declarations.len(),
{
    if declarations.len() == 0 {
        Seq::empty()
    } else {
        data_text(declarations.drop_last()) + declaration_text(declarations.last())
    }
}

/// The text of a labelled block. With `export` a line announces the label
/// before the block.
pub open spec fn labelled_block_text(export: bool, block: BlockView) -> Seq<char> {
    if export {
        BLOCK_INDENT@ + ".export "@ + block.label + BLOCK_INDENT@ + block.label + LABEL_CLOSE@
            + block_text(block.instructions) + BLOCK_INDENT@
    } else {
        BLOCK_INDENT@ + block.label + LABEL_CLOSE@ + block_text(block.instructions) + BLOCK_INDENT@
    }
}

/// Whether every instruction of every block has a text.
pub open spec fn code_has_text(blocks: Seq<BlockView>) -> bool {
    forall|i: int| 0 <= i < blocks.len() ==> block_has_text((#[trigger] blocks[i]).instructions)
}

/// The text of the blocks of a code section, in their order.
pub open spec fn code_text(export: bool, blocks: Seq<BlockView>) -> Seq<char>
    decreases blocks.len(),
{
    if blocks.len() == 0 {
        Seq::empty()
    } else {
        code_text(export, blocks.drop_last()) + labelled_block_text(export, blocks.last())
    }
}

/// The blocks of a code section.
pub open spec fn blocks_of(section: CodeSectionView) -> Seq<BlockView> {
    match section {
        CodeSectionView::Export(blocks) => blocks,
        CodeSectionView::NoExport(blocks) => blocks,
    }
}

/// The text of a code section.
pub open spec fn code_section_text(section: CodeSectionView) -> Seq<char> {
    code_text(section is Export, blocks_of(section))
}

/// Whether every part of a program has a text.
pub open spec fn renderable(program: UasmView) -> bool {
    &&& program.data_section matches Some(declarations) ==> data_has_text(declarations)
    &&& program.code_section matches Some(section) ==> code_has_text(blocks_of(section))
}

/// The text of a program: the data section between its markers, if there
/// is one, then the code section between its markers, if there is one.
pub open spec fn program_text(program: UasmView) -> Seq<char> {
    (match program.data_section {
        Some(declarations) => DATA_OPEN@ + data_text(declarations) + DATA_CLOSE@,
        None => Seq::empty(),
    }) + (match program.code_section {
        Some(section) => CODE_OPEN@ + code_section_text(section) + CODE_CLOSE@,
        None => Seq::empty(),
    })
}

/// The variation of the first sync attribute among `declarations`, if
/// there is one.
pub open spec fn first_sync(declarations: Seq<DataView>) -> Option<UasmDataAttributeSync>
    decreases declarations.len(),
{
    if declarations.len() == 0 {
        None
    } else {
        match first_sync(declarations.drop_last()) {
            Some(sync) => Some(sync),
            None => match declarations.last().attribute {
                UasmDataAttribute::Sync(sync) => Some(sync),
                _ => None,
            },
        }
    }
}

/// Why a program that is not renderable has no text: its first sync
/// attribute, or else an annotation.
pub open spec fn render_error(program: UasmView) -> TranslateErrorView
    recommends
        !renderable(program),
{
    match program.data_section {
        Some(declarations) if first_sync(declarations) is Some => {
            TranslateErrorView::UnsupportedAttribute { sync: first_sync(declarations)->0 }
        },
        _ => TranslateErrorView::AnnotationRendered,
    }
}

/// A data section has a first sync attribute exactly if some declaration
/// has no text.
pub proof fn lemma_first_sync(declarations: Seq<DataView>)
    ensures
        first_sync(declarations) is None <==> data_has_text(declarations),
    decreases declarations.len(),
{
    if declarations.len() > 0 {
        let front = declarations.drop_last();
        lemma_first_sync(front);
        if data_has_text(declarations) {
            assert forall|i: int| 0 <= i < front.len() implies attribute_has_text(
                (#[trigger] front[i]).attribute,
            ) by {
                assert(front[i] == declarations[i]);
            }
        } else if data_has_text(front) {
            assert(!attribute_has_text(declarations.last().attribute)) by {
                if attribute_has_text(declarations.last().attribute) {
                    assert forall|i: int| 0 <= i < declarations.len() implies attribute_has_text(
                        (#[trigger] declarations[i]).attribute,
                    ) by {
                        if i < front.len() {
                            assert(front[i] == declarations[i]);
                        }
                    }
                }
            }
        }
    }
}

/// Rendering is deterministic: whatever two renderings of one program
/// return, they return the same text.
pub proof fn lemma_rendering_is_deterministic(program: Uasm, first: String, second: String)
    requires
        call_ensures(Uasm::to_string, (&program,), first),
        call_ensures(Uasm::to_string, (&program,), second),
    ensures
        first@ == second@,
{
}

impl UasmType {
    /// The keyword of this type.
    pub fn to_string(&self) -> (text: String)
        ensures
            text@ == type_keyword(*self),
    {
        match self {
            UasmType::Int32 => String::from_str("%SystemInt32"),
            UasmType::Int64 => String::from_str("%SystemInt64"),
            UasmType::Single => String::from_str("%SystemSingle"),
            UasmType::Double => String::from_str("$SystemDouble"),
            UasmType::String => String::from_str("%SystemString"),
        }
    }
}

impl UasmDataAttribute {
    /// The text of this attribute: nothing for no attribute, `.export` for
    /// an export. A sync attribute has no text and gives an error.
    pub fn to_string(&self) -> (text: Result<String, TranslateError>)
        ensures
            match *self {
                UasmDataAttribute::Sync(sync) => text matches Err(error) && error@ == (
                TranslateErrorView::UnsupportedAttribute { sync }),
                _ => text matches Ok(found) && found@ == attribute_text(*self),
            },
    {
        match self {
            UasmDataAttribute::NoAttribute => Ok(String::new()),
            UasmDataAttribute::Export => Ok(String::from_str(".export")),
            UasmDataAttribute::Sync(sync) => Err(
                TranslateError::UnsupportedAttribute { sync: *sync },
            ),
        }
    }
}

impl UasmOpcode {
    /// The text of this opcode.
    pub fn to_string(&self) -> (text: String)
        requires
            opcode_has_text(self@),
        ensures
            text@ == opcode_text(self@),
    {
        match self {
            UasmOpcode::Nop => String::from_str("NOP"),
            UasmOpcode::Push(name) => {
                let mut text = String::from_str("PUSH,");
                text.append(name.to_string().as_str());
                text
            },
            UasmOpcode::Pop => String::from_str("POP"),
            UasmOpcode::Jump(label) => {
                let mut text = String::from_str("JUMP,");
                text.append(label.to_string().as_str());
                text
            },
            UasmOpcode::JumpIfFalse(label) => {
                let mut text = String::from_str("JUMP_IF_FALSE,");
                text.append(label.to_string().as_str());
                text
            },
            UasmOpcode::JumpIndirect(name) => {
                let mut text = String::from_str("JUMP_INDIRECT,");
                text.append(name.to_string().as_str());
                text
            },
            UasmOpcode::Copy => String::from_str("COPY"),
            UasmOpcode::Extern(symbol) => {
                let mut text = String::from_str("EXTERN,\"");
                text.append(symbol.as_str());
                text.append("\"");
                text
            },
            UasmOpcode::Annotation => String::new(),
        }
    }
}

impl UasmInstruction {
    /// The text of this instruction, which is that of its opcode.
    pub fn to_string(&self) -> (text: String)
        requires
            opcode_has_text(self@),
        ensures
            text@ == opcode_text(self@),
    {
        self.opcode.to_string()
    }
}

impl UasmCodeBlock {
    /// Whether every instruction of this block has a text.
    pub fn has_text(&self) -> (yes: bool)
        ensures
            yes == block_has_text(self@),
    {
        let instructions = self.get_instructions();
        let mut i: usize = 0;
        while i < instructions.len()
            invariant
                i <= instructions@.len(),
                instructions@.len() == self@.len(),
                forall|k: int| 0 <= k < self@.len() ==> (#[trigger] instructions@[k])@ == self@[k],
                forall|k: int| 0 <= k < i ==> opcode_has_text(#[trigger] self@[k]),
            decreases instructions@.len() - i,
        {
            if let UasmOpcode::Annotation = instructions[i].opcode {
                assert(!opcode_has_text(self@[i as int]));
                return false;
            }
            i += 1;
        }
        true
    }

    /// The text of this block.
    pub fn to_string(&self) -> (text: String)
        requires
            block_has_text(self@),
        ensures
            text@ == block_text(self@),
    {
        let instructions = self.get_instructions();
        let mut text = String::new();
        let mut i: usize = 0;
        assert(self@.take(0) =~= Seq::<OpcodeView>::empty());
        while i < instructions.len()
            invariant
                i <= instructions@.len(),
                instructions@.len() == self@.len(),
                forall|k: int| 0 <= k < self@.len() ==> (#[trigger] instructions@[k])@ == self@[k],
                block_has_text(self@),
                text@ == block_text(self@.take(i as int)),
            decreases instructions@.len() - i,
        {
            text.append(INSTRUCTION_INDENT);
            text.append(instructions[i].to_string().as_str());
            proof {
                let next = self@.take(i + 1);
                assert(next.drop_last() =~= self@.take(i as int));
                assert(next.last() == self@[i as int]);
            }
            i += 1;
        }
        assert(self@.take(i as int) =~= self@);
        text
    }
}

impl UasmData {
    /// The text of this declaration.
    pub fn to_string(&self) -> (text: String)
        requires
            attribute_has_text(self.attribute),
        ensures
            text@ == declaration_text(self@),
    {
        let mut text = match self.attribute.to_string() {
            Ok(text) => text,
            Err(_) => {
                assert(false);
                String::new()
            },
        };
        text.append(self.variable.name.to_string().as_str());
        text.append(": ");
        text.append(self.variable.ty.to_string().as_str());
        text
    }
}

impl UasmDataSection {
    /// The variation of the first sync attribute in this section, if there
    /// is one.
    pub fn first_sync(&self) -> (found: Option<UasmDataAttributeSync>)
        ensures
            found == first_sync(self@),
    {
        let declarations = self.get_data();
        let mut found: Option<UasmDataAttributeSync> = None;
        let mut i: usize = 0;
        assert(self@.take(0) =~= Seq::<DataView>::empty());
        while i < declarations.len()
            invariant
                i <= declarations@.len(),
                declarations@.len() == self@.len(),
                forall|k: int| 0 <= k < self@.len() ==> (#[trigger] declarations@[k])@ == self@[k],
                found == first_sync(self@.take(i as int)),
            decreases declarations@.len() - i,
        {
            proof {
                let next = self@.take(i + 1);
                assert(next.drop_last() =~= self@.take(i as int));
                assert(next.last() == self@[i as int]);
            }
            if found.is_none() {
                if let UasmDataAttribute::Sync(sync) = declarations[i].attribute {
                    found = Some(sync);
                }
            }
            i += 1;
        }
        assert(self@.take(i as int) =~= self@);
        found
    }

    /// The text of this section.
    pub fn to_string(&self) -> (text: String)
        requires
            data_has_text(self@),
        ensures
            text@ == data_text(self@),
    {
        let declarations = self.get_data();
        let mut text = String::new();
        let mut i: usize = 0;
        assert(self@.take(0) =~= Seq::<DataView>::empty());
        while i < declarations.len()
            invariant
                i <= declarations@.len(),
                declarations@.len() == self@.len(),
                forall|k: int| 0 <= k < self@.len() ==> (#[trigger] declarations@[k])@ == self@[k],
                data_has_text(self@),
                text@ == data_text(self@.take(i as int)),
            decreases declarations@.len() - i,
        {
            assert(attribute_has_text(self@[i as int].attribute));
            text.append(declarations[i].to_string().as_str());
            proof {
                let next = self@.take(i + 1);
                assert(next.drop_last() =~= self@.take(i as int));
                assert(next.last() == self@[i as int]);
            }
            i += 1;
        }
        assert(self@.take(i as int) =~= self@);
        text
    }
}

impl UasmCode {
    /// Whether every instruction of every block has a text.
    pub fn has_text(&self) -> (yes: bool)
        ensures
            yes == code_has_text(self@),
    {
        let mut i: usize = 0;
        while i < self.len()
            invariant
                i <= self@.len(),
                forall|k: int| 0 <= k < i ==> block_has_text((#[trigger] self@[k]).instructions),
            decreases self@.len() - i,
        {
            if !self.block_at(i).has_text() {
                assert(!block_has_text(self@[i as int].instructions));
                return false;
            }
            i += 1;
        }
        true
    }

    /// The text of the blocks, each under its label; with `export` each
    /// label is announced.
    fn render(&self, export: bool) -> (text: String)
        requires
            code_has_text(self@),
        ensures
            text@ == code_text(export, self@),
    {
        let mut text = String::new();
        let mut i: usize = 0;
        assert(self@.take(0) =~= Seq::<BlockView>::empty());
        while i < self.len()
            invariant
                i <= self@.len(),
                code_has_text(self@),
                text@ == code_text(export, self@.take(i as int)),
            decreases self@.len() - i,
        {
            let label = self.label_at(i).to_string();
            assert(block_has_text(self@[i as int].instructions));
            let body = self.block_at(i).to_string();
            text.append(BLOCK_INDENT);
            if export {
                text.append(".export ");
                text.append(label.as_str());
                text.append(BLOCK_INDENT);
            }
            text.append(label.as_str());
            text.append(LABEL_CLOSE);
            text.append(body.as_str());
            text.append(BLOCK_INDENT);
            proof {
                let next = self@.take(i + 1);
                assert(next.drop_last() =~= self@.take(i as int));
                assert(next.last() == self@[i as int]);
                assert(text@ =~= code_text(export, self@.take(i as int)) + labelled_block_text(
                    export,
                    self@[i as int],
                ));
            }
            i += 1;
        }
        assert(self@.take(i as int) =~= self@);
        text
    }
}

impl UasmCodeSection {
    /// The blocks of this section.
    pub fn code(&self) -> (code: &UasmCode)
        ensures
            code@ == blocks_of(self@),
    {
        match self {
            UasmCodeSection::Export(code) => code,
            UasmCodeSection::NoExport(code) => code,
        }
    }

    /// The text of this section.
    pub fn to_string(&self) -> (text: String)
        requires
            code_has_text(blocks_of(self@)),
        ensures
            text@ == code_section_text(self@),
    {
        match self {
            UasmCodeSection::Export(code) => code.render(true),
            UasmCodeSection::NoExport(code) => code.render(false),
        }
    }
}

impl Uasm {
    /// The text of this program.
    pub fn to_string(&self) -> (text: String)
        requires
            renderable(self@),
        ensures
            text@ == program_text(self@),
    {
        let mut text = String::new();
        if let Some(data_section) = &self.data_section {
            text.append(DATA_OPEN);
            text.append(data_section.to_string().as_str());
            text.append(DATA_CLOSE);
        }
        if let Some(code_section) = &self.code_section {
            text.append(CODE_OPEN);
            text.append(code_section.to_string().as_str());
            text.append(CODE_CLOSE);
        }
        assert(text@ =~= program_text(self@));
        text
    }

    /// The text of this program, or the reason for which it has none.
    pub fn codegen(&self) -> (generated: Result<String, TranslateError>)
        ensures
            match generated {
                Ok(text) => renderable(self@) && text@ == program_text(self@),
                Err(error) => !renderable(self@) && error@ == render_error(self@),
            },
    {
        if let Some(data_section) = &self.data_section {
            proof {
                lemma_first_sync(data_section@);
            }
            if let Some(sync) = data_section.first_sync() {
                return Err(TranslateError::UnsupportedAttribute { sync });
            }
        }
        if let Some(code_section) = &self.code_section {
            if !code_section.code().has_text() {
                return Err(TranslateError::AnnotationRendered);
            }
        }
        Ok(self.to_string())
    }
}

} // verus!
