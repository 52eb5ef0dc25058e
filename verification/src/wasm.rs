//! What the translator reads of a WebAssembly module, as plain values:
//! section records, global declarations and the operators of their
//! initializers.

use vstd::prelude::*;

verus! {

/// The type of a WebAssembly value.
#[derive(Debug, Clone, Copy, PartialEq, Eq, Structural)]
pub enum WasmValType {
    /// 32-bit integer.
    I32,
    /// 64-bit integer.
    I64,
    /// 32-bit float.
    F32,
    /// 64-bit float.
    F64,
    /// 128-bit vector.
    V128,
    /// A reference, of whatever kind.
    Ref,
}

/// A WebAssembly operator as a mathematical value.
pub enum OperatorView {
    Nop,
    Drop,
    End,
    GlobalGet { global_index: u32 },
    I32Const(u32),
    I64Const(u64),
    F32Const(u32),
    F64Const(u64),
    Other { name: Seq<char> },
}

/// A WebAssembly operator. The operators that the translator has a
/// mapping for have a variant of their own, with their operand; a constant
/// holds the bits of its value.
#[derive(Debug)]
pub enum WasmOperator {
    Nop,
    Drop,
    End,
    GlobalGet { global_index: u32 },
    I32Const(u32),
    I64Const(u64),
    F32Const(u32),
    F64Const(u64),
    /// Any other operator, by the text that identifies it.
    Other { name: String },
}

impl View for WasmOperator {
    type V = OperatorView;

    open spec fn view(&self) -> OperatorView {
        match self {
            WasmOperator::Nop => OperatorView::Nop,
            WasmOperator::Drop => OperatorView::Drop,
            WasmOperator::End => OperatorView::End,
            WasmOperator::GlobalGet { global_index } => OperatorView::GlobalGet {
                global_index: *global_index,
            },
            WasmOperator::I32Const(bits) => OperatorView::I32Const(*bits),
            WasmOperator::I64Const(bits) => OperatorView::I64Const(*bits),
            WasmOperator::F32Const(bits) => OperatorView::F32Const(*bits),
            WasmOperator::F64Const(bits) => OperatorView::F64Const(*bits),
            WasmOperator::Other { name } => OperatorView::Other { name: name@ },
        }
    }
}

/// Why reading stopped, as a mathematical value.
pub struct ReadFailureView {
    pub offset: u64,
    pub message: Seq<char>,
}

/// Why reading stopped: the offset in the module at which the bytes
/// could not be read, and the reader's message.
#[derive(Debug)]
pub struct ReadFailure {
    pub offset: u64,
    pub message: String,
}

impl View for ReadFailure {
    type V = ReadFailureView;

    open spec fn view(&self) -> ReadFailureView {
        ReadFailureView { offset: self.offset, message: self.message@ }
    }
}

/// The view of a failure that may be there.
pub open spec fn failure_view(failure: Option<ReadFailure>) -> Option<ReadFailureView> {
    match failure {
        Some(failure) => Some(failure@),
        None => None,
    }
}

/// A global declaration as a mathematical value.
pub struct GlobalDeclView {
    pub content_type: WasmValType,
    pub init: Seq<OperatorView>,
    pub failure: Option<ReadFailureView>,
}

/// A global declaration: the type of its value and its initializer. Where
/// the initializer could not be read to its end, `init` holds the
/// operators before the failure.
#[derive(Debug)]
pub struct GlobalDecl {
    pub content_type: WasmValType,
    pub init: Vec<WasmOperator>,
    pub failure: Option<ReadFailure>,
}

impl View for GlobalDecl {
    type V = GlobalDeclView;

    open spec fn view(&self) -> GlobalDeclView {
        GlobalDeclView {
            content_type: self.content_type,
            init: self.init@.map_values(|operator: WasmOperator| operator@),
            failure: failure_view(self.failure),
        }
    }
}

/// A global section as a mathematical value.
pub struct GlobalSectionView {
    pub entries: Seq<GlobalDeclView>,
    pub failure: Option<ReadFailureView>,
}

/// The global section of a module: its declarations in their order. Where
/// an entry could not be read, `entries` holds the ones before it, so that
/// the entry that failed has the index `entries.len()`.
#[derive(Debug)]
pub struct GlobalSection {
    pub entries: Vec<GlobalDecl>,
    pub failure: Option<ReadFailure>,
}

impl View for GlobalSection {
    type V = GlobalSectionView;

    open spec fn view(&self) -> GlobalSectionView {
        GlobalSectionView {
            entries: self.entries@.map_values(|entry: GlobalDecl| entry@),
            failure: failure_view(self.failure),
        }
    }
}

/// The kind of a section record.
#[derive(Debug, Clone, Copy, PartialEq, Eq, Structural)]
pub enum SectionKind {
    /// The header of the module.
    Header,
    /// The global section.
    Global,
    /// Another section, by the identifier it has in the module.
    Other(u8),
    /// A part of a section that is handed out by itself.
    Fragment,
    /// The end of the module.
    End,
}

/// A section record as a mathematical value.
pub enum SectionRecordView {
    Header,
    Global(GlobalSectionView),
    Other { id: u8 },
    Fragment,
    End,
}

/// One decoded unit of a module.
#[derive(Debug)]
pub enum SectionRecord {
    /// The header of the module.
    Header,
    /// The global section, with its declarations.
    Global(GlobalSection),
    /// Another section, by the identifier it has in the module.
    Other { id: u8 },
    /// A part of a section that is handed out by itself.
    Fragment,
    /// The end of the module.
    End,
}

impl View for SectionRecord {
    type V = SectionRecordView;

    open spec fn view(&self) -> SectionRecordView {
        match self {
            SectionRecord::Header => SectionRecordView::Header,
            SectionRecord::Global(section) => SectionRecordView::Global(section@),
            SectionRecord::Other { id } => SectionRecordView::Other { id: *id },
            SectionRecord::Fragment => SectionRecordView::Fragment,
            SectionRecord::End => SectionRecordView::End,
        }
    }
}

/// The kind of a record.
pub open spec fn kind_of(record: SectionRecordView) -> SectionKind {
    match record {
        SectionRecordView::Header => SectionKind::Header,
        SectionRecordView::Global(_) => SectionKind::Global,
        SectionRecordView::Other { id } => SectionKind::Other(id),
        SectionRecordView::Fragment => SectionKind::Fragment,
        SectionRecordView::End => SectionKind::End,
    }
}

impl SectionRecord {
    /// The kind of this record.
    pub fn kind(&self) -> (kind: SectionKind)
        ensures
            kind == kind_of(self@),
    {
        match self {
            SectionRecord::Header => SectionKind::Header,
            SectionRecord::Global(_) => SectionKind::Global,
            SectionRecord::Other { id } => SectionKind::Other(*id),
            SectionRecord::Fragment => SectionKind::Fragment,
            SectionRecord::End => SectionKind::End,
        }
    }
}

} // verus!
