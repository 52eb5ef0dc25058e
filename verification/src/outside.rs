//! The calls into `wasmparser`. Nothing in this file is proved: Verus
//! believes the contracts. What the parser and its readers return depends
//! on nothing but what they are given, so each result has a name, and the
//! contracts say which name a result is.

use crate::wasm::{
    GlobalDeclView, GlobalSectionView, OperatorView, ReadFailure, ReadFailureView,
    SectionRecordView, WasmOperator, WasmValType,
};
use vstd::prelude::*;

verus! {

#[verifier::external_type_specification]
#[verifier::external_body]
pub struct ExPayload<'a>(wasmparser::Payload<'a>);

#[verifier::external_type_specification]
#[verifier::external_body]
pub struct ExError(wasmparser::Error);

#[verifier::external_type_specification]
#[verifier::external_body]
#[verifier::reject_recursive_types(T)]
pub struct ExSectionLimitedIntoIter<'a, T>(wasmparser::SectionLimitedIntoIter<'a, T>);

#[verifier::external_type_specification]
#[verifier::external_body]
pub struct ExGlobal<'a>(wasmparser::Global<'a>);

#[verifier::external_type_specification]
#[verifier::external_body]
pub struct ExOperatorsIterator<'a>(wasmparser::OperatorsIterator<'a>);

#[verifier::external_type_specification]
#[verifier::external_body]
pub struct ExOperator<'a>(wasmparser::Operator<'a>);

/// A `wasmparser::Parser`, which frames the bytes of a module into
/// payloads.
#[verifier::external_body]
#[derive(Debug)]
pub struct Framer {
    inner: wasmparser::Parser,
}

/// What one call of the parser gave.
pub enum ParseStep<'a> {
    /// The parser needs about this many more bytes.
    NeedMoreData(usize),
    /// The parser consumed `consumed` bytes and found `payload`.
    Parsed { consumed: usize, payload: wasmparser::Payload<'a> },
    /// The bytes are malformed.
    Failed(ReadFailure),
}

/// What a payload is, as far as the translator tells payloads apart.
pub enum PayloadShape<'a> {
    /// The header of the module.
    Header,
    /// The global section, with a reader of its entries.
    Globals(wasmparser::SectionLimitedIntoIter<'a, wasmparser::Global<'a>>),
    /// The end of the module.
    End,
    /// Anything else.
    Other,
}

/// What one step of a reader gave.
pub enum ReadStep<T> {
    /// There is nothing more to read.
    Done,
    /// The next item.
    Item(T),
    /// The bytes of the next item are malformed.
    Failed(ReadFailure),
}

/// What one step of a reader gave, as a mathematical value.
pub enum ReadStepView<V> {
    /// There is nothing more to read.
    Done,
    /// The next item.
    Item(V),
    /// The bytes of the next item are malformed.
    Failed(ReadFailureView),
}

/// What a reader gives from where it stands: the items that it hands out,
/// in their order, and the failure at which it stops, if it does not stop
/// at the end of the items.
pub struct ReadingView<V> {
    pub items: Seq<V>,
    pub failure: Option<ReadFailureView>,
}

/// What the steps `steps` of a reader give: the items of the steps before
/// the first end or failure, and that failure.
pub open spec fn reading<V>(steps: Seq<ReadStepView<V>>) -> ReadingView<V>
    decreases steps.len(),
{
    if steps.len() == 0 {
        ReadingView { items: Seq::empty(), failure: None }
    } else {
        match steps[0] {
            ReadStepView::Done => ReadingView { items: Seq::empty(), failure: None },
            ReadStepView::Failed(failure) => ReadingView {
                items: Seq::empty(),
                failure: Some(failure),
            },
            ReadStepView::Item(item) => ReadingView {
                items: seq![item] + reading(steps.drop_first()).items,
                failure: reading(steps.drop_first()).failure,
            },
        }
    }
}

/// What a payload is, as a mathematical value: for a global section, with
/// the steps that the reader of its entries gives.
pub enum ShapeView {
    Header,
    Globals(Seq<ReadStepView<GlobalDeclView>>),
    End,
    Other,
}

/// What one call of the parser gave, as a mathematical value.
pub enum StepView {
    /// The parser consumed `consumed` bytes and found `record`.
    Parsed { consumed: nat, record: SectionRecordView },
    /// The parser needs about `hint` more bytes.
    NeedMoreData { hint: usize },
    /// The bytes are malformed.
    Failed { failure: ReadFailureView },
}

/// The offset that a parser was made with.
pub uninterp spec fn framer_start(framer: Framer) -> u64;

/// What a parser has been handed so far, call by call: the bytes and
/// whether no more input was to come.
pub uninterp spec fn framer_fed(framer: Framer) -> Seq<(Seq<u8>, bool)>;

/// What a parser that was made with the offset `start` and has been handed
/// `fed` gives when it is handed `data` and `eof`.
pub uninterp spec fn framed(start: u64, fed: Seq<(Seq<u8>, bool)>, data: Seq<u8>, eof: bool) -> StepView;

/// What the payload `payload` is.
pub uninterp spec fn payload_section(payload: wasmparser::Payload<'_>) -> ShapeView;

/// The identifier of the section that `payload` is, if it is a whole
/// section.
pub uninterp spec fn payload_id(payload: wasmparser::Payload<'_>) -> Option<u8>;

/// The steps that the reader `entries` gives from where it stands, up to
/// its first end or failure.
pub uninterp spec fn pending_globals(
    entries: wasmparser::SectionLimitedIntoIter<'_, wasmparser::Global<'_>>,
) -> Seq<ReadStepView<GlobalDeclView>>;

/// The type of the value of `global`.
pub uninterp spec fn global_type(global: wasmparser::Global<'_>) -> WasmValType;

/// The steps that a reader of the initializer of `global` gives.
pub uninterp spec fn global_init(global: wasmparser::Global<'_>) -> Seq<ReadStepView<OperatorView>>;

/// The steps that the reader `operators` gives from where it stands, up
/// to its first end or failure.
pub uninterp spec fn pending_operators(
    operators: wasmparser::OperatorsIterator<'_>,
) -> Seq<ReadStepView<OperatorView>>;

/// The operator `operator` as a plain value.
pub uninterp spec fn operator_view(operator: wasmparser::Operator<'_>) -> OperatorView;

/// What a parser has been handed before its first call.
pub open spec fn nothing_fed() -> Seq<(Seq<u8>, bool)> {
    Seq::empty()
}

/// The declaration that `global` is: its type and what the reader of its
/// initializer gives.
pub open spec fn global_decl(global: wasmparser::Global<'_>) -> GlobalDeclView {
    GlobalDeclView {
        content_type: global_type(global),
        init: reading(global_init(global)).items,
        failure: reading(global_init(global)).failure,
    }
}

/// The view of a step of the reader of an initializer.
pub open spec fn operator_step_view(step: ReadStep<wasmparser::Operator<'_>>) -> ReadStepView<
    OperatorView,
> {
    match step {
        ReadStep::Done => ReadStepView::Done,
        ReadStep::Item(operator) => ReadStepView::Item(operator_view(operator)),
        ReadStep::Failed(failure) => ReadStepView::Failed(failure@),
    }
}

/// The view of a step of the reader of a global section.
pub open spec fn global_step_view(step: ReadStep<wasmparser::Global<'_>>) -> ReadStepView<
    GlobalDeclView,
> {
    match step {
        ReadStep::Done => ReadStepView::Done,
        ReadStep::Item(global) => ReadStepView::Item(global_decl(global)),
        ReadStep::Failed(failure) => ReadStepView::Failed(failure@),
    }
}

/// The view of the shape of a payload.
pub open spec fn shape_view(shape: PayloadShape<'_>) -> ShapeView {
    match shape {
        PayloadShape::Header => ShapeView::Header,
        PayloadShape::Globals(entries) => ShapeView::Globals(pending_globals(entries)),
        PayloadShape::End => ShapeView::End,
        PayloadShape::Other => ShapeView::Other,
    }
}

/// The record of a payload of the shape `shape` and the section identifier
/// `id`: the header, the end and the global section have records of their
/// own; any other payload is known by the identifier of its section, or is
/// a fragment if it is not a whole section.
pub open spec fn record_for(shape: ShapeView, id: Option<u8>) -> SectionRecordView {
    match shape {
        ShapeView::Header => SectionRecordView::Header,
        ShapeView::Globals(steps) => SectionRecordView::Global(
            GlobalSectionView { entries: reading(steps).items, failure: reading(steps).failure },
        ),
        ShapeView::End => SectionRecordView::End,
        ShapeView::Other => match id {
            Some(id) => SectionRecordView::Other { id },
            None => SectionRecordView::Fragment,
        },
    }
}

/// The record that `payload` is.
pub open spec fn payload_record(payload: wasmparser::Payload<'_>) -> SectionRecordView {
    record_for(payload_section(payload), payload_id(payload))
}

/// The view of a step of the parser.
pub open spec fn step_view(step: ParseStep<'_>) -> StepView {
    match step {
        ParseStep::NeedMoreData(hint) => StepView::NeedMoreData { hint },
        ParseStep::Parsed { consumed, payload } => StepView::Parsed {
            consumed: consumed as nat,
            record: payload_record(payload),
        },
        ParseStep::Failed(failure) => StepView::Failed { failure: failure@ },
    }
}

/// `wasmparser::Parser::new`: a parser at the start of a module whose
/// first byte has the offset `offset`. It has been handed nothing.
#[verifier::external_body]
pub(crate) fn parser_new(offset: u64) -> (framer: Framer)
    ensures
        framer_start(framer) == offset,
        framer_fed(framer) == nothing_fed(),
{
    Framer { inner: wasmparser::Parser::new(offset) }
}

/// `wasmparser::Parser::parse`: the next payload in `data`. What the
/// parser gives depends on the offset that it was made with, on what it
/// was handed before and on what it is handed now, and on nothing else. The
/// parser asks for more data only where `eof` is false, and it consumes no
/// more bytes than `data` holds.
#[verifier::external_body]
pub(crate) fn parser_parse<'a>(framer: &mut Framer, data: &'a [u8], eof: bool) -> (step:
    ParseStep<'a>)
    ensures
        framer_start(*final(framer)) == framer_start(*old(framer)),
        framer_fed(*final(framer)) == framer_fed(*old(framer)).push((data@, eof)),
        step_view(step) == framed(framer_start(*old(framer)), framer_fed(*old(framer)), data@, eof),
        step is NeedMoreData ==> !eof,
        step matches ParseStep::Parsed { consumed, .. } ==> consumed <= data@.len(),
{
    match framer.inner.parse(data, eof) {
        Ok(wasmparser::Chunk::NeedMoreData(hint)) => ParseStep::NeedMoreData(hint),
        Ok(wasmparser::Chunk::Parsed { consumed, payload }) => ParseStep::Parsed { consumed, payload },
        Err(error) => ParseStep::Failed(
            ReadFailure { offset: error.offset(), message: error.message().to_string() },
        ),
    }
}

/// Tells the variants of `wasmparser::Payload` apart, and for a global
/// section makes the reader of its entries (`SectionLimited::into_iter`
/// on a clone of the section).
#[verifier::external_body]
pub(crate) fn payload_shape<'a>(payload: &wasmparser::Payload<'a>) -> (shape: PayloadShape<'a>)
    ensures
        shape_view(shape) == payload_section(*payload),
{
    match payload {
        wasmparser::Payload::Version { .. } => PayloadShape::Header,
        wasmparser::Payload::GlobalSection(section) => PayloadShape::Globals(
            section.clone().into_iter(),
        ),
        wasmparser::Payload::End(_) => PayloadShape::End,
        _ => PayloadShape::Other,
    }
}

/// `wasmparser::Payload::as_section`: the identifier of the section that
/// `payload` is, if it is a whole section.
#[verifier::external_body]
pub(crate) fn payload_section_id(payload: &wasmparser::Payload<'_>) -> (id: Option<u8>)
    ensures
        id == payload_id(*payload),
{
    payload.as_section().map(|section| section.0)
}

/// `SectionLimitedIntoIter::next`: the next global of a section. The step
/// is the first of those that the reader had to give, and after an item
/// the reader has the others to give.
#[verifier::external_body]
pub(crate) fn next_global<'a>(
    entries: &mut wasmparser::SectionLimitedIntoIter<'a, wasmparser::Global<'a>>,
) -> (step: ReadStep<wasmparser::Global<'a>>)
    ensures
        pending_globals(*old(entries)).len() > 0 && global_step_view(step) == pending_globals(
            *old(entries),
        )[0],
        step is Item ==> pending_globals(*final(entries)) == pending_globals(
            *old(entries),
        ).drop_first(),
{
    match entries.next() {
        None => ReadStep::Done,
        Some(Ok(global)) => ReadStep::Item(global),
        Some(Err(error)) => ReadStep::Failed(
            ReadFailure { offset: error.offset(), message: error.message().to_string() },
        ),
    }
}

/// The content type of a global, `Global::ty.content_type`.
#[verifier::external_body]
pub(crate) fn global_content_type(global: &wasmparser::Global<'_>) -> (ty: WasmValType)
    ensures
        ty == global_type(*global),
{
    match global.ty.content_type {
        wasmparser::ValType::I32 => WasmValType::I32,
        wasmparser::ValType::I64 => WasmValType::I64,
        wasmparser::ValType::F32 => WasmValType::F32,
        wasmparser::ValType::F64 => WasmValType::F64,
        wasmparser::ValType::V128 => WasmValType::V128,
        wasmparser::ValType::Ref(_) => WasmValType::Ref,
    }
}

/// `ConstExpr::get_operators_reader` and `OperatorsReader::into_iter`: a
/// reader of the operators of the initializer of a global.
#[verifier::external_body]
pub(crate) fn global_operators<'a>(global: &wasmparser::Global<'a>) -> (operators:
    wasmparser::OperatorsIterator<'a>)
    ensures
        pending_operators(operators) == global_init(*global),
{
    global.init_expr.get_operators_reader().into_iter()
}

/// `OperatorsIterator::next`: the next operator of an initializer. The
/// step is the first of those that the reader had to give, and after an
/// item the reader has the others to give.
#[verifier::external_body]
pub(crate) fn next_operator<'a>(operators: &mut wasmparser::OperatorsIterator<'a>) -> (step:
    ReadStep<wasmparser::Operator<'a>>)
    ensures
        pending_operators(*old(operators)).len() > 0 && operator_step_view(step)
            == pending_operators(*old(operators))[0],
        step is Item ==> pending_operators(*final(operators)) == pending_operators(
            *old(operators),
        ).drop_first(),
{
    match operators.next() {
        None => ReadStep::Done,
        Some(Ok(operator)) => ReadStep::Item(operator),
        Some(Err(error)) => ReadStep::Failed(
            ReadFailure { offset: error.offset(), message: error.message().to_string() },
        ),
    }
}

/// Tells the variants of `wasmparser::Operator` apart. An operator
/// without a variant of its own in `WasmOperator` is named by its `Debug`
/// text.
#[verifier::external_body]
pub(crate) fn operator_of(operator: &wasmparser::Operator<'_>) -> (plain: WasmOperator)
    ensures
        plain@ == operator_view(*operator),
{
    match operator {
        wasmparser::Operator::Nop => WasmOperator::Nop,
        wasmparser::Operator::Drop => WasmOperator::Drop,
        wasmparser::Operator::End => WasmOperator::End,
        wasmparser::Operator::GlobalGet { global_index } => WasmOperator::GlobalGet {
            global_index: *global_index,
        },
        wasmparser::Operator::I32Const { value } => WasmOperator::I32Const(*value as u32),
        wasmparser::Operator::I64Const { value } => WasmOperator::I64Const(*value as u64),
        wasmparser::Operator::F32Const { value } => WasmOperator::F32Const(value.bits()),
        wasmparser::Operator::F64Const { value } => WasmOperator::F64Const(value.bits()),
        other => WasmOperator::Other { name: format!("{:?}", other) },
    }
}

} // verus!
