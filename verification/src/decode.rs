//! The decoder: frames the bytes of a module into section records, one
//! call of the parser at a time.
//!
//! What the parser gives is named in [`crate::outside`]. The contracts of
//! the decoder say which bytes the parser is handed and that what comes back
//! is what the parser gave.

use crate::codegen::{program_text, render_error, renderable};
use crate::error::{TranslateError, TranslateErrorView};
use crate::interpret::{record_views, translate, translation};
use crate::outside::{
    framed, framer_fed, framer_start, global_content_type, global_decl, global_init,
    global_operators, global_type, next_global, next_operator, operator_of, parser_new,
    parser_parse, payload_section_id, payload_shape, pending_globals, pending_operators, reading,
    record_for, shape_view, Framer, ParseStep, PayloadShape, ReadStep, StepView,
};
use crate::uasm::{Uasm, UasmView};
use crate::units::ParsedData;
use crate::wasm::{
    GlobalDecl, GlobalDeclView, GlobalSection, OperatorView, SectionRecord, SectionRecordView,
    WasmOperator,
};
use vstd::prelude::*;
use vstd::slice::slice_subrange;

verus! {

/// The bytes of a module, and the offset that its first byte has in the
/// stream that it comes from.
#[derive(Debug)]
pub struct WasmEntry<'a> {
    data: &'a [u8],
    offset: u64,
}

impl<'a> WasmEntry<'a> {
    /// The bytes of the module.
    pub closed spec fn bytes(&self) -> Seq<u8> {
        self.data@
    }

    /// The offset of the first byte.
    pub closed spec fn start(&self) -> u64 {
        self.offset
    }

    pub fn new(data: &'a [u8], offset: u64) -> (entry: WasmEntry<'a>)
        ensures
            entry.bytes() == data@,
            entry.start() == offset,
    {
        WasmEntry { data, offset }
    }
}

impl<'a> Default for WasmEntry<'a> {
    /// The module without bytes, at the offset 0.
    fn default() -> (entry: Self)
        ensures
            entry.bytes() == Seq::<u8>::empty(),
            entry.start() == 0,
    {
        let data: &'a [u8] = &[];
        WasmEntry { data, offset: 0 }
    }
}

/// The state of a decoder as a mathematical value.
pub struct DecoderView {
    /// The bytes of the module.
    pub data: Seq<u8>,
    /// The offset of the first byte.
    pub offset: u64,
    /// How many bytes have been consumed.
    pub position: nat,
    /// Whether no more input will come.
    pub eof: bool,
    /// What the parser has been handed so far, call by call.
    pub fed: Seq<(Seq<u8>, bool)>,
}

/// The decoder of one module. It borrows the bytes of the module and
/// holds the parser and how far it has read.
#[derive(Debug)]
pub struct WasmParser<'a> {
    wasm_entry: WasmEntry<'a>,
    parser: Framer,
    head_position: usize,
    eof: bool,
}

impl<'a> View for WasmParser<'a> {
    type V = DecoderView;

    closed spec fn view(&self) -> DecoderView {
        DecoderView {
            data: self.wasm_entry.data@,
            offset: self.wasm_entry.offset,
            position: self.head_position as nat,
            eof: self.eof,
            fed: framer_fed(self.parser),
        }
    }
}

/// The bytes that a decoder has not consumed.
pub open spec fn unread(decoder: DecoderView) -> Seq<u8> {
    decoder.data.subrange(decoder.position as int, decoder.data.len() as int)
}

/// What the parser of a decoder gives at the next call: it is handed the
/// bytes that have not been consumed.
pub open spec fn next_step(decoder: DecoderView) -> StepView {
    framed(decoder.offset, decoder.fed, unread(decoder), decoder.eof)
}

/// The decoder after the next call of its parser: the parser has been
/// handed the unread bytes, and the decoder has gone on by the bytes that a
/// payload took.
pub open spec fn after_step(decoder: DecoderView) -> DecoderView {
    DecoderView {
        position: match next_step(decoder) {
            StepView::Parsed { consumed, .. } => decoder.position + consumed,
            _ => decoder.position,
        },
        fed: decoder.fed.push((unread(decoder), decoder.eof)),
        ..decoder
    }
}

/// The error of a step, if it found no payload. A parser that asks for
/// more data has met a truncated module, unless it was told that no more
/// input will come: then it has broken its word.
pub open spec fn step_error(eof: bool, step: StepView) -> Option<TranslateErrorView> {
    match step {
        StepView::NeedMoreData { hint } => Some(
            if eof {
                TranslateErrorView::UnexpectedNeedMoreData { hint }
            } else {
                TranslateErrorView::Truncated { hint }
            },
        ),
        StepView::Failed { failure } => Some(
            TranslateErrorView::Malformed { offset: failure.offset, message: failure.message },
        ),
        StepView::Parsed { .. } => None,
    }
}

/// Whether decoding goes on after `step` at `decoder`: it does after a
/// record that is not the end of the module and that took at least one
/// byte, and no more than are unread.
pub open spec fn goes_on(decoder: DecoderView, step: StepView) -> bool {
    &&& step matches StepView::Parsed { consumed, record }
    &&& !(record is End)
    &&& 0 < consumed <= decoder.data.len() - decoder.position
}

/// What decoding a module up to its end gives, and where it leaves the
/// decoder.
pub struct RunView {
    /// The records before the end of the module, in the order in which
    /// they were met, or the error that ended the decoding.
    pub outcome: Result<Seq<SectionRecordView>, TranslateErrorView>,
    /// The decoder after the last call of the parser.
    pub decoder: DecoderView,
}

/// What decoding gives from where `decoder` stands. The parser is called
/// on the unread bytes, again and again. A step that meets the end of the
/// module ends the decoding, and the records met before it are its outcome.
/// A step that finds no payload ends the decoding with the error of that
/// step. A step that finds a record and takes no byte ends it too: the
/// decoder has stalled.
pub open spec fn run_from(decoder: DecoderView) -> RunView
    decreases decoder.data.len() - decoder.position,
{
    let step = next_step(decoder);
    let after = after_step(decoder);
    match step {
        StepView::Parsed { record, .. } => if record is End {
            RunView { outcome: Ok(Seq::empty()), decoder: after }
        } else if goes_on(decoder, step) {
            let rest = run_from(after);
            RunView {
                outcome: match rest.outcome {
                    Ok(records) => Ok(seq![record] + records),
                    Err(error) => Err(error),
                },
                decoder: rest.decoder,
            }
        } else {
            RunView {
                outcome: Err(TranslateErrorView::Stalled { position: decoder.position as usize }),
                decoder: after,
            }
        },
        _ => RunView { outcome: Err(step_error(decoder.eof, step)->0), decoder: after },
    }
}

/// Decoding gives records only where no step of the parser fails: where
/// the parser finds no payload in the unread bytes, decoding gives the error
/// of that step, which for malformed bytes is the parser's own failure, and
/// never a record sequence. Where the step finds a record that is not the
/// end, the records are that record and then those of the decoding that
/// goes on behind it.
pub proof fn lemma_run_unfolds(decoder: DecoderView)
    ensures
        next_step(decoder) matches StepView::Failed { failure } ==> run_from(decoder).outcome
            == Err::<Seq<SectionRecordView>, TranslateErrorView>(
            TranslateErrorView::Malformed { offset: failure.offset, message: failure.message },
        ),
        !(next_step(decoder) is Parsed) ==> run_from(decoder).outcome is Err,
        (next_step(decoder) matches StepView::Parsed { record, .. } && record is End)
            ==> run_from(decoder).outcome == Ok::<Seq<SectionRecordView>, TranslateErrorView>(
            Seq::empty(),
        ),
        goes_on(decoder, next_step(decoder)) ==> (run_from(decoder).outcome matches Ok(records)
            ==> (run_from(after_step(decoder)).outcome matches Ok(rest) && records == seq![
            next_step(decoder)->record,
        ] + rest)),
        goes_on(decoder, next_step(decoder)) ==> (run_from(decoder).outcome is Err
            <==> run_from(after_step(decoder)).outcome is Err),
{
}

/// What a call of the parser means for the decoder: the number of bytes
/// to go on by and the payload that was found, or the error. A parser that
/// asks for more data has met a truncated module, unless it was told that
/// no more input will come: then it has broken its word.
pub fn settle<'a>(eof: bool, step: ParseStep<'a>) -> (outcome: Result<
    (usize, wasmparser::Payload<'a>),
    TranslateError,
>)
    ensures
        match step {
            ParseStep::Parsed { consumed, payload } => outcome == Ok::<
                (usize, wasmparser::Payload<'a>),
                TranslateError,
            >((consumed, payload)),
            ParseStep::NeedMoreData(hint) => outcome == Err::<
                (usize, wasmparser::Payload<'a>),
                TranslateError,
            >(
                if eof {
                    TranslateError::UnexpectedNeedMoreData { hint }
                } else {
                    TranslateError::Truncated { hint }
                },
            ),
            ParseStep::Failed(failure) => outcome == Err::<
                (usize, wasmparser::Payload<'a>),
                TranslateError,
            >(TranslateError::Malformed { offset: failure.offset, message: failure.message }),
        },
{
    match step {
        ParseStep::Parsed { consumed, payload } => Ok((consumed, payload)),
        ParseStep::NeedMoreData(hint) => {
            if eof {
                Err(TranslateError::UnexpectedNeedMoreData { hint })
            } else {
                Err(TranslateError::Truncated { hint })
            }
        },
        ParseStep::Failed(failure) => Err(
            TranslateError::Malformed { offset: failure.offset, message: failure.message },
        ),
    }
}

/// The views of operators.
pub open spec fn operators_view(operators: Seq<WasmOperator>) -> Seq<OperatorView> {
    operators.map_values(|operator: WasmOperator| operator@)
}

/// The views of global declarations.
pub open spec fn globals_view(globals: Seq<GlobalDecl>) -> Seq<GlobalDeclView> {
    globals.map_values(|global: GlobalDecl| global@)
}

/// Reads the type of `global` and the operators of its initializer: the
/// declaration holds the operators that the reader hands out, in their
/// order, up to its first end or failure, and that failure.
fn read_global(global: &wasmparser::Global<'_>) -> (entry: GlobalDecl)
    ensures
        entry@ == global_decl(*global),
{
    let content_type = global_content_type(global);
    let mut operators = global_operators(global);
    let mut init: Vec<WasmOperator> = Vec::new();
    let ghost all = global_init(*global);
    assert(operators_view(init@) =~= Seq::<OperatorView>::empty());
    assert(Seq::<OperatorView>::empty() + reading(all).items =~= reading(all).items);
    loop
        invariant
            all == global_init(*global),
            content_type == global_type(*global),
            reading(all).items == operators_view(init@) + reading(
                pending_operators(operators),
            ).items,
            reading(all).failure == reading(pending_operators(operators)).failure,
        decreases pending_operators(operators).len(),
    {
        let ghost pending = pending_operators(operators);
        let ghost before = operators_view(init@);
        match next_operator(&mut operators) {
            ReadStep::Done => {
                let entry = GlobalDecl { content_type, init, failure: None };
                assert(entry@.init =~= reading(all).items);
                return entry;
            },
            ReadStep::Item(operator) => {
                init.push(operator_of(&operator));
                proof {
                    let item = pending[0]->Item_0;
                    assert(operators_view(init@) =~= before.push(item));
                    assert(before.push(item) + reading(pending.drop_first()).items =~= before + (
                    seq![item] + reading(pending.drop_first()).items));
                }
            },
            ReadStep::Failed(failure) => {
                let entry = GlobalDecl { content_type, init, failure: Some(failure) };
                assert(entry@.init =~= reading(all).items);
                return entry;
            },
        }
    }
}

/// Reads the globals of a section: the section holds the globals that the
/// reader hands out, in their order, up to its first end or failure, and
/// that failure.
fn read_globals<'a>(
    entries: wasmparser::SectionLimitedIntoIter<'a, wasmparser::Global<'a>>,
) -> (section: GlobalSection)
    ensures
        section@.entries == reading(pending_globals(entries)).items,
        section@.failure == reading(pending_globals(entries)).failure,
{
    let ghost all = pending_globals(entries);
    let mut reader = entries;
    let mut globals: Vec<GlobalDecl> = Vec::new();
    assert(globals_view(globals@) =~= Seq::<GlobalDeclView>::empty());
    assert(Seq::<GlobalDeclView>::empty() + reading(all).items =~= reading(all).items);
    loop
        invariant
            all == pending_globals(entries),
            reading(all).items == globals_view(globals@) + reading(pending_globals(reader)).items,
            reading(all).failure == reading(pending_globals(reader)).failure,
        decreases pending_globals(reader).len(),
    {
        let ghost pending = pending_globals(reader);
        let ghost before = globals_view(globals@);
        match next_global(&mut reader) {
            ReadStep::Done => {
                let section = GlobalSection { entries: globals, failure: None };
                assert(section@.entries =~= reading(all).items);
                return section;
            },
            ReadStep::Item(global) => {
                globals.push(read_global(&global));
                proof {
                    let item = pending[0]->Item_0;
                    assert(globals_view(globals@) =~= before.push(item));
                    assert(before.push(item) + reading(pending.drop_first()).items =~= before + (
                    seq![item] + reading(pending.drop_first()).items));
                }
            },
            ReadStep::Failed(failure) => {
                let section = GlobalSection { entries: globals, failure: Some(failure) };
                assert(section@.entries =~= reading(all).items);
                return section;
            },
        }
    }
}

/// The record of a payload of the given shape: the header, the end and
/// the global section have records of their own; any other payload is
/// known by the identifier of its section, or is a fragment if it is not a
/// whole section. The record of a global section holds what the reader of
/// its entries gives.
pub fn record_of<'a>(shape: PayloadShape<'a>, id: Option<u8>) -> (record: SectionRecord)
    ensures
        record@ == record_for(shape_view(shape), id),
{
    match shape {
        PayloadShape::Header => SectionRecord::Header,
        PayloadShape::Globals(entries) => SectionRecord::Global(read_globals(entries)),
        PayloadShape::End => SectionRecord::End,
        PayloadShape::Other => match id {
            Some(id) => SectionRecord::Other { id },
            None => SectionRecord::Fragment,
        },
    }
}

impl<'a> WasmParser<'a> {
    /// The decoder never is beyond the end of its module, and its parser
    /// was made with the offset of the module.
    #[verifier::type_invariant]
    spec fn well_formed(self) -> bool {
        &&& self.head_position <= self.wasm_entry.data@.len()
        &&& framer_start(self.parser) == self.wasm_entry.offset
    }

    /// A decoder at the start of the module `wasm_entry`, which is taken
    /// to be the whole module: no more input will come.
    pub fn from(wasm_entry: WasmEntry<'a>) -> (decoder: Self)
        ensures
            decoder@ == (DecoderView {
                data: wasm_entry.bytes(),
                offset: wasm_entry.start(),
                position: 0,
                eof: true,
                fed: Seq::empty(),
            }),
    {
        let parser = parser_new(wasm_entry.offset);
        WasmParser { wasm_entry, parser, head_position: 0, eof: true }
    }

    /// How many bytes have been consumed.
    pub fn position(&self) -> (position: usize)
        ensures
            position == self@.position,
            position <= self@.data.len(),
    {
        proof {
            use_type_invariant(self);
        }
        self.head_position
    }

    /// The decoder after the next call of its parser, and what the call
    /// gave.
    fn step(self) -> (stepped: (Self, Result<SectionRecord, TranslateError>))
        ensures
            self@.position <= self@.data.len(),
            stepped.0@ == after_step(self@),
            stepped.0@.position <= self@.data.len(),
            match next_step(self@) {
                StepView::Parsed { record, .. } => stepped.1 matches Ok(found) && found@ == record,
                step => stepped.1 matches Err(error) && Some(error@) == step_error(self@.eof, step),
            },
            stepped.1 matches Err(error) ==> error is Malformed || (error is Truncated
                && !self@.eof),
    {
        proof {
            use_type_invariant(&self);
        }
        let ghost before = self@;
        let WasmParser { wasm_entry, mut parser, head_position, eof } = self;
        let rest = slice_subrange(wasm_entry.data, head_position, wasm_entry.data.len());
        assert(rest@ == unread(before));
        let step = parser_parse(&mut parser, rest, eof);
        match settle(eof, step) {
            Ok((consumed, payload)) => {
                let id = payload_section_id(&payload);
                let record = record_of(payload_shape(&payload), id);
                (
                    WasmParser { wasm_entry, parser, head_position: head_position + consumed, eof },
                    Ok(record),
                )
            },
            Err(error) => (WasmParser { wasm_entry, parser, head_position, eof }, Err(error)),
        }
    }

    /// Decodes the next record: the parser is handed the bytes that have
    /// not been consumed, and what it gives is returned. After a record the
    /// decoder has gone on by the bytes that the record took; an error
    /// leaves the decoder where it was. Where no more input will come, the
    /// only error is that of malformed bytes.
    pub fn parse(&mut self) -> (outcome: Result<SectionRecord, TranslateError>)
        ensures
            old(self)@.position <= old(self)@.data.len(),
            final(self)@ == after_step(old(self)@),
            final(self)@.position <= old(self)@.data.len(),
            match next_step(old(self)@) {
                StepView::Parsed { record, .. } => outcome matches Ok(found) && found@ == record,
                step => outcome matches Err(error) && Some(error@) == step_error(
                    old(self)@.eof,
                    step,
                ),
            },
            outcome matches Err(error) ==> error is Malformed || (error is Truncated && !old(
                self,
            )@.eof),
    {
        let mut decoder = WasmParser::from(WasmEntry::default());
        std::mem::swap(self, &mut decoder);
        let (decoder, outcome) = decoder.step();
        *self = decoder;
        outcome
    }

    /// Decodes the records of the module up to its end. The record of the
    /// end is left out; every other record is kept, in the order in which
    /// it was met. The first error ends the work.
    pub fn parse_all(&mut self) -> (outcome: Result<ParsedData<SectionRecord>, TranslateError>)
        ensures
            old(self)@.position <= old(self)@.data.len(),
            final(self)@ == run_from(old(self)@).decoder,
            final(self)@.position <= old(self)@.data.len(),
            match run_from(old(self)@).outcome {
                Ok(records) => outcome matches Ok(found) && record_views(found@) == records,
                Err(error) => outcome matches Err(found) && found@ == error,
            },
    {
        let mut records: ParsedData<SectionRecord> = ParsedData::empty();
        proof {
            use_type_invariant(&*self);
            assert(record_views(records@) =~= Seq::<SectionRecordView>::empty());
            lemma_run_behind(Seq::empty(), run_from(self@));
        }
        loop
            invariant
                self@.position <= self@.data.len(),
                self@.data == old(self)@.data,
                run_from(old(self)@) == run_behind(record_views(records@), run_from(self@)),
            decreases self@.data.len() - self@.position,
        {
            let before = self.position();
            let ghost state = self@;
            let ghost kept = record_views(records@);
            let record = match self.parse() {
                Ok(record) => record,
                Err(error) => {
                    return Err(error);
                },
            };
            if let SectionRecord::End = record {
                proof {
                    assert(kept + Seq::<SectionRecordView>::empty() =~= kept);
                }
                return Ok(records);
            }
            if self.position() == before {
                return Err(TranslateError::Stalled { position: before });
            }
            records = records.update(ParsedData::new(record));
            proof {
                assert(record_views(records@) =~= kept.push(record@));
                lemma_run_behind_step(kept, record@, run_from(self@));
            }
        }
    }
}

/// The run `run` behind the records `records`: where the run gives
/// records, they come behind `records`.
pub open spec fn run_behind(records: Seq<SectionRecordView>, run: RunView) -> RunView {
    RunView {
        outcome: match run.outcome {
            Ok(more) => Ok(records + more),
            Err(error) => Err(error),
        },
        decoder: run.decoder,
    }
}

/// A run behind no records is the run.
proof fn lemma_run_behind(records: Seq<SectionRecordView>, run: RunView)
    requires
        records.len() == 0,
    ensures
        run_behind(records, run) == run,
{
    match run.outcome {
        Ok(more) => {
            assert(records + more =~= more);
        },
        Err(_) => {},
    }
}

/// A run behind a record that comes behind others is the run behind all
/// of them.
proof fn lemma_run_behind_step(records: Seq<SectionRecordView>, record: SectionRecordView, run: RunView)
    ensures
        run_behind(records, run_behind(seq![record], run)) == run_behind(records.push(record), run),
{
    match run.outcome {
        Ok(more) => {
            assert(records + (seq![record] + more) =~= records.push(record) + more);
        },
        Err(_) => {},
    }
}

/// The translator of one module: decodes it and interprets what was
/// decoded.
#[derive(Debug)]
pub struct WasmTranslator<'a> {
    decoder: WasmParser<'a>,
}

impl<'a> View for WasmTranslator<'a> {
    type V = DecoderView;

    closed spec fn view(&self) -> DecoderView {
        self.decoder@
    }
}

/// What translating a module gives from where `decoder` stands: the
/// error of the decoding, or what the records of the module translate to.
pub open spec fn module_outcome(decoder: DecoderView) -> Result<UasmView, TranslateErrorView> {
    match run_from(decoder).outcome {
        Ok(records) => translation(records),
        Err(error) => Err(error),
    }
}

/// The text of the program that translating a module gives from where
/// `decoder` stands, or the error of the first stage that fails.
pub open spec fn text_outcome(decoder: DecoderView) -> Result<Seq<char>, TranslateErrorView> {
    match module_outcome(decoder) {
        Ok(program) => if renderable(program) {
            Ok(program_text(program))
        } else {
            Err(render_error(program))
        },
        Err(error) => Err(error),
    }
}

impl<'a> WasmTranslator<'a> {
    /// A translator at the start of the module `wasm_entry`.
    pub fn from(wasm_entry: WasmEntry<'a>) -> (translator: Self)
        ensures
            translator@ == (DecoderView {
                data: wasm_entry.bytes(),
                offset: wasm_entry.start(),
                position: 0,
                eof: true,
                fed: Seq::empty(),
            }),
    {
        WasmTranslator { decoder: WasmParser::from(wasm_entry) }
    }

    /// Decodes the next record; see `WasmParser::parse`.
    pub fn parse(&mut self) -> (outcome: Result<SectionRecord, TranslateError>)
        ensures
            old(self)@.position <= old(self)@.data.len(),
            final(self)@ == after_step(old(self)@),
            final(self)@.position <= old(self)@.data.len(),
            match next_step(old(self)@) {
                StepView::Parsed { record, .. } => outcome matches Ok(found) && found@ == record,
                step => outcome matches Err(error) && Some(error@) == step_error(
                    old(self)@.eof,
                    step,
                ),
            },
            outcome matches Err(error) ==> error is Malformed || (error is Truncated && !old(
                self,
            )@.eof),
    {
        self.decoder.parse()
    }

    /// Decodes the records of the module; see `WasmParser::parse_all`.
    pub fn parse_all(&mut self) -> (outcome: Result<ParsedData<SectionRecord>, TranslateError>)
        ensures
            old(self)@.position <= old(self)@.data.len(),
            final(self)@ == run_from(old(self)@).decoder,
            final(self)@.position <= old(self)@.data.len(),
            match run_from(old(self)@).outcome {
                Ok(records) => outcome matches Ok(found) && record_views(found@) == records,
                Err(error) => outcome matches Err(found) && found@ == error,
            },
    {
        self.decoder.parse_all()
    }

    /// Translates the module into one program: decodes its records and
    /// translates them. An error of the decoder comes before any
    /// interpretation.
    pub fn to_uasm(&mut self) -> (outcome: Result<Uasm, TranslateError>)
        ensures
            final(self)@ == run_from(old(self)@).decoder,
            match module_outcome(old(self)@) {
                Ok(program) => outcome matches Ok(found) && found@ == program,
                Err(error) => outcome matches Err(found) && found@ == error,
            },
    {
        match self.decoder.parse_all() {
            Ok(records) => translate(&records),
            Err(error) => Err(error),
        }
    }

    /// Translates the module into assembly text: decodes its records,
    /// translates them into one program and writes it. A failure of any
    /// stage gives its error and no text.
    pub fn to_text(&mut self) -> (outcome: Result<String, TranslateError>)
        ensures
            final(self)@ == run_from(old(self)@).decoder,
            match text_outcome(old(self)@) {
                Ok(text) => outcome matches Ok(found) && found@ == text,
                Err(error) => outcome matches Err(found) && found@ == error,
            },
    {
        match self.to_uasm() {
            Ok(program) => program.codegen(),
            Err(error) => Err(error),
        }
    }
}

} // verus!
