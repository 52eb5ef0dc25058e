//! The interpreter: what each section record, value type and operator of
//! a module becomes in Udon assembly.

use crate::error::{TranslateError, TranslateErrorView};
use crate::mangle::{
    constant_name, generate_constant_name, generate_variable_name, lemma_mangled_injective, mangled,
    VarInfo, VarRole,
};
use crate::uasm::{
    has_label, BlockView, CodeSectionView, DataView, OpcodeView, Uasm, UasmCode,
    UasmCodeBlock, UasmCodeLabel, UasmCodeSection, UasmData, UasmDataAttribute, UasmDataSection,
    UasmInstruction, UasmOpcode, UasmType, UasmVarName, UasmVariable, UasmView, VariableView,
};
use crate::units::{empty_program, merged, programs, InterpretableAs, ParsedData, Unit, Units};
use crate::wasm::{
    GlobalDecl, GlobalDeclView, GlobalSection, GlobalSectionView, OperatorView, SectionKind,
    SectionRecord, SectionRecordView, WasmOperator, WasmValType,
};
use std::borrow::Cow;
use vstd::prelude::*;
use vstd::string::StringExecFns;

verus! {

/// The Udon type that holds the values of a WebAssembly type, where there
/// is one: the four number types have one, vectors and references none.
pub open spec fn mapped_type(ty: WasmValType) -> Option<UasmType> {
    match ty {
        WasmValType::I32 => Some(UasmType::Int32),
        WasmValType::I64 => Some(UasmType::Int64),
        WasmValType::F32 => Some(UasmType::Single),
        WasmValType::F64 => Some(UasmType::Double),
        WasmValType::V128 => None,
        WasmValType::Ref => None,
    }
}

impl UasmType {
    /// The Udon type for `value`, or the error that says that it has none.
    pub fn try_from(value: WasmValType) -> (mapped: Result<UasmType, TranslateError>)
        ensures
            match mapped_type(value) {
                Some(ty) => mapped == Ok::<UasmType, TranslateError>(ty),
                None => mapped == Err::<UasmType, TranslateError>(
                    TranslateError::UnsupportedType { ty: value },
                ),
            },
    {
        match value {
            WasmValType::I32 => Ok(UasmType::Int32),
            WasmValType::I64 => Ok(UasmType::Int64),
            WasmValType::F32 => Ok(UasmType::Single),
            WasmValType::F64 => Ok(UasmType::Double),
            WasmValType::V128 => Err(TranslateError::UnsupportedType { ty: value }),
            WasmValType::Ref => Err(TranslateError::UnsupportedType { ty: value }),
        }
    }
}

/// The name of the variable of the global at `index`.
pub open spec fn global_name(index: nat) -> Seq<char> {
    mangled(VarRole::Global { global_index: index })
}

/// The instructions that an operator becomes, or the error that says that
/// it has no mapping.
///
/// | operator                 | instructions                         |
/// |--------------------------|--------------------------------------|
/// | `nop`                    | `NOP`                                |
/// | `drop`                   | `POP`                                |
/// | `end`                    | none                                 |
/// | `global.get i`           | `PUSH` of the variable of global `i` |
/// | `i32.const`, `i64.const` | `PUSH` of the constant's variable    |
/// | `f32.const`, `f64.const` | `PUSH` of the constant's variable    |
/// | any other                | unsupported                          |
pub open spec fn operator_instructions(operator: OperatorView) -> Result<
    Seq<OpcodeView>,
    TranslateErrorView,
> {
    match operator {
        OperatorView::Nop => Ok(seq![OpcodeView::Nop]),
        OperatorView::Drop => Ok(seq![OpcodeView::Pop]),
        OperatorView::End => Ok(Seq::empty()),
        OperatorView::GlobalGet { global_index } => Ok(
            seq![OpcodeView::Push(global_name(global_index as nat))],
        ),
        OperatorView::I32Const(bits) => Ok(
            seq![OpcodeView::Push(constant_name(WasmValType::I32, bits as nat))],
        ),
        OperatorView::I64Const(bits) => Ok(
            seq![OpcodeView::Push(constant_name(WasmValType::I64, bits as nat))],
        ),
        OperatorView::F32Const(bits) => Ok(
            seq![OpcodeView::Push(constant_name(WasmValType::F32, bits as nat))],
        ),
        OperatorView::F64Const(bits) => Ok(
            seq![OpcodeView::Push(constant_name(WasmValType::F64, bits as nat))],
        ),
        OperatorView::Other { name } => Err(TranslateErrorView::UnsupportedInstruction { name }),
    }
}

/// The views of instructions.
pub open spec fn instruction_views(instructions: Seq<UasmInstruction>) -> Seq<OpcodeView> {
    instructions.map_values(|instruction: UasmInstruction| instruction@)
}

/// The views of operators.
pub open spec fn operator_views(operators: Seq<WasmOperator>) -> Seq<OperatorView> {
    operators.map_values(|operator: WasmOperator| operator@)
}

/// The one instruction that pushes the variable `name`.
fn push_of(name: String) -> (units: Units<UasmInstruction>)
    ensures
        instruction_views(units@) == seq![OpcodeView::Push(name@)],
{
    let mut units = Units::new();
    units.push(UasmInstruction::new(UasmOpcode::Push(UasmVarName::new(Cow::Owned(name)))));
    assert(instruction_views(units@) =~= seq![OpcodeView::Push(name@)]);
    units
}

/// The one instruction of `opcode`.
fn one_of(opcode: UasmOpcode) -> (units: Units<UasmInstruction>)
    ensures
        instruction_views(units@) == seq![opcode@],
{
    let mut units = Units::new();
    units.push(UasmInstruction::new(opcode));
    assert(instruction_views(units@) =~= seq![opcode@]);
    units
}

impl InterpretableAs<Units<UasmInstruction>> for WasmOperator {
    open spec fn interpretation(
        &self,
        outcome: Result<Units<UasmInstruction>, TranslateError>,
    ) -> bool {
        match operator_instructions(self@) {
            Ok(instructions) => outcome matches Ok(units) && instruction_views(units@)
                == instructions,
            Err(error) => outcome matches Err(found) && found@ == error,
        }
    }

    /// The instructions that this operator becomes.
    fn interpret(&self) -> (outcome: Result<Units<UasmInstruction>, TranslateError>) {
        match self {
            WasmOperator::Nop => Ok(one_of(UasmOpcode::Nop)),
            WasmOperator::Drop => Ok(one_of(UasmOpcode::Pop)),
            WasmOperator::End => {
                let units = Units::new();
                assert(instruction_views(units@) =~= Seq::<OpcodeView>::empty());
                Ok(units)
            },
            WasmOperator::GlobalGet { global_index } => Ok(
                push_of(
                    generate_variable_name(VarInfo::Global { global_index: *global_index as usize }),
                ),
            ),
            WasmOperator::I32Const(bits) => Ok(
                push_of(generate_constant_name(WasmValType::I32, *bits as u64)),
            ),
            WasmOperator::I64Const(bits) => Ok(
                push_of(generate_constant_name(WasmValType::I64, *bits)),
            ),
            WasmOperator::F32Const(bits) => Ok(
                push_of(generate_constant_name(WasmValType::F32, *bits as u64)),
            ),
            WasmOperator::F64Const(bits) => Ok(
                push_of(generate_constant_name(WasmValType::F64, *bits)),
            ),
            WasmOperator::Other { name } => Err(
                TranslateError::UnsupportedInstruction { name: name.clone() },
            ),
        }
    }
}

/// The instructions that the operators of an initializer become, in their
/// order, or the error of the first operator that has no mapping.
pub open spec fn initializer_instructions(operators: Seq<OperatorView>) -> Result<
    Seq<OpcodeView>,
    TranslateErrorView,
>
    decreases operators.len(),
{
    if operators.len() == 0 {
        Ok(Seq::empty())
    } else {
        match initializer_instructions(operators.drop_last()) {
            Err(error) => Err(error),
            Ok(before) => match operator_instructions(operators.last()) {
                Err(error) => Err(error),
                Ok(instructions) => Ok(before + instructions),
            },
        }
    }
}

/// Interprets the operators of an initializer into one code block.
pub fn interpret_initializer(operators: &Vec<WasmOperator>) -> (outcome: Result<
    UasmCodeBlock,
    TranslateError,
>)
    ensures
        match initializer_instructions(operator_views(operators@)) {
            Ok(instructions) => outcome matches Ok(block) && block@ == instructions,
            Err(error) => outcome matches Err(found) && found@ == error,
        },
{
    let ghost views = operator_views(operators@);
    let mut all: Units<UasmInstruction> = Units::new();
    let mut i: usize = 0;
    assert(views.take(0) =~= Seq::<OperatorView>::empty());
    assert(instruction_views(all@) =~= Seq::<OpcodeView>::empty());
    while i < operators.len()
        invariant
            i <= operators@.len(),
            views == operator_views(operators@),
            initializer_instructions(views.take(i as int)) == Ok::<
                Seq<OpcodeView>,
                TranslateErrorView,
            >(instruction_views(all@)),
        ensures
            i == operators@.len(),
        decreases operators@.len() - i,
    {
        proof {
            let next = views.take(i + 1);
            assert(next.drop_last() =~= views.take(i as int));
            assert(next.last() == operators@[i as int]@);
        }
        match operators[i].interpret() {
            Ok(units) => {
                let ghost before = all@;
                let mut units = units;
                let ghost added = units@;
                all.0.append(&mut units.0);
                assert(instruction_views(all@) =~= instruction_views(before) + instruction_views(
                    added,
                ));
            },
            Err(error) => {
                proof {
                    lemma_initializer_fails(views, i as int);
                }
                return Err(error);
            },
        }
        i += 1;
    }
    assert(views.take(i as int) =~= views);
    Ok(UasmCodeBlock::from(all))
}

/// An initializer whose first operators fail fails with the same error as
/// a whole.
pub proof fn lemma_initializer_fails(operators: Seq<OperatorView>, count: int)
    requires
        0 <= count < operators.len(),
        initializer_instructions(operators.take(count + 1)) is Err,
    ensures
        initializer_instructions(operators) == initializer_instructions(
            operators.take(count + 1),
        ),
    decreases operators.len(),
{
    if count + 1 == operators.len() {
        assert(operators.take(count + 1) =~= operators);
    } else {
        let front = operators.drop_last();
        assert(front.take(count + 1) =~= operators.take(count + 1));
        lemma_initializer_fails(front, count);
    }
}

/// The label of the block that initializes the variable `name`.
pub open spec fn init_label(name: Seq<char>) -> Seq<char> {
    "__INIT_"@ + name
}

/// What the global at `index` becomes: its declaration and the block that
/// initializes it. A global fails if it could not be read, if an operator
/// of its initializer has no mapping, or if its type has none; the errors
/// are looked for in this order.
pub open spec fn entry_outcome(index: nat, entry: GlobalDeclView) -> Result<
    (DataView, BlockView),
    TranslateErrorView,
> {
    match entry.failure {
        Some(failure) => Err(
            TranslateErrorView::MalformedEntry {
                index: index as usize,
                offset: failure.offset,
                message: failure.message,
            },
        ),
        None => match initializer_instructions(entry.init) {
            Err(error) => Err(error),
            Ok(instructions) => match mapped_type(entry.content_type) {
                None => Err(TranslateErrorView::UnsupportedType { ty: entry.content_type }),
                Some(ty) => Ok(
                    (
                        DataView {
                            attribute: UasmDataAttribute::NoAttribute,
                            variable: VariableView { name: global_name(index), ty },
                        },
                        BlockView { label: init_label(global_name(index)), instructions },
                    ),
                ),
            },
        },
    }
}

/// What the globals of a section become: one declaration and one block
/// for each, in the order of the globals; or the error of the first global
/// that fails.
pub open spec fn globals_outcome(entries: Seq<GlobalDeclView>) -> Result<
    (Seq<DataView>, Seq<BlockView>),
    TranslateErrorView,
>
    decreases entries.len(),
{
    if entries.len() == 0 {
        Ok((Seq::empty(), Seq::empty()))
    } else {
        match globals_outcome(entries.drop_last()) {
            Err(error) => Err(error),
            Ok((declarations, blocks)) => match entry_outcome(
                (entries.len() - 1) as nat,
                entries.last(),
            ) {
                Err(error) => Err(error),
                Ok((declaration, block)) => Ok((declarations.push(declaration), blocks.push(block))),
            },
        }
    }
}

/// What a global section becomes: a program with the declarations of the
/// globals as its data section and their initializers as its code section,
/// which is not exported. A section that could not be read to its end
/// fails at the entry that could not be read, unless an entry before it
/// fails.
pub open spec fn section_outcome(section: GlobalSectionView) -> Result<
    UasmView,
    TranslateErrorView,
> {
    match globals_outcome(section.entries) {
        Err(error) => Err(error),
        Ok((declarations, blocks)) => match section.failure {
            Some(failure) => Err(
                TranslateErrorView::MalformedEntry {
                    index: section.entries.len() as usize,
                    offset: failure.offset,
                    message: failure.message,
                },
            ),
            None => Ok(
                UasmView {
                    data_section: Some(declarations),
                    code_section: Some(CodeSectionView::NoExport(blocks)),
                },
            ),
        },
    }
}

/// Where the globals of a section succeed, there is exactly one
/// declaration and one block for each global, at the global's index: the
/// declaration has the global's name, no attribute and the Udon type of
/// the global's type, and the block stands under the label
/// `__INIT_<name>` and holds the instructions of the global's initializer.
/// No two of the labels are the same.
pub proof fn lemma_globals_shape(entries: Seq<GlobalDeclView>)
    requires
        globals_outcome(entries) is Ok,
    ensures
        ({
            let (declarations, blocks) = globals_outcome(entries)->Ok_0;
            &&& declarations.len() == entries.len()
            &&& blocks.len() == entries.len()
            &&& forall|i: int|
                0 <= i < entries.len() ==> #[trigger] declarations[i] == (DataView {
                    attribute: UasmDataAttribute::NoAttribute,
                    variable: VariableView {
                        name: global_name(i as nat),
                        ty: mapped_type(entries[i].content_type)->0,
                    },
                })
            &&& forall|i: int|
                0 <= i < entries.len() ==> mapped_type(#[trigger] entries[i].content_type) is Some
            &&& forall|i: int|
                0 <= i < entries.len() ==> #[trigger] blocks[i] == (BlockView {
                    label: init_label(global_name(i as nat)),
                    instructions: initializer_instructions(entries[i].init)->Ok_0,
                })
            &&& forall|i: int|
                0 <= i < entries.len() ==> initializer_instructions(
                    #[trigger] entries[i].init,
                ) is Ok
            &&& forall|i: int, j: int|
                0 <= i < j < entries.len() ==> (#[trigger] blocks[i]).label != (
                #[trigger] blocks[j]).label
        }),
    decreases entries.len(),
{
    if entries.len() > 0 {
        let front = entries.drop_last();
        lemma_globals_shape(front);
        let (declarations, blocks) = globals_outcome(entries)->Ok_0;
        assert forall|i: int, j: int| 0 <= i < j < entries.len() implies (#[trigger] blocks[i]).label
            != (#[trigger] blocks[j]).label by {
            lemma_init_labels_differ(i as nat, j as nat);
        }
        assert forall|i: int| 0 <= i < entries.len() implies mapped_type(
            #[trigger] entries[i].content_type,
        ) is Some by {
            if i < front.len() {
                assert(front[i] == entries[i]);
            }
        }
        assert forall|i: int| 0 <= i < entries.len() implies initializer_instructions(
            #[trigger] entries[i].init,
        ) is Ok by {
            if i < front.len() {
                assert(front[i] == entries[i]);
            }
        }
        assert forall|i: int| 0 <= i < entries.len() implies #[trigger] blocks[i] == (BlockView {
            label: init_label(global_name(i as nat)),
            instructions: initializer_instructions(entries[i].init)->Ok_0,
        }) by {
            if i < front.len() {
                assert(front[i] == entries[i]);
            }
        }
        assert forall|i: int| 0 <= i < entries.len() implies #[trigger] declarations[i] == (DataView {
            attribute: UasmDataAttribute::NoAttribute,
            variable: VariableView {
                name: global_name(i as nat),
                ty: mapped_type(entries[i].content_type)->0,
            },
        }) by {
            if i < front.len() {
                assert(front[i] == entries[i]);
            }
        }
    }
}

/// The blocks that initialize two different globals have different
/// labels.
pub proof fn lemma_init_labels_differ(i: nat, j: nat)
    requires
        i != j,
    ensures
        init_label(global_name(i)) != init_label(global_name(j)),
{
    let a = init_label(global_name(i));
    let b = init_label(global_name(j));
    let prefix = "__INIT_"@;
    if a == b {
        assert(a.subrange(prefix.len() as int, a.len() as int) =~= global_name(i));
        assert(b.subrange(prefix.len() as int, b.len() as int) =~= global_name(j));
        lemma_mangled_injective(
            VarRole::Global { global_index: i },
            VarRole::Global { global_index: j },
        );
    }
}

/// The views of global declarations.
pub open spec fn entry_views(entries: Seq<GlobalDecl>) -> Seq<GlobalDeclView> {
    entries.map_values(|entry: GlobalDecl| entry@)
}

/// The globals of a section fail as a whole with the error of the first
/// global that fails.
pub proof fn lemma_globals_fail(entries: Seq<GlobalDeclView>, count: int)
    requires
        0 <= count < entries.len(),
        globals_outcome(entries.take(count + 1)) is Err,
    ensures
        globals_outcome(entries) == globals_outcome(entries.take(count + 1)),
    decreases entries.len(),
{
    if count + 1 == entries.len() {
        assert(entries.take(count + 1) =~= entries);
    } else {
        let front = entries.drop_last();
        assert(front.take(count + 1) =~= entries.take(count + 1));
        lemma_globals_fail(front, count);
    }
}

/// Interprets a global section: each global, in the order of the section
/// and under its index, becomes a declaration of the data section and a
/// block of the code section.
pub fn interpret_global_section(section: &GlobalSection) -> (outcome: Result<
    Unit<Uasm>,
    TranslateError,
>)
    ensures
        match section_outcome(section@) {
            Ok(program) => outcome matches Ok(unit) && unit is GlobalUnit && unit.data()@
                == program,
            Err(error) => outcome matches Err(found) && found@ == error,
        },
{
    let ghost entries = section@.entries;
    let mut data_section = UasmDataSection::new();
    let mut code = UasmCode::new();
    let mut index: usize = 0;
    assert(entries.take(0) =~= Seq::<GlobalDeclView>::empty());
    while index < section.entries.len()
        invariant
            index <= section.entries@.len(),
            entries == section@.entries,
            entries.len() == section.entries@.len(),
            globals_outcome(entries.take(index as int)) == Ok::<
                (Seq<DataView>, Seq<BlockView>),
                TranslateErrorView,
            >((data_section@, code@)),
        decreases section.entries@.len() - index,
    {
        let entry = &section.entries[index];
        proof {
            let next = entries.take(index + 1);
            assert(next.drop_last() =~= entries.take(index as int));
            assert(next.last() == entry@);
            lemma_globals_shape(entries.take(index as int));
            if globals_outcome(next) is Err {
                lemma_globals_fail(entries, index as int);
            }
        }
        if let Some(failure) = &entry.failure {
            return Err(
                TranslateError::MalformedEntry {
                    index,
                    offset: failure.offset,
                    message: failure.message.clone(),
                },
            );
        }
        let name = generate_variable_name(VarInfo::Global { global_index: index });
        let block = match interpret_initializer(&entry.init) {
            Ok(block) => block,
            Err(error) => {
                return Err(error);
            },
        };
        let mut label = String::from_str("__INIT_");
        label.append(name.as_str());
        proof {
            let blocks = code@;
            if has_label(blocks, label@) {
                let k = choose|k: int| 0 <= k < blocks.len() && (#[trigger] blocks[k]).label == label@;
                lemma_init_labels_differ(k as nat, index as nat);
            }
        }
        code.set_block_with_label(UasmCodeLabel::new(Cow::Owned(label)), block);
        let ty = match UasmType::try_from(entry.content_type) {
            Ok(ty) => ty,
            Err(error) => {
                return Err(error);
            },
        };
        data_section.push_data(
            UasmData {
                attribute: UasmDataAttribute::NoAttribute,
                variable: UasmVariable::new(UasmVarName::new(Cow::Owned(name)), ty),
            },
        );
        index += 1;
    }
    assert(entries.take(index as int) =~= entries);
    if let Some(failure) = &section.failure {
        return Err(
            TranslateError::MalformedEntry {
                index,
                offset: failure.offset,
                message: failure.message.clone(),
            },
        );
    }
    Ok(
        Unit::GlobalUnit {
            data: Uasm::new(Some(data_section), Some(UasmCodeSection::NoExport(code))),
        },
    )
}

/// A unit as a mathematical value.
pub struct UnitView {
    pub global: bool,
    pub program: UasmView,
}

/// The view of a unit that carries a program.
pub open spec fn unit_view(unit: Unit<Uasm>) -> UnitView {
    UnitView { global: unit is GlobalUnit, program: unit.data()@ }
}

/// What a section record becomes: the header of a module becomes a unit
/// with an empty program, a global section a global unit with the program
/// of its globals, and a record of any other kind is unsupported.
pub open spec fn record_outcome(record: SectionRecordView) -> Result<UnitView, TranslateErrorView> {
    match record {
        SectionRecordView::Header => Ok(UnitView { global: false, program: empty_program() }),
        SectionRecordView::Global(section) => match section_outcome(section) {
            Ok(program) => Ok(UnitView { global: true, program }),
            Err(error) => Err(error),
        },
        SectionRecordView::Other { id } => Err(
            TranslateErrorView::UnsupportedSection { kind: SectionKind::Other(id) },
        ),
        SectionRecordView::Fragment => Err(
            TranslateErrorView::UnsupportedSection { kind: SectionKind::Fragment },
        ),
        SectionRecordView::End => Err(
            TranslateErrorView::UnsupportedSection { kind: SectionKind::End },
        ),
    }
}

impl InterpretableAs<Unit<Uasm>> for SectionRecord {
    open spec fn interpretation(&self, outcome: Result<Unit<Uasm>, TranslateError>) -> bool {
        match record_outcome(self@) {
            Ok(unit) => outcome matches Ok(found) && unit_view(found) == unit,
            Err(error) => outcome matches Err(found) && found@ == error,
        }
    }

    /// The unit that this record becomes.
    fn interpret(&self) -> (outcome: Result<Unit<Uasm>, TranslateError>) {
        match self {
            SectionRecord::Header => Ok(Unit::OtherUnit { data: Uasm::default() }),
            SectionRecord::Global(section) => interpret_global_section(section),
            SectionRecord::Other { id } => Err(
                TranslateError::UnsupportedSection { kind: SectionKind::Other(*id) },
            ),
            SectionRecord::Fragment => Err(
                TranslateError::UnsupportedSection { kind: SectionKind::Fragment },
            ),
            SectionRecord::End => Err(
                TranslateError::UnsupportedSection { kind: SectionKind::End },
            ),
        }
    }
}

/// The views of section records.
pub open spec fn record_views(records: Seq<SectionRecord>) -> Seq<SectionRecordView> {
    records.map_values(|record: SectionRecord| record@)
}

/// The programs that the records of a module become, in their order, or
/// the error of the first record that fails.
pub open spec fn outcomes(records: Seq<SectionRecordView>) -> Result<
    Seq<UasmView>,
    TranslateErrorView,
>
    decreases records.len(),
{
    if records.len() == 0 {
        Ok(Seq::empty())
    } else {
        match outcomes(records.drop_last()) {
            Err(error) => Err(error),
            Ok(before) => match record_outcome(records.last()) {
                Err(error) => Err(error),
                Ok(unit) => Ok(before.push(unit.program)),
            },
        }
    }
}

/// The program that the records of a module become: what their units
/// merge to, or the error of the first record that fails.
pub open spec fn translation(records: Seq<SectionRecordView>) -> Result<
    UasmView,
    TranslateErrorView,
> {
    match outcomes(records) {
        Ok(units) => Ok(merged(units)),
        Err(error) => Err(error),
    }
}

/// Records that all succeed become the programs of their units.
proof fn lemma_outcomes_succeed(records: Seq<SectionRecordView>)
    requires
        forall|i: int| 0 <= i < records.len() ==> record_outcome(#[trigger] records[i]) is Ok,
    ensures
        outcomes(records) == Ok::<Seq<UasmView>, TranslateErrorView>(
            Seq::new(records.len(), |i: int| record_outcome(records[i])->Ok_0.program),
        ),
    decreases records.len(),
{
    if records.len() > 0 {
        let front = records.drop_last();
        assert forall|i: int| 0 <= i < front.len() implies record_outcome(#[trigger] front[i]) is Ok by {
            assert(front[i] == records[i]);
        }
        lemma_outcomes_succeed(front);
        assert(record_outcome(records.last()) is Ok);
        assert(outcomes(records)->Ok_0 =~= Seq::new(
            records.len(),
            |i: int| record_outcome(records[i])->Ok_0.program,
        ));
    } else {
        assert(outcomes(records)->Ok_0 =~= Seq::new(
            records.len(),
            |i: int| record_outcome(records[i])->Ok_0.program,
        ));
    }
}

/// Records of which the one at `first` fails, and none before it, fail
/// with its error.
proof fn lemma_outcomes_fail(records: Seq<SectionRecordView>, first: int)
    requires
        0 <= first < records.len(),
        record_outcome(records[first]) is Err,
        forall|j: int| 0 <= j < first ==> record_outcome(#[trigger] records[j]) is Ok,
    ensures
        outcomes(records) == Err::<Seq<UasmView>, TranslateErrorView>(
            record_outcome(records[first])->Err_0,
        ),
    decreases records.len(),
{
    let front = records.drop_last();
    if first + 1 == records.len() {
        assert forall|i: int| 0 <= i < front.len() implies record_outcome(#[trigger] front[i]) is Ok by {
            assert(front[i] == records[i]);
        }
        lemma_outcomes_succeed(front);
    } else {
        assert(front[first] == records[first]);
        assert forall|j: int| 0 <= j < first implies record_outcome(#[trigger] front[j]) is Ok by {
            assert(front[j] == records[j]);
        }
        lemma_outcomes_fail(front, first);
    }
}

/// Translates the records of a module into one program: interprets each
/// record in its order and merges the units. The first record that fails
/// ends the work.
pub fn translate(records: &ParsedData<SectionRecord>) -> (outcome: Result<Uasm, TranslateError>)
    ensures
        match translation(record_views(records@)) {
            Ok(program) => outcome matches Ok(found) && found@ == program,
            Err(error) => outcome matches Err(found) && found@ == error,
        },
{
    let ghost views = record_views(records@);
    match records.interpret_all::<Unit<Uasm>>() {
        Ok(units) => {
            proof {
                assert forall|i: int| 0 <= i < views.len() implies record_outcome(
                    #[trigger] views[i],
                ) is Ok by {
                    assert(records@[i].interpretation(Ok(units@[i])));
                }
                lemma_outcomes_succeed(views);
                assert(programs(units@) =~= outcomes(views)->Ok_0) by {
                    assert forall|i: int| 0 <= i < views.len() implies programs(units@)[i]
                        == record_outcome(views[i])->Ok_0.program by {
                        assert(records@[i].interpretation(Ok(units@[i])));
                    }
                }
            }
            Ok(units.into())
        },
        Err(error) => {
            proof {
                let first = choose|i: int|
                    {
                        &&& 0 <= i < records@.len()
                        &&& (#[trigger] records@[i]).interpretation(Err(error))
                        &&& forall|j: int|
                            0 <= j < i ==> crate::units::succeeds::<SectionRecord, Unit<Uasm>>(
                                #[trigger] records@[j],
                            )
                    };
                assert forall|j: int| 0 <= j < first implies record_outcome(
                    #[trigger] views[j],
                ) is Ok by {
                    assert(crate::units::succeeds::<SectionRecord, Unit<Uasm>>(records@[j]));
                }
                assert(views[first] == records@[first]@);
                lemma_outcomes_fail(views, first);
            }
            Err(error)
        },
    }
}

/// The module of a header and one global section becomes the program of
/// its globals: a data section with exactly one declaration for each
/// global, in the order of the globals, and a code section with exactly one
/// block for each global, under the label `__INIT_<name>`.
pub proof fn lemma_globals_only(section: GlobalSectionView)
    requires
        section_outcome(section) is Ok,
    ensures
        translation(seq![SectionRecordView::Header, SectionRecordView::Global(section)])
            == section_outcome(section),
        ({
            let program = section_outcome(section)->Ok_0;
            &&& program.data_section matches Some(declarations)
            &&& program.code_section matches Some(CodeSectionView::NoExport(blocks))
            &&& declarations.len() == section.entries.len()
            &&& blocks.len() == section.entries.len()
            &&& forall|i: int|
                0 <= i < section.entries.len() ==> (#[trigger] declarations[i]).variable.name
                    == global_name(i as nat)
            &&& forall|i: int|
                0 <= i < section.entries.len() ==> (#[trigger] blocks[i]).label == init_label(
                    global_name(i as nat),
                )
        }),
{
    let records = seq![SectionRecordView::Header, SectionRecordView::Global(section)];
    lemma_globals_shape(section.entries);
    assert forall|i: int| 0 <= i < records.len() implies record_outcome(#[trigger] records[i]) is Ok by {
    }
    lemma_outcomes_succeed(records);
    let units = outcomes(records)->Ok_0;
    assert(units =~= seq![empty_program(), section_outcome(section)->Ok_0]);
    assert(units.drop_last() =~= seq![empty_program()]);
    assert(units.drop_last().drop_last() =~= Seq::<UasmView>::empty());
    assert(merged(units.drop_last().drop_last()) == empty_program());
    assert(merged(units.drop_last()) == empty_program());
}

} // verus!
