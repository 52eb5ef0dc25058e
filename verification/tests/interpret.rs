use wasm2uasm::error::{ErrorKind, TranslateError};
use wasm2uasm::interpret::{interpret_global_section, interpret_initializer, translate};
use wasm2uasm::uasm::{Uasm, UasmCodeSection, UasmInstruction, UasmType};
use wasm2uasm::units::{InterpretableAs, ParsedData, Unit, Units};
use wasm2uasm::wasm::{
    GlobalDecl, GlobalSection, ReadFailure, SectionKind, SectionRecord, WasmOperator, WasmValType,
};

fn global(content_type: WasmValType, init: Vec<WasmOperator>) -> GlobalDecl {
    GlobalDecl { content_type, init, failure: None }
}

fn section(entries: Vec<GlobalDecl>) -> GlobalSection {
    GlobalSection { entries, failure: None }
}

fn texts(units: &Units<UasmInstruction>) -> Vec<String> {
    units.0.iter().map(|instruction| instruction.to_string()).collect()
}

fn instructions_of(operator: WasmOperator) -> Vec<String> {
    let units: Units<UasmInstruction> = operator.interpret().unwrap();
    texts(&units)
}

fn program_of(unit: Unit<Uasm>) -> Uasm {
    unit.into_data()
}

fn records_of_list(records: Vec<SectionRecord>) -> ParsedData<SectionRecord> {
    let mut parsed = ParsedData::empty();
    for record in records {
        parsed = parsed.update(ParsedData::new(record));
    }
    parsed
}

#[test]
fn number_types_map_to_udon_types() {
    assert_eq!(UasmType::try_from(WasmValType::I32).unwrap(), UasmType::Int32);
    assert_eq!(UasmType::try_from(WasmValType::I64).unwrap(), UasmType::Int64);
    assert_eq!(UasmType::try_from(WasmValType::F32).unwrap(), UasmType::Single);
    assert_eq!(UasmType::try_from(WasmValType::F64).unwrap(), UasmType::Double);
    assert_eq!(UasmType::try_from(WasmValType::I32).unwrap().to_string(), "%SystemInt32");
    assert_eq!(UasmType::try_from(WasmValType::I64).unwrap().to_string(), "%SystemInt64");
    assert_eq!(UasmType::try_from(WasmValType::F32).unwrap().to_string(), "%SystemSingle");
    assert_eq!(UasmType::try_from(WasmValType::F64).unwrap().to_string(), "$SystemDouble");
}

#[test]
fn vector_and_reference_types_are_unsupported() {
    let error = UasmType::try_from(WasmValType::V128).unwrap_err();
    assert!(matches!(error, TranslateError::UnsupportedType { ty: WasmValType::V128 }));
    assert_eq!(error.kind(), ErrorKind::UnsupportedType);
    assert_eq!(error.to_string(), "Unsupported type: V128");
    let error = UasmType::try_from(WasmValType::Ref).unwrap_err();
    assert!(matches!(error, TranslateError::UnsupportedType { ty: WasmValType::Ref }));
    assert_eq!(error.to_string(), "Unsupported type: Ref");
}

#[test]
fn operators_with_a_mapping() {
    assert_eq!(instructions_of(WasmOperator::Nop), vec!["NOP"]);
    assert_eq!(instructions_of(WasmOperator::Drop), vec!["POP"]);
    assert_eq!(instructions_of(WasmOperator::End), Vec::<String>::new());
    assert_eq!(instructions_of(WasmOperator::GlobalGet { global_index: 3 }), vec!["PUSH,__G__3"]);
    assert_eq!(instructions_of(WasmOperator::I32Const(42)), vec!["PUSH,__C_I32_42"]);
    assert_eq!(instructions_of(WasmOperator::I64Const(7)), vec!["PUSH,__C_I64_7"]);
    assert_eq!(instructions_of(WasmOperator::F32Const(0)), vec!["PUSH,__C_F32_0"]);
    assert_eq!(
        instructions_of(WasmOperator::F64Const(4607182418800017408)),
        vec!["PUSH,__C_F64_4607182418800017408"]
    );
}

#[test]
fn an_operator_without_a_mapping_is_an_error() {
    let outcome: Result<Units<UasmInstruction>, TranslateError> =
        WasmOperator::Other { name: "I32Add".to_string() }.interpret();
    let error = outcome.unwrap_err();
    assert!(matches!(&error, TranslateError::UnsupportedInstruction { name } if name == "I32Add"));
    assert_eq!(error.kind(), ErrorKind::UnsupportedInstruction);
    assert_eq!(error.to_string(), "Unsupported instruction: I32Add");
}

#[test]
fn initializer_becomes_one_block_in_operator_order() {
    let block = interpret_initializer(&vec![
        WasmOperator::GlobalGet { global_index: 0 },
        WasmOperator::Nop,
        WasmOperator::Drop,
        WasmOperator::I32Const(1),
        WasmOperator::End,
    ])
    .unwrap();
    assert_eq!(block.to_string(), "\n                            PUSH,__G__0\n                            NOP\n                            POP\n                            PUSH,__C_I32_1");
    assert_eq!(interpret_initializer(&vec![]).unwrap().to_string(), "");
}

#[test]
fn initializer_fails_at_the_first_operator_without_a_mapping() {
    let error = interpret_initializer(&vec![
        WasmOperator::Nop,
        WasmOperator::Other { name: "first".to_string() },
        WasmOperator::Other { name: "second".to_string() },
    ])
    .unwrap_err();
    assert!(matches!(&error, TranslateError::UnsupportedInstruction { name } if name == "first"));
}

#[test]
fn global_section_gives_one_declaration_and_one_block_for_each_global() {
    let unit = interpret_global_section(&section(vec![
        global(WasmValType::I32, vec![WasmOperator::I32Const(42), WasmOperator::End]),
        global(WasmValType::F64, vec![WasmOperator::GlobalGet { global_index: 0 }, WasmOperator::End]),
        global(WasmValType::I64, vec![WasmOperator::End]),
    ]))
    .unwrap();
    assert!(matches!(unit, Unit::GlobalUnit { .. }));
    let program = program_of(unit);
    let data = program.data_section.as_ref().unwrap().get_data();
    assert_eq!(data.len(), 3);
    let declared: Vec<String> = data.iter().map(|data| data.to_string()).collect();
    assert_eq!(
        declared,
        vec!["__G__0: %SystemInt32", "__G__1: $SystemDouble", "__G__2: %SystemInt64"]
    );
    let code = match program.code_section.as_ref().unwrap() {
        UasmCodeSection::NoExport(code) => code,
        UasmCodeSection::Export(_) => panic!("the initializers are not exported"),
    };
    assert_eq!(code.len(), 3);
    assert_eq!(code.label_at(0).to_string(), "__INIT___G__0");
    assert_eq!(code.label_at(1).to_string(), "__INIT___G__1");
    assert_eq!(code.label_at(2).to_string(), "__INIT___G__2");
    assert_eq!(code.block_at(0).to_string(), "\n                            PUSH,__C_I32_42");
    assert_eq!(code.block_at(1).to_string(), "\n                            PUSH,__G__0");
    assert_eq!(code.block_at(2).to_string(), "");
}

#[test]
fn empty_global_section_gives_empty_sections() {
    let program = program_of(interpret_global_section(&section(vec![])).unwrap());
    assert_eq!(program.data_section.as_ref().unwrap().get_data().len(), 0);
    assert_eq!(program.code_section.as_ref().unwrap().code().len(), 0);
}

#[test]
fn global_of_an_unsupported_type_fails_the_section() {
    let error = interpret_global_section(&section(vec![
        global(WasmValType::I32, vec![WasmOperator::End]),
        global(WasmValType::V128, vec![WasmOperator::End]),
    ]))
    .unwrap_err();
    assert!(matches!(error, TranslateError::UnsupportedType { ty: WasmValType::V128 }));
}

#[test]
fn operator_errors_come_before_type_errors() {
    let error = interpret_global_section(&section(vec![global(
        WasmValType::Ref,
        vec![WasmOperator::Other { name: "RefNull".to_string() }, WasmOperator::End],
    )]))
    .unwrap_err();
    assert!(matches!(&error, TranslateError::UnsupportedInstruction { name } if name == "RefNull"));
}

#[test]
fn malformed_entry_is_reported_with_its_index() {
    let mut broken = section(vec![
        global(WasmValType::I32, vec![WasmOperator::End]),
        global(WasmValType::I32, vec![WasmOperator::End]),
    ]);
    broken.failure = Some(ReadFailure { offset: 26, message: "unexpected end-of-file".to_string() });
    let error = interpret_global_section(&broken).unwrap_err();
    assert!(matches!(&error, TranslateError::MalformedEntry { index: 2, offset: 26, .. }));
    assert_eq!(error.kind(), ErrorKind::Decode);
    assert_eq!(
        error.to_string(),
        "Failed to parse global section: entry 2: unexpected end-of-file (at offset 0x1a)"
    );
}

#[test]
fn malformed_initializer_is_reported_with_the_index_of_its_global() {
    let mut entry = global(WasmValType::I32, vec![WasmOperator::Other { name: "x".to_string() }]);
    entry.failure = Some(ReadFailure { offset: 3, message: "bad".to_string() });
    let error = interpret_global_section(&section(vec![
        global(WasmValType::I32, vec![WasmOperator::End]),
        entry,
    ]))
    .unwrap_err();
    assert!(matches!(&error, TranslateError::MalformedEntry { index: 1, offset: 3, .. }));
}

#[test]
fn an_entry_that_fails_comes_before_the_failure_of_the_section() {
    let mut broken = section(vec![global(WasmValType::V128, vec![WasmOperator::End])]);
    broken.failure = Some(ReadFailure { offset: 0, message: "late".to_string() });
    let error = interpret_global_section(&broken).unwrap_err();
    assert!(matches!(error, TranslateError::UnsupportedType { ty: WasmValType::V128 }));
}

#[test]
fn header_record_gives_an_empty_unit() {
    let unit: Unit<Uasm> = SectionRecord::Header.interpret().unwrap();
    assert!(matches!(unit, Unit::OtherUnit { .. }));
    let program = program_of(unit);
    assert!(program.data_section.is_none());
    assert!(program.code_section.is_none());
}

#[test]
fn records_of_other_kinds_are_unsupported() {
    let outcome: Result<Unit<Uasm>, TranslateError> = SectionRecord::Other { id: 4 }.interpret();
    let error = outcome.unwrap_err();
    assert!(matches!(error, TranslateError::UnsupportedSection { kind: SectionKind::Other(4) }));
    assert_eq!(error.kind(), ErrorKind::UnsupportedSection);
    assert_eq!(error.to_string(), "Unsupported section: section 4");
    let outcome: Result<Unit<Uasm>, TranslateError> = SectionRecord::Fragment.interpret();
    let error = outcome.unwrap_err();
    assert!(matches!(error, TranslateError::UnsupportedSection { kind: SectionKind::Fragment }));
    assert_eq!(error.to_string(), "Unsupported section: section fragment");
    let outcome: Result<Unit<Uasm>, TranslateError> = SectionRecord::End.interpret();
    let error = outcome.unwrap_err();
    assert!(matches!(error, TranslateError::UnsupportedSection { kind: SectionKind::End }));
    assert_eq!(error.to_string(), "Unsupported section: end");
}

#[test]
fn record_kinds() {
    assert_eq!(SectionRecord::Header.kind(), SectionKind::Header);
    assert_eq!(SectionRecord::Global(section(vec![])).kind(), SectionKind::Global);
    assert_eq!(SectionRecord::Other { id: 9 }.kind(), SectionKind::Other(9));
    assert_eq!(SectionRecord::Fragment.kind(), SectionKind::Fragment);
    assert_eq!(SectionRecord::End.kind(), SectionKind::End);
    assert_eq!(SectionKind::Header.to_string(), "header");
    assert_eq!(SectionKind::Global.to_string(), "global section");
    assert_eq!(SectionKind::Other(255).to_string(), "section 255");
}

#[test]
fn interpret_all_collects_in_order_and_stops_at_the_first_error() {
    let records = records_of_list(vec![
        SectionRecord::Header,
        SectionRecord::Global(section(vec![global(WasmValType::I32, vec![WasmOperator::End])])),
    ]);
    let units: Units<Unit<Uasm>> = records.interpret_all().unwrap();
    assert_eq!(units.len(), 2);
    assert!(matches!(units.get(0), Unit::OtherUnit { .. }));
    assert!(matches!(units.get(1), Unit::GlobalUnit { .. }));
    let records = records_of_list(vec![
        SectionRecord::Header,
        SectionRecord::Other { id: 1 },
        SectionRecord::Other { id: 2 },
    ]);
    let outcome: Result<Units<Unit<Uasm>>, TranslateError> = records.interpret_all();
    assert!(matches!(
        outcome.unwrap_err(),
        TranslateError::UnsupportedSection { kind: SectionKind::Other(1) }
    ));
    let operators = records_of_list_of_operators();
    let outcome: Result<Units<Units<UasmInstruction>>, TranslateError> = operators.interpret_all();
    let units = outcome.unwrap();
    assert_eq!(units.len(), 2);
    assert_eq!(texts(units.get(0)), vec!["NOP"]);
    assert_eq!(texts(units.get(1)), Vec::<String>::new());
}

fn records_of_list_of_operators() -> ParsedData<WasmOperator> {
    ParsedData::new(WasmOperator::Nop).update(ParsedData::new(WasmOperator::End))
}

#[test]
fn translate_merges_the_units_of_the_records() {
    let records = records_of_list(vec![
        SectionRecord::Header,
        SectionRecord::Global(section(vec![
            global(WasmValType::I32, vec![WasmOperator::I32Const(1), WasmOperator::End]),
            global(WasmValType::I64, vec![WasmOperator::I64Const(2), WasmOperator::End]),
        ])),
    ]);
    let program = translate(&records).unwrap();
    let data = program.data_section.as_ref().unwrap().get_data();
    assert_eq!(data.len(), 2);
    assert_eq!(data[0].to_string(), "__G__0: %SystemInt32");
    assert_eq!(data[1].to_string(), "__G__1: %SystemInt64");
    let code = program.code_section.as_ref().unwrap().code();
    assert_eq!(code.len(), 2);
    assert_eq!(code.label_at(1).to_string(), "__INIT___G__1");
    assert_eq!(code.block_at(1).to_string(), "\n                            PUSH,__C_I64_2");
    let empty = translate(&ParsedData::empty()).unwrap();
    assert!(empty.data_section.is_none() && empty.code_section.is_none());
}

#[test]
fn translate_fails_with_the_error_of_the_first_record_that_fails() {
    let records = records_of_list(vec![
        SectionRecord::Header,
        SectionRecord::Global(section(vec![global(WasmValType::Ref, vec![WasmOperator::End])])),
        SectionRecord::Other { id: 7 },
    ]);
    let error = translate(&records).unwrap_err();
    assert!(matches!(error, TranslateError::UnsupportedType { ty: WasmValType::Ref }));
}
