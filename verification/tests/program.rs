use std::borrow::Cow;
use wasm2uasm::error::{ErrorKind, TranslateError};
use wasm2uasm::uasm::{
    Uasm, UasmCode, UasmCodeBlock, UasmCodeLabel, UasmCodeSection, UasmData, UasmDataAttribute,
    UasmDataAttributeSync, UasmDataSection, UasmInstruction, UasmOpcode, UasmType, UasmVarName,
    UasmVariable,
};

fn label(text: &str) -> UasmCodeLabel {
    UasmCodeLabel::new(Cow::Borrowed(text))
}

fn var(text: &str) -> UasmVarName {
    UasmVarName::new(Cow::Owned(text.to_string()))
}

fn block_of(opcodes: Vec<UasmOpcode>) -> UasmCodeBlock {
    let mut block = UasmCodeBlock::new();
    for opcode in opcodes {
        block.push_instruction(&UasmInstruction::new(opcode));
    }
    block
}

fn declaration(attribute: UasmDataAttribute, name: &str, ty: UasmType) -> UasmData {
    UasmData { attribute, variable: UasmVariable::new(var(name), ty) }
}

fn spaces(count: usize) -> String {
    " ".repeat(count)
}

#[test]
fn names_and_labels_keep_their_text() {
    assert_eq!(label("start").to_string(), "start");
    assert_eq!(var("__G__0").to_string(), "__G__0");
    assert_eq!(UasmCodeLabel::new(Cow::Owned("owned".to_string())).to_string(), "owned");
    assert_eq!(UasmVarName::new(Cow::Borrowed("borrowed")).to_string(), "borrowed");
    assert_eq!(label("a").clone().to_string(), "a");
}

#[test]
fn type_keywords() {
    assert_eq!(UasmType::Int32.to_string(), "%SystemInt32");
    assert_eq!(UasmType::Int64.to_string(), "%SystemInt64");
    assert_eq!(UasmType::Single.to_string(), "%SystemSingle");
    assert_eq!(UasmType::Double.to_string(), "$SystemDouble");
    assert_eq!(UasmType::String.to_string(), "%SystemString");
}

#[test]
fn attribute_texts() {
    assert_eq!(UasmDataAttribute::NoAttribute.to_string().unwrap(), "");
    assert_eq!(UasmDataAttribute::Export.to_string().unwrap(), ".export");
    for sync in [
        UasmDataAttributeSync::NoInterpolation,
        UasmDataAttributeSync::Linear,
        UasmDataAttributeSync::Smooth,
    ] {
        let error = UasmDataAttribute::Sync(sync).to_string().unwrap_err();
        assert!(matches!(error, TranslateError::UnsupportedAttribute { sync: found } if found == sync));
        assert_eq!(error.kind(), ErrorKind::UnsupportedAttribute);
    }
    assert_eq!(UasmDataAttributeSync::NoInterpolation.to_string(), "none");
    assert_eq!(UasmDataAttributeSync::Linear.to_string(), "linear");
    assert_eq!(UasmDataAttributeSync::Smooth.to_string(), "smooth");
    assert_eq!(UasmDataAttribute::default(), UasmDataAttribute::NoAttribute);
    assert_eq!(UasmDataAttributeSync::default(), UasmDataAttributeSync::NoInterpolation);
}

#[test]
fn opcode_texts() {
    assert_eq!(UasmOpcode::Nop.to_string(), "NOP");
    assert_eq!(UasmOpcode::Push(var("x")).to_string(), "PUSH,x");
    assert_eq!(UasmOpcode::Pop.to_string(), "POP");
    assert_eq!(UasmOpcode::Jump(label("l")).to_string(), "JUMP,l");
    assert_eq!(UasmOpcode::JumpIfFalse(label("l")).to_string(), "JUMP_IF_FALSE,l");
    assert_eq!(UasmOpcode::JumpIndirect(var("x")).to_string(), "JUMP_INDIRECT,x");
    assert_eq!(UasmOpcode::Copy.to_string(), "COPY");
    assert_eq!(UasmOpcode::Extern("f".to_string()).to_string(), "EXTERN,\"f\"");
    assert_eq!(UasmInstruction::new(UasmOpcode::Copy).to_string(), "COPY");
    assert_eq!(UasmInstruction::new(UasmOpcode::Push(var("y"))).clone().to_string(), "PUSH,y");
}

#[test]
fn block_text_puts_each_instruction_on_an_indented_line() {
    assert_eq!(UasmCodeBlock::new().to_string(), "");
    let block = block_of(vec![UasmOpcode::Nop, UasmOpcode::Push(var("a")), UasmOpcode::Pop]);
    assert_eq!(block.to_string(), "\n                            NOP\n                            PUSH,a\n                            POP");
    assert_eq!(block.get_instructions().len(), 3);
    assert!(block.has_text());
    let marked = block_of(vec![UasmOpcode::Nop, UasmOpcode::Annotation]);
    assert!(!marked.has_text());
}

#[test]
fn data_section_text_has_nothing_between_declarations() {
    let mut section = UasmDataSection::new();
    assert_eq!(section.to_string(), "");
    section.push_data(declaration(UasmDataAttribute::NoAttribute, "a", UasmType::Int32));
    section.push_data(declaration(UasmDataAttribute::Export, "b", UasmType::Double));
    assert_eq!(section.get_data().len(), 2);
    assert_eq!(section.get_data()[1].variable.name.to_string(), "b");
    assert_eq!(section.to_string(), "a: %SystemInt32.exportb: $SystemDouble");
    assert_eq!(section.first_sync(), None);
}

#[test]
fn data_section_append_keeps_both_orders() {
    let mut first = UasmDataSection::new();
    first.push_data(declaration(UasmDataAttribute::NoAttribute, "a", UasmType::Int32));
    first.push_data(declaration(UasmDataAttribute::NoAttribute, "b", UasmType::Int32));
    let mut second = UasmDataSection::default();
    second.push_data(declaration(UasmDataAttribute::NoAttribute, "c", UasmType::Int64));
    second.push_data(declaration(UasmDataAttribute::NoAttribute, "d", UasmType::Int64));
    first.append(second);
    let names: Vec<String> =
        first.get_data().iter().map(|data| data.variable.name.to_string()).collect();
    assert_eq!(names, vec!["a", "b", "c", "d"]);
}

#[test]
fn declaration_setters_replace_one_field() {
    let mut data = declaration(UasmDataAttribute::NoAttribute, "a", UasmType::Int32);
    data.set_attribute(UasmDataAttribute::Export);
    assert_eq!(data.attribute, UasmDataAttribute::Export);
    assert_eq!(data.variable.name.to_string(), "a");
    data.set_variable(UasmVariable::new(var("b"), UasmType::Single));
    assert_eq!(data.attribute, UasmDataAttribute::Export);
    assert_eq!(data.variable.name.to_string(), "b");
    assert_eq!(data.variable.ty, UasmType::Single);
    assert_eq!(data.to_string(), ".exportb: %SystemSingle");
}

#[test]
fn code_map_keeps_first_insertion_order_and_last_block() {
    let mut code = UasmCode::new();
    assert_eq!(code.len(), 0);
    assert!(code.get_block_with_label(&label("a")).is_none());
    code.set_block_with_label(label("b"), block_of(vec![UasmOpcode::Nop]));
    code.set_block_with_label(label("a"), block_of(vec![UasmOpcode::Pop]));
    code.set_block_with_label(label("b"), block_of(vec![UasmOpcode::Copy, UasmOpcode::Copy]));
    assert_eq!(code.len(), 2);
    assert_eq!(code.label_at(0).to_string(), "b");
    assert_eq!(code.label_at(1).to_string(), "a");
    assert_eq!(code.block_at(0).to_string(), "\n                            COPY\n                            COPY");
    assert_eq!(code.block_at(1).to_string(), "\n                            POP");
    assert_eq!(code.get_block_with_label(&label("b")).unwrap().to_string(), "\n                            COPY\n                            COPY");
    assert_eq!(code.get_block_with_label(&label("a")).unwrap().to_string(), "\n                            POP");
    assert!(code.get_block_with_label(&label("c")).is_none());
    assert!(code.has_text());
}

#[test]
fn code_section_text_with_and_without_export() {
    let mut code = UasmCode::new();
    code.set_block_with_label(label("one"), block_of(vec![UasmOpcode::Nop]));
    code.set_block_with_label(label("two"), block_of(vec![]));
    let indent = format!("\n{}", spaces(24));
    let line = format!("\n{}", spaces(28));
    let plain = UasmCodeSection::NoExport(code);
    assert_eq!(
        plain.to_string(),
        format!("{indent}one:{line}NOP{indent}{indent}two:{indent}")
    );
    assert_eq!(plain.code().len(), 2);
    let mut code = UasmCode::new();
    code.set_block_with_label(label("one"), block_of(vec![UasmOpcode::Nop]));
    let export = UasmCodeSection::Export(code);
    assert_eq!(
        export.to_string(),
        format!("{indent}.export one{indent}one:{line}NOP{indent}")
    );
}

#[test]
fn program_text_of_both_sections() {
    let mut data = UasmDataSection::new();
    data.push_data(declaration(UasmDataAttribute::NoAttribute, "x", UasmType::Int32));
    let mut code = UasmCode::new();
    code.set_block_with_label(label("go"), block_of(vec![UasmOpcode::Push(var("x"))]));
    let program = Uasm::new(Some(data), Some(UasmCodeSection::NoExport(code)));
    let expected = format!(
        "\n{s12}.data_start\n{s12}x: %SystemInt32\n{s12}.data_end\n{s12}\n{s12}.code_start\n{s12}\n{s24}go:\n{s28}PUSH,x\n{s24}\n{s12}.code_end\n{s12}",
        s12 = spaces(12),
        s24 = spaces(24),
        s28 = spaces(28)
    );
    assert_eq!(program.to_string(), expected);
    assert_eq!(program.codegen().unwrap(), expected);
}

#[test]
fn program_text_of_one_section_or_none() {
    assert_eq!(Uasm::default().to_string(), "");
    assert_eq!(Uasm::new(None, None).codegen().unwrap(), "");
    let program = Uasm::new(Some(UasmDataSection::new()), None);
    assert_eq!(
        program.to_string(),
        format!("\n{s}.data_start\n{s}\n{s}.data_end\n{s}", s = spaces(12))
    );
    let program = Uasm::new(None, Some(UasmCodeSection::Export(UasmCode::new())));
    assert_eq!(
        program.to_string(),
        format!("\n{s}.code_start\n{s}\n{s}.code_end\n{s}", s = spaces(12))
    );
}

#[test]
fn rendering_twice_gives_the_same_text() {
    let mut code = UasmCode::new();
    for name in ["z", "a", "m", "b", "y", "c"] {
        code.set_block_with_label(label(name), block_of(vec![UasmOpcode::Jump(label(name))]));
    }
    let program = Uasm::new(None, Some(UasmCodeSection::Export(code)));
    let first = program.to_string();
    let second = program.to_string();
    assert_eq!(first, second);
    let z = first.find("z:").unwrap();
    let a = first.find("a:").unwrap();
    let c = first.find("c:").unwrap();
    assert!(z < a && a < c);
}

#[test]
fn setters_of_a_program_replace_what_was_set() {
    let mut program = Uasm::default();
    assert!(program.data_section.is_none());
    assert!(program.code_section.is_none());
    let mut first = UasmDataSection::new();
    first.push_data(declaration(UasmDataAttribute::NoAttribute, "a", UasmType::Int32));
    program.set_data_section(first);
    program.set_data_section(UasmDataSection::new());
    assert_eq!(program.data_section.as_ref().unwrap().get_data().len(), 0);
    assert!(program.code_section.is_none());
    program.set_code_section(UasmCodeSection::Export(UasmCode::new()));
    program.set_code_section(UasmCodeSection::NoExport(UasmCode::new()));
    assert!(matches!(program.code_section, Some(UasmCodeSection::NoExport(_))));
    assert!(program.data_section.is_some());
}

#[test]
fn a_sync_attribute_has_no_text() {
    let mut data = UasmDataSection::new();
    data.push_data(declaration(UasmDataAttribute::Export, "a", UasmType::Int32));
    data.push_data(declaration(
        UasmDataAttribute::Sync(UasmDataAttributeSync::Linear),
        "b",
        UasmType::Int32,
    ));
    data.push_data(declaration(
        UasmDataAttribute::Sync(UasmDataAttributeSync::Smooth),
        "c",
        UasmType::Int32,
    ));
    assert_eq!(data.first_sync(), Some(UasmDataAttributeSync::Linear));
    let mut code = UasmCode::new();
    code.set_block_with_label(label("l"), block_of(vec![UasmOpcode::Annotation]));
    let program = Uasm::new(Some(data), Some(UasmCodeSection::NoExport(code)));
    let error = program.codegen().unwrap_err();
    assert!(matches!(
        error,
        TranslateError::UnsupportedAttribute { sync: UasmDataAttributeSync::Linear }
    ));
    assert_eq!(error.kind(), ErrorKind::UnsupportedAttribute);
    assert_eq!(error.to_string(), "Unsupported attribute: sync linear");
}

#[test]
fn an_annotation_has_no_text() {
    let mut code = UasmCode::new();
    code.set_block_with_label(label("fine"), block_of(vec![UasmOpcode::Nop]));
    code.set_block_with_label(label("marked"), block_of(vec![UasmOpcode::Nop, UasmOpcode::Annotation]));
    assert!(!code.has_text());
    let program = Uasm::new(Some(UasmDataSection::new()), Some(UasmCodeSection::Export(code)));
    let error = program.codegen().unwrap_err();
    assert!(matches!(error, TranslateError::AnnotationRendered));
    assert_eq!(error.kind(), ErrorKind::InternalConsistency);
    assert_eq!(error.to_string(), "Unexpected Error: an annotation has no text");
}

#[test]
fn every_instruction_of_a_section_stands_on_a_line_of_its_own_and_is_indented() {
    let mut code = UasmCode::new();
    code.set_block_with_label(label("L"), block_of(vec![UasmOpcode::Nop, UasmOpcode::Pop]));
    let text = UasmCodeSection::Export(code).to_string();
    let lines: Vec<&str> = text.split('\n').collect();
    let s24 = spaces(24);
    let s28 = spaces(28);
    assert_eq!(
        lines,
        vec![
            "".to_string(),
            format!("{s24}.export L"),
            format!("{s24}L:"),
            format!("{s28}NOP"),
            format!("{s28}POP"),
            s24.clone(),
        ]
    );
}

#[test]
fn labels_compare_and_hash_by_their_text() {
    let mut seen = std::collections::HashSet::new();
    assert!(seen.insert(label("a")));
    assert!(!seen.insert(label("a")));
    assert!(seen.insert(label("b")));
    assert_eq!(label("a"), label("a").clone());
    assert_ne!(label("a"), label("b"));
}
