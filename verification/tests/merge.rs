use std::borrow::Cow;
use wasm2uasm::uasm::{
    Uasm, UasmCode, UasmCodeBlock, UasmCodeLabel, UasmCodeSection, UasmData, UasmDataAttribute,
    UasmDataSection, UasmInstruction, UasmOpcode, UasmType, UasmVarName, UasmVariable,
};
use wasm2uasm::units::{ParsedData, Unit, Units};

fn data_of(names: &[&str]) -> UasmDataSection {
    let mut section = UasmDataSection::new();
    for name in names {
        section.push_data(UasmData {
            attribute: UasmDataAttribute::NoAttribute,
            variable: UasmVariable::new(
                UasmVarName::new(Cow::Owned(name.to_string())),
                UasmType::Int32,
            ),
        });
    }
    section
}

fn code_of(name: &str) -> UasmCodeSection {
    let mut code = UasmCode::new();
    code.set_block_with_label(UasmCodeLabel::new(Cow::Borrowed(name)), UasmCodeBlock::new());
    UasmCodeSection::NoExport(code)
}

fn names_of(program: &Uasm) -> Option<Vec<String>> {
    program
        .data_section
        .as_ref()
        .map(|section| section.get_data().iter().map(|data| data.variable.name.to_string()).collect())
}

fn unit_of(names: Option<&[&str]>, code: Option<&str>) -> Unit<Uasm> {
    Unit::GlobalUnit { data: Uasm::new(names.map(data_of), code.map(code_of)) }
}

fn merge_of(units: Vec<Unit<Uasm>>) -> Uasm {
    let mut all = Units::new();
    for unit in units {
        all.push(unit);
    }
    all.into()
}

#[test]
fn units_keep_their_order() {
    let mut units: Units<u32> = Units::new();
    assert_eq!(units.len(), 0);
    units.push(3);
    units.push(1);
    units.push(2);
    assert_eq!(units.len(), 3);
    assert_eq!(*units.get(0), 3);
    assert_eq!(*units.get(1), 1);
    assert_eq!(*units.get(2), 2);
    assert_eq!(units.0, vec![3, 1, 2]);
}

#[test]
fn parsed_data_keeps_the_order_in_which_items_were_met() {
    let empty: ParsedData<u8> = ParsedData::empty();
    assert_eq!(empty.len(), 0);
    let mut parsed = ParsedData::new(7u8);
    assert_eq!(parsed.len(), 1);
    assert_eq!(*parsed.get_data(), 7);
    parsed = parsed.update(ParsedData::new(8));
    parsed = parsed.update(ParsedData::new(9).update(ParsedData::new(10)));
    parsed = parsed.update(ParsedData::empty());
    assert_eq!(parsed.len(), 4);
    assert_eq!(*parsed.get_data(), 7);
    assert_eq!(*parsed.get(0), 7);
    assert_eq!(*parsed.get(1), 8);
    assert_eq!(*parsed.get(2), 9);
    assert_eq!(*parsed.get(3), 10);
}

#[test]
fn unit_hands_out_its_fragment() {
    let global = Unit::GlobalUnit { data: 5u8 };
    let other = Unit::OtherUnit { data: 6u8 };
    assert_eq!(*global.get_data(), 5);
    assert_eq!(*other.get_data(), 6);
    assert_eq!(global.into_data(), 5);
    assert_eq!(other.into_data(), 6);
}

#[test]
fn block_from_units_keeps_the_instructions_in_order() {
    let mut units = Units::new();
    units.push(UasmInstruction::new(UasmOpcode::Pop));
    units.push(UasmInstruction::new(UasmOpcode::Nop));
    let block = UasmCodeBlock::from(units);
    assert_eq!(block.to_string(), "\n                            POP\n                            NOP");
    assert_eq!(UasmCodeBlock::from(Units::new()).to_string(), "");
}

#[test]
fn merge_of_nothing_is_the_empty_program() {
    let program = merge_of(vec![]);
    assert!(program.data_section.is_none());
    assert!(program.code_section.is_none());
}

#[test]
fn merge_concatenates_data_sections_in_unit_order() {
    let program = merge_of(vec![
        unit_of(Some(&["a1", "a2"]), None),
        unit_of(Some(&["b1"]), None),
        unit_of(Some(&["c1", "c2"]), None),
    ]);
    assert_eq!(names_of(&program).unwrap(), vec!["a1", "a2", "b1", "c1", "c2"]);
    assert!(program.code_section.is_none());
}

#[test]
fn merge_does_not_depend_on_the_grouping() {
    let a = || unit_of(Some(&["a1", "a2"]), Some("a"));
    let b = || unit_of(Some(&["b1"]), None);
    let c = || unit_of(Some(&["c1", "c2"]), Some("c"));
    let flat = merge_of(vec![a(), b(), c()]);
    let left = merge_of(vec![Unit::GlobalUnit { data: merge_of(vec![a(), b()]) }, c()]);
    let right = merge_of(vec![a(), Unit::OtherUnit { data: merge_of(vec![b(), c()]) }]);
    assert_eq!(names_of(&flat).unwrap(), vec!["a1", "a2", "b1", "c1", "c2"]);
    assert_eq!(names_of(&left), names_of(&flat));
    assert_eq!(names_of(&right), names_of(&flat));
    assert_eq!(left.to_string(), flat.to_string());
    assert_eq!(right.to_string(), flat.to_string());
}

#[test]
fn merge_keeps_the_code_section_of_the_last_unit_that_has_one() {
    let program = merge_of(vec![
        unit_of(None, Some("first")),
        unit_of(Some(&["x"]), Some("second")),
        unit_of(Some(&["y"]), None),
        unit_of(None, None),
    ]);
    assert_eq!(names_of(&program).unwrap(), vec!["x", "y"]);
    let section = program.code_section.as_ref().unwrap();
    assert_eq!(section.code().len(), 1);
    assert_eq!(section.code().label_at(0).to_string(), "second");
}

#[test]
fn a_unit_with_a_code_section_only_keeps_the_data_before_it() {
    let program = merge_of(vec![unit_of(Some(&["x"]), None), unit_of(None, Some("late"))]);
    assert_eq!(names_of(&program).unwrap(), vec!["x"]);
    assert_eq!(program.code_section.as_ref().unwrap().code().label_at(0).to_string(), "late");
}

#[test]
fn units_codegen_merges_and_renders() {
    let mut units = Units::new();
    units.push(unit_of(Some(&["a"]), None));
    units.push(unit_of(Some(&["b"]), None));
    let text = units.codegen().unwrap();
    let s = " ".repeat(12);
    assert_eq!(
        text,
        format!("\n{s}.data_start\n{s}a: %SystemInt32b: %SystemInt32\n{s}.data_end\n{s}")
    );
    let empty: Units<Unit<Uasm>> = Units::new();
    assert_eq!(empty.codegen().unwrap(), "");
}
