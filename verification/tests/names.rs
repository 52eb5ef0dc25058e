use wasm2uasm::mangle::{generate_constant_name, generate_variable_name, VarInfo};
use wasm2uasm::numerals::{render_decimal, render_hexadecimal};
use wasm2uasm::wasm::WasmValType;

#[test]
fn local_and_global_names() {
    let local = generate_variable_name(VarInfo::Local { local_index: 1, fn_name: "foo".to_string() });
    assert_eq!(local, "__foo_L1");
    let global = generate_variable_name(VarInfo::Global { global_index: 2 });
    assert_eq!(global, "__G__2");
    assert_ne!(local, global);
}

#[test]
fn names_of_first_and_large_indices() {
    assert_eq!(generate_variable_name(VarInfo::Global { global_index: 0 }), "__G__0");
    assert_eq!(generate_variable_name(VarInfo::Global { global_index: 10 }), "__G__10");
    assert_eq!(
        generate_variable_name(VarInfo::Global { global_index: 4294967295 }),
        "__G__4294967295"
    );
    assert_eq!(
        generate_variable_name(VarInfo::Local { local_index: 0, fn_name: String::new() }),
        "___L0"
    );
}

#[test]
fn names_do_not_collide() {
    let mut seen: Vec<String> = Vec::new();
    let functions = ["f", "f_L1", "G__", "G", "", "_L", "x_L"];
    for function in functions {
        for index in [0usize, 1, 2, 10, 11, 12, 100] {
            seen.push(generate_variable_name(VarInfo::Local {
                local_index: index,
                fn_name: function.to_string(),
            }));
        }
    }
    for index in [0usize, 1, 2, 10, 11, 12, 100] {
        seen.push(generate_variable_name(VarInfo::Global { global_index: index }));
    }
    for i in 0..seen.len() {
        for j in 0..i {
            assert_ne!(seen[i], seen[j], "names {} and {} collide", i, j);
        }
    }
}

#[test]
fn a_function_name_that_ends_like_a_local_does_not_collide() {
    let nested = generate_variable_name(VarInfo::Local { local_index: 2, fn_name: "x_L1".to_string() });
    let plain = generate_variable_name(VarInfo::Local { local_index: 12, fn_name: "x".to_string() });
    assert_eq!(nested, "__x_L1_L2");
    assert_eq!(plain, "__x_L12");
    assert_ne!(nested, plain);
}

#[test]
fn constant_names() {
    assert_eq!(generate_constant_name(WasmValType::I32, 42), "__C_I32_42");
    assert_eq!(generate_constant_name(WasmValType::I64, 0), "__C_I64_0");
    assert_eq!(generate_constant_name(WasmValType::F32, 1065353216), "__C_F32_1065353216");
    assert_eq!(
        generate_constant_name(WasmValType::F64, 18446744073709551615),
        "__C_F64_18446744073709551615"
    );
    assert_ne!(
        generate_constant_name(WasmValType::I32, 1),
        generate_constant_name(WasmValType::I64, 1)
    );
    assert_ne!(
        generate_constant_name(WasmValType::I32, 1),
        generate_variable_name(VarInfo::Global { global_index: 1 })
    );
}

#[test]
fn decimal_notation() {
    assert_eq!(render_decimal(0), "0");
    assert_eq!(render_decimal(7), "7");
    assert_eq!(render_decimal(10), "10");
    assert_eq!(render_decimal(1234567890), "1234567890");
    assert_eq!(render_decimal(u64::MAX), "18446744073709551615");
}

#[test]
fn hexadecimal_notation() {
    assert_eq!(render_hexadecimal(0), "0");
    assert_eq!(render_hexadecimal(15), "f");
    assert_eq!(render_hexadecimal(16), "10");
    assert_eq!(render_hexadecimal(0xabcdef), "abcdef");
    assert_eq!(render_hexadecimal(u64::MAX), "ffffffffffffffff");
}
