//! Names of the Udon variables that stand for WebAssembly variables.

use crate::error::val_type_text;
use crate::numerals::{
    decimal, is_digit, lemma_decimal_digits, lemma_decimal_injective, render_decimal,
};
use crate::wasm::WasmValType;
use vstd::prelude::*;
use vstd::string::StringExecFns;

verus! {

/// The role a WebAssembly variable plays in its module.
pub enum VarInfo {
    /// The local at `local_index` of the function `fn_name`.
    Local { local_index: usize, fn_name: String },
    /// The global at `global_index`.
    Global { global_index: usize },
}

/// A variable role as a mathematical value.
pub enum VarRole {
    Local { local_index: nat, fn_name: Seq<char> },
    Global { global_index: nat },
}

impl View for VarInfo {
    type V = VarRole;

    open spec fn view(&self) -> VarRole {
        match self {
            VarInfo::Local { local_index, fn_name } => VarRole::Local {
                local_index: *local_index as nat,
                fn_name: fn_name@,
            },
            VarInfo::Global { global_index } => VarRole::Global {
                global_index: *global_index as nat,
            },
        }
    }
}

/// What every generated name starts with.
pub open spec fn name_prefix() -> Seq<char> {
    seq!['_', '_']
}

/// What stands between a function's name and the index of its local.
pub open spec fn local_separator() -> Seq<char> {
    seq!['_', 'L']
}

/// What stands before the index of a global.
pub open spec fn global_marker() -> Seq<char> {
    seq!['G', '_', '_']
}

/// The name of the variable with the given role: `__<fn_name>_L<index>`
/// for a local and `__G__<index>` for a global.
pub open spec fn mangled(role: VarRole) -> Seq<char> {
    match role {
        VarRole::Local { local_index, fn_name } => name_prefix() + fn_name + local_separator()
            + decimal(local_index),
        VarRole::Global { global_index } => name_prefix() + global_marker() + decimal(global_index),
    }
}

/// Generates the name of the variable that `info` describes.
pub fn generate_variable_name(info: VarInfo) -> (name: String)
    ensures
        name@ == mangled(info@),
{
    proof {
        reveal_strlit("__");
        reveal_strlit("_L");
        reveal_strlit("G__");
    }
    let var = match info {
        VarInfo::Local { local_index, fn_name } => {
            let mut var = fn_name;
            var.append("_L");
            var.append(render_decimal(local_index as u64).as_str());
            var
        },
        VarInfo::Global { global_index } => {
            let mut var = String::from_str("G__");
            var.append(render_decimal(global_index as u64).as_str());
            var
        },
    };
    let mut name = String::from_str("__");
    name.append(var.as_str());
    assert(name@ =~= mangled(info@));
    name
}

/// In the name of a local, the character before the index is `L`, and the
/// index takes up the rest.
proof fn lemma_local_shape(local_index: nat, fn_name: Seq<char>)
    ensures
        ({
            let name = mangled(VarRole::Local { local_index, fn_name });
            let digits = decimal(local_index);
            &&& name.len() == 4 + fn_name.len() + digits.len()
            &&& name[name.len() - digits.len() - 1] == 'L'
            &&& name.subrange(name.len() - digits.len(), name.len() as int) == digits
            &&& name.subrange(2, 2 + fn_name.len() as int) == fn_name
        }),
{
    let name = mangled(VarRole::Local { local_index, fn_name });
    let digits = decimal(local_index);
    assert(name.subrange(name.len() - digits.len(), name.len() as int) =~= digits);
    assert(name.subrange(2, 2 + fn_name.len() as int) =~= fn_name);
}

/// No two variable roles share a name.
pub proof fn lemma_mangled_injective(a: VarRole, b: VarRole)
    requires
        mangled(a) == mangled(b),
    ensures
        a == b,
{
    let name = mangled(a);
    match (a, b) {
        (VarRole::Global { global_index: x }, VarRole::Global { global_index: y }) => {
            assert(name.subrange(5, name.len() as int) =~= decimal(x));
            assert(mangled(b).subrange(5, name.len() as int) =~= decimal(y));
            lemma_decimal_injective(x, y);
        },
        (
            VarRole::Local { local_index: x, fn_name: f },
            VarRole::Local { local_index: y, fn_name: g },
        ) => {
            lemma_local_shape(x, f);
            lemma_local_shape(y, g);
            lemma_decimal_digits(x);
            lemma_decimal_digits(y);
            let dx = decimal(x);
            let dy = decimal(y);
            if dx.len() < dy.len() {
                let p = name.len() - dx.len() - 1;
                assert(name[p] == dy[p - (name.len() - dy.len())]);
                assert(is_digit(dy[p - (name.len() - dy.len())]));
            } else if dy.len() < dx.len() {
                let p = name.len() - dy.len() - 1;
                assert(name[p] == dx[p - (name.len() - dx.len())]);
                assert(is_digit(dx[p - (name.len() - dx.len())]));
            }
            lemma_decimal_injective(x, y);
        },
        (VarRole::Local { local_index: x, fn_name: f }, VarRole::Global { global_index: y }) => {
            lemma_local_global_differ(x, f, y);
        },
        (VarRole::Global { global_index: y }, VarRole::Local { local_index: x, fn_name: f }) => {
            lemma_local_global_differ(x, f, y);
        },
    }
}

/// The name of a local is never the name of a global: only the former
/// holds an `L`.
proof fn lemma_local_global_differ(local_index: nat, fn_name: Seq<char>, global_index: nat)
    ensures
        mangled(VarRole::Local { local_index, fn_name }) != mangled(
            VarRole::Global { global_index },
        ),
{
    let local = mangled(VarRole::Local { local_index, fn_name });
    let global = mangled(VarRole::Global { global_index });
    lemma_local_shape(local_index, fn_name);
    lemma_decimal_digits(local_index);
    lemma_decimal_digits(global_index);
    if local == global {
        let p = local.len() - decimal(local_index).len() - 1;
        if p >= 5 {
            assert(global[p] == decimal(global_index)[p - 5]);
            assert(is_digit(decimal(global_index)[p - 5]));
        }
    }
}

/// What the name of every constant starts with.
pub open spec fn constant_marker() -> Seq<char> {
    seq!['_', '_', 'C', '_']
}

/// The name of the variable that holds the constant of type `ty` whose
/// value has the bits `bits`: `__C_<type>_<bits>`, the bits read as one
/// unsigned number.
pub open spec fn constant_name(ty: WasmValType, bits: nat) -> Seq<char> {
    constant_marker() + val_type_text(ty) + seq!['_'] + decimal(bits)
}

/// Generates the name of the variable that holds a constant.
pub fn generate_constant_name(ty: WasmValType, bits: u64) -> (name: String)
    ensures
        name@ == constant_name(ty, bits as nat),
{
    proof {
        reveal_strlit("__C_");
        reveal_strlit("_");
    }
    let mut name = String::from_str("__C_");
    name.append(ty.to_string().as_str());
    name.append("_");
    name.append(render_decimal(bits).as_str());
    assert(name@ =~= constant_name(ty, bits as nat));
    name
}

/// What each type is written as, character by character.
proof fn lemma_val_type_text(ty: WasmValType)
    ensures
        val_type_text(ty) == match ty {
            WasmValType::I32 => seq!['I', '3', '2'],
            WasmValType::I64 => seq!['I', '6', '4'],
            WasmValType::F32 => seq!['F', '3', '2'],
            WasmValType::F64 => seq!['F', '6', '4'],
            WasmValType::V128 => seq!['V', '1', '2', '8'],
            WasmValType::Ref => seq!['R', 'e', 'f'],
        },
{
    reveal_strlit("I32");
    reveal_strlit("I64");
    reveal_strlit("F32");
    reveal_strlit("F64");
    reveal_strlit("V128");
    reveal_strlit("Ref");
    assert(val_type_text(ty) =~= match ty {
        WasmValType::I32 => seq!['I', '3', '2'],
        WasmValType::I64 => seq!['I', '6', '4'],
        WasmValType::F32 => seq!['F', '3', '2'],
        WasmValType::F64 => seq!['F', '6', '4'],
        WasmValType::V128 => seq!['V', '1', '2', '8'],
        WasmValType::Ref => seq!['R', 'e', 'f'],
    });
}

/// The name of a constant holds no `L`.
proof fn lemma_constant_shape(ty: WasmValType, bits: nat)
    ensures
        ({
            let name = constant_name(ty, bits);
            let kind = val_type_text(ty);
            let digits = decimal(bits);
            &&& name.len() == 5 + kind.len() + digits.len()
            &&& name[2] == 'C'
            &&& name.subrange(4, 4 + kind.len() as int) == kind
            &&& name.subrange(name.len() - digits.len(), name.len() as int) == digits
            &&& forall|k: int| 0 <= k < name.len() ==> #[trigger] name[k] != 'L'
        }),
{
    let name = constant_name(ty, bits);
    let kind = val_type_text(ty);
    let digits = decimal(bits);
    lemma_val_type_text(ty);
    lemma_decimal_digits(bits);
    assert(name.subrange(4, 4 + kind.len() as int) =~= kind);
    assert(name.subrange(name.len() - digits.len(), name.len() as int) =~= digits);
    assert forall|k: int| 0 <= k < name.len() implies #[trigger] name[k] != 'L' by {
        if k < 4 {
        } else if k < 4 + kind.len() {
            assert(name[k] == kind[k - 4]);
        } else if k == 4 + kind.len() {
        } else {
            assert(name[k] == digits[k - 5 - kind.len()]);
            assert(is_digit(digits[k - 5 - kind.len()]));
        }
    }
}

/// No constant shares its name with a variable of the module.
pub proof fn lemma_constant_is_no_variable(ty: WasmValType, bits: nat, role: VarRole)
    ensures
        constant_name(ty, bits) != mangled(role),
{
    lemma_constant_shape(ty, bits);
    let name = constant_name(ty, bits);
    match role {
        VarRole::Local { local_index, fn_name } => {
            lemma_local_shape(local_index, fn_name);
            lemma_decimal_digits(local_index);
            if name == mangled(role) {
                let p = name.len() - decimal(local_index).len() - 1;
                assert(name[p] == 'L');
            }
        },
        VarRole::Global { global_index } => {
            lemma_decimal_digits(global_index);
            assert(mangled(role)[2] == 'G');
        },
    }
}

/// No two constants share a name, unless they have the same type and the
/// same bits.
pub proof fn lemma_constant_name_injective(
    ty: WasmValType,
    bits: nat,
    other_ty: WasmValType,
    other_bits: nat,
)
    requires
        constant_name(ty, bits) == constant_name(other_ty, other_bits),
    ensures
        ty == other_ty,
        bits == other_bits,
{
    let name = constant_name(ty, bits);
    lemma_constant_shape(ty, bits);
    lemma_constant_shape(other_ty, other_bits);
    lemma_val_type_text(ty);
    lemma_val_type_text(other_ty);
    lemma_decimal_digits(bits);
    lemma_decimal_digits(other_bits);
    let kind = val_type_text(ty);
    let other_kind = val_type_text(other_ty);
    assert(name[4] == kind[0]);
    assert(name[4] == other_kind[0]);
    assert(name[5] == kind[1]);
    assert(name[5] == other_kind[1]);
    assert(ty == other_ty);
    lemma_decimal_injective(bits, other_bits);
}

} // verus!
