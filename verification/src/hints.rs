use vstd::prelude::*;
use crate::operand::{res_view, CellRef, ResOperand, ResOperandV};

verus! {

/// Every hint the compiler can attach to an instruction. The dictionary,
/// scope and elliptic-curve hints are carried and serialized but not yet
/// executed.
pub enum Hint {
    AllocSegment { dst: CellRef },
    TestLessThan { lhs: ResOperand, rhs: ResOperand, dst: CellRef },
    TestLessThanOrEqual { lhs: ResOperand, rhs: ResOperand, dst: CellRef },
    DivMod { lhs: ResOperand, rhs: ResOperand, quotient: CellRef, remainder: CellRef },
    SystemCall { system: ResOperand },
    AllocDictFeltTo { dst: CellRef },
    DictFeltToRead { dict_ptr: CellRef, key: CellRef, value_dst: CellRef },
    DictFeltToWrite { dict_ptr: CellRef, key: CellRef, value: CellRef },
    EnterScope,
    ExitScope,
    DictSquashHints { squashed_dict: CellRef },
    RandomEcPoint { x: CellRef, y: CellRef },
}

/// The mathematical shape of a hint: operands by value.
pub enum HintV {
    AllocSegment { dst: CellRef },
    TestLessThan { lhs: ResOperandV, rhs: ResOperandV, dst: CellRef },
    TestLessThanOrEqual { lhs: ResOperandV, rhs: ResOperandV, dst: CellRef },
    DivMod { lhs: ResOperandV, rhs: ResOperandV, quotient: CellRef, remainder: CellRef },
    SystemCall { system: ResOperandV },
    AllocDictFeltTo { dst: CellRef },
    DictFeltToRead { dict_ptr: CellRef, key: CellRef, value_dst: CellRef },
    DictFeltToWrite { dict_ptr: CellRef, key: CellRef, value: CellRef },
    EnterScope,
    ExitScope,
    DictSquashHints { squashed_dict: CellRef },
    RandomEcPoint { x: CellRef, y: CellRef },
}

/// The value-level view of a hint.
pub open spec fn hint_view(h: Hint) -> HintV {
    match h {
        Hint::AllocSegment { dst } => HintV::AllocSegment { dst },
        Hint::TestLessThan { lhs, rhs, dst } => HintV::TestLessThan {
            lhs: res_view(lhs),
            rhs: res_view(rhs),
            dst,
        },
        Hint::TestLessThanOrEqual { lhs, rhs, dst } => HintV::TestLessThanOrEqual {
            lhs: res_view(lhs),
            rhs: res_view(rhs),
            dst,
        },
        Hint::DivMod { lhs, rhs, quotient, remainder } => HintV::DivMod {
            lhs: res_view(lhs),
            rhs: res_view(rhs),
            quotient,
            remainder,
        },
        Hint::SystemCall { system } => HintV::SystemCall { system: res_view(system) },
        Hint::AllocDictFeltTo { dst } => HintV::AllocDictFeltTo { dst },
        Hint::DictFeltToRead { dict_ptr, key, value_dst } => HintV::DictFeltToRead {
            dict_ptr,
            key,
            value_dst,
        },
        Hint::DictFeltToWrite { dict_ptr, key, value } => HintV::DictFeltToWrite {
            dict_ptr,
            key,
            value,
        },
        Hint::EnterScope => HintV::EnterScope,
        Hint::ExitScope => HintV::ExitScope,
        Hint::DictSquashHints { squashed_dict } => HintV::DictSquashHints { squashed_dict },
        Hint::RandomEcPoint { x, y } => HintV::RandomEcPoint { x, y },
    }
}

/// Copies a hint, keeping its value.
pub fn dup_hint(h: &Hint) -> (r: Hint)
    ensures
        hint_view(r) == hint_view(*h),
{
    match h {
        Hint::AllocSegment { dst } => Hint::AllocSegment { dst: *dst },
        Hint::TestLessThan { lhs, rhs, dst } => Hint::TestLessThan {
            lhs: crate::operand::dup_res(lhs),
            rhs: crate::operand::dup_res(rhs),
            dst: *dst,
        },
        Hint::TestLessThanOrEqual { lhs, rhs, dst } => Hint::TestLessThanOrEqual {
            lhs: crate::operand::dup_res(lhs),
            rhs: crate::operand::dup_res(rhs),
            dst: *dst,
        },
        Hint::DivMod { lhs, rhs, quotient, remainder } => Hint::DivMod {
            lhs: crate::operand::dup_res(lhs),
            rhs: crate::operand::dup_res(rhs),
            quotient: *quotient,
            remainder: *remainder,
        },
        Hint::SystemCall { system } => Hint::SystemCall { system: crate::operand::dup_res(system) },
        Hint::AllocDictFeltTo { dst } => Hint::AllocDictFeltTo { dst: *dst },
        Hint::DictFeltToRead { dict_ptr, key, value_dst } => Hint::DictFeltToRead {
            dict_ptr: *dict_ptr,
            key: *key,
            value_dst: *value_dst,
        },
        Hint::DictFeltToWrite { dict_ptr, key, value } => Hint::DictFeltToWrite {
            dict_ptr: *dict_ptr,
            key: *key,
            value: *value,
        },
        Hint::EnterScope => Hint::EnterScope,
        Hint::ExitScope => Hint::ExitScope,
        Hint::DictSquashHints { squashed_dict } => Hint::DictSquashHints {
            squashed_dict: *squashed_dict,
        },
        Hint::RandomEcPoint { x, y } => Hint::RandomEcPoint { x: *x, y: *y },
    }
}

} // verus!
