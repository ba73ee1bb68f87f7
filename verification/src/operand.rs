use vstd::prelude::*;
use crate::bigint::big_value;

verus! {

/// The two registers a cell can be addressed from.
#[derive(Clone, Copy, Debug, PartialEq, Eq, Structural)]
pub enum Register {
    AP,
    FP,
}

/// A memory cell: a register plus a signed offset.
#[derive(Clone, Copy, Debug, PartialEq, Eq, Structural)]
pub struct CellRef {
    pub register: Register,
    pub offset: i16,
}

/// The binary operations an operand can apply.
#[derive(Clone, Copy, Debug, PartialEq, Eq, Structural)]
pub enum Operation {
    Add,
    Mul,
}

/// Either a cell to read or an immediate value.
pub enum DerefOrImmediate {
    Deref(CellRef),
    Immediate(num_bigint::BigInt),
}

/// A binary operation over a cell and a second operand.
pub struct BinOpOperand {
    pub op: Operation,
    pub a: CellRef,
    pub b: DerefOrImmediate,
}

/// How a hint operand resolves against the running machine.
pub enum ResOperand {
    Deref(CellRef),
    DoubleDeref(CellRef, i16),
    Immediate(num_bigint::BigInt),
    BinOp(BinOpOperand),
}

/// The mathematical shape of a `DerefOrImmediate`: immediates as integers.
pub enum DerefOrImmV {
    Deref(CellRef),
    Imm(int),
}

/// The mathematical shape of a `ResOperand`: immediates as integers.
pub enum ResOperandV {
    Deref(CellRef),
    DoubleDeref(CellRef, i16),
    Imm(int),
    BinOp(Operation, CellRef, DerefOrImmV),
}

/// The value-level view of a second operand.
pub open spec fn dori_view(d: DerefOrImmediate) -> DerefOrImmV {
    match d {
        DerefOrImmediate::Deref(c) => DerefOrImmV::Deref(c),
        DerefOrImmediate::Immediate(b) => DerefOrImmV::Imm(big_value(b)),
    }
}

/// The value-level view of a hint operand.
pub open spec fn res_view(r: ResOperand) -> ResOperandV {
    match r {
        ResOperand::Deref(c) => ResOperandV::Deref(c),
        ResOperand::DoubleDeref(c, off) => ResOperandV::DoubleDeref(c, off),
        ResOperand::Immediate(b) => ResOperandV::Imm(big_value(b)),
        ResOperand::BinOp(b) => ResOperandV::BinOp(b.op, b.a, dori_view(b.b)),
    }
}

/// Copies a second operand, keeping its value.
pub fn dup_dori(d: &DerefOrImmediate) -> (r: DerefOrImmediate)
    ensures
        dori_view(r) == dori_view(*d),
{
    match d {
        DerefOrImmediate::Deref(c) => DerefOrImmediate::Deref(*c),
        DerefOrImmediate::Immediate(b) => DerefOrImmediate::Immediate(crate::bigint::big_clone(b)),
    }
}

/// Copies an operand, keeping its value.
pub fn dup_res(r: &ResOperand) -> (d: ResOperand)
    ensures
        res_view(d) == res_view(*r),
{
    match r {
        ResOperand::Deref(c) => ResOperand::Deref(*c),
        ResOperand::DoubleDeref(c, off) => ResOperand::DoubleDeref(*c, *off),
        ResOperand::Immediate(b) => ResOperand::Immediate(crate::bigint::big_clone(b)),
        ResOperand::BinOp(b) => ResOperand::BinOp(
            BinOpOperand { op: b.op, a: b.a, b: dup_dori(&b.b) },
        ),
    }
}

} // verus!
