use vstd::prelude::*;
use crate::bigint::{
    be_value, big_add, big_clone, big_from_u64, big_is_zero, big_le, big_lt, big_mul,
    big_to_bytes_be, big_value, lemma_be_value_bounds, lemma_be_value_injective, lemma_pow256_pos,
    prime, trunc_div, trunc_rem,
};
use crate::hints::{hint_view, Hint, HintV};
use crate::operand::{CellRef, DerefOrImmV, DerefOrImmediate, Operation, Register, ResOperand, ResOperandV};
use crate::scope::{
    read_outcome, storage_read_syscall, storage_write_syscall, write_outcome, StarknetExecScope,
    READ_GAS_SIM_COST, WRITE_GAS_SIM_COST,
};
use crate::vm::{
    rel_add_big, rel_add_i32, rel_key, vm_add_segment, vm_ap, vm_fp, vm_get_ap, vm_get_fp,
    vm_get_int, vm_get_rel, vm_ints, vm_insert_int, vm_insert_rel, vm_rels, vm_segments,
    vm_validated_segments, HintExecError,
};

verus! {

/// The address a cell names: the register's value with the offset added.
pub open spec fn cell_addr(ap: (int, int), fp: (int, int), c: CellRef) -> (int, int) {
    let b = if c.register is AP {
        ap
    } else {
        fp
    };
    (b.0, b.1 + c.offset)
}

/// The integer read through a cell, if its address holds one.
pub open spec fn eval_cell(ints: Map<(int, int), int>, ap: (int, int), fp: (int, int), c: CellRef) -> Option<
    int,
> {
    if ints.contains_key(cell_addr(ap, fp, c)) {
        Some(ints[cell_addr(ap, fp, c)])
    } else {
        None
    }
}

/// The integer read through a pointer cell moved by `off`: the cell must
/// hold an address, and the moved address must hold an integer.
pub open spec fn eval_deref2(
    ints: Map<(int, int), int>,
    rels: Map<(int, int), (int, int)>,
    ap: (int, int),
    fp: (int, int),
    c: CellRef,
    off: int,
) -> Option<int> {
    if rels.contains_key(cell_addr(ap, fp, c)) {
        let p = rels[cell_addr(ap, fp, c)];
        let key = (p.0, (p.1 + off) % prime());
        if ints.contains_key(key) {
            Some(ints[key])
        } else {
            None
        }
    } else {
        None
    }
}

/// The value of a second operand.
pub open spec fn eval_dori(
    ints: Map<(int, int), int>,
    ap: (int, int),
    fp: (int, int),
    d: DerefOrImmV,
) -> Option<int> {
    match d {
        DerefOrImmV::Deref(c) => eval_cell(ints, ap, fp, c),
        DerefOrImmV::Imm(v) => Some(v),
    }
}

/// The value of an operand; a binary operation works on the unreduced
/// integers, with no reduction into the field.
pub open spec fn eval_res(
    ints: Map<(int, int), int>,
    rels: Map<(int, int), (int, int)>,
    ap: (int, int),
    fp: (int, int),
    r: ResOperandV,
) -> Option<int> {
    match r {
        ResOperandV::Deref(c) => eval_cell(ints, ap, fp, c),
        ResOperandV::DoubleDeref(c, off) => eval_deref2(ints, rels, ap, fp, c, off as int),
        ResOperandV::Imm(v) => Some(v),
        ResOperandV::BinOp(op, a, b) => match (eval_cell(ints, ap, fp, a), eval_dori(
            ints,
            ap,
            fp,
            b,
        )) {
            (Some(x), Some(y)) => if op is Add {
                Some(x + y)
            } else {
                Some(x * y)
            },
            _ => None,
        },
    }
}

/// The cell's address has an offset the machine can hold.
pub open spec fn cell_addr_ok(ap: (int, int), fp: (int, int), c: CellRef) -> bool {
    0 <= cell_addr(ap, fp, c).1 <= usize::MAX
}

/// The cell's address is representable and holds an integer.
pub open spec fn cell_resolvable(
    ints: Map<(int, int), int>,
    ap: (int, int),
    fp: (int, int),
    c: CellRef,
) -> bool {
    cell_addr_ok(ap, fp, c) && ints.contains_key(cell_addr(ap, fp, c))
}

/// The cell holds an address, and that address moved by `off` is
/// representable.
pub open spec fn ptr_resolvable(
    rels: Map<(int, int), (int, int)>,
    ap: (int, int),
    fp: (int, int),
    c: CellRef,
    off: int,
) -> bool {
    &&& cell_addr_ok(ap, fp, c)
    &&& rels.contains_key(cell_addr(ap, fp, c))
    &&& (rels[cell_addr(ap, fp, c)].1 + off) % prime() <= usize::MAX
}

/// The moved address behind the pointer cell holds an integer.
pub open spec fn deref2_resolvable(
    ints: Map<(int, int), int>,
    rels: Map<(int, int), (int, int)>,
    ap: (int, int),
    fp: (int, int),
    c: CellRef,
    off: int,
) -> bool {
    &&& ptr_resolvable(rels, ap, fp, c, off)
    &&& ints.contains_key(
        (
            rels[cell_addr(ap, fp, c)].0,
            (rels[cell_addr(ap, fp, c)].1 + off) % prime(),
        ),
    )
}

/// The second operand's reads resolve.
pub open spec fn dori_resolvable(
    ints: Map<(int, int), int>,
    ap: (int, int),
    fp: (int, int),
    d: DerefOrImmV,
) -> bool {
    match d {
        DerefOrImmV::Deref(c) => cell_resolvable(ints, ap, fp, c),
        DerefOrImmV::Imm(_) => true,
    }
}

/// The operand's reads resolve.
pub open spec fn res_resolvable(
    ints: Map<(int, int), int>,
    rels: Map<(int, int), (int, int)>,
    ap: (int, int),
    fp: (int, int),
    r: ResOperandV,
) -> bool {
    match r {
        ResOperandV::Deref(c) => cell_resolvable(ints, ap, fp, c),
        ResOperandV::DoubleDeref(c, off) => deref2_resolvable(ints, rels, ap, fp, c, off as int),
        ResOperandV::Imm(_) => true,
        ResOperandV::BinOp(_, a, b) => cell_resolvable(ints, ap, fp, a) && dori_resolvable(
            ints,
            ap,
            fp,
            b,
        ),
    }
}

/// The addressed cell can be written: it is vacant, and its segment is
/// allocated and free of validation rules.
pub open spec fn key_writable(
    ints: Map<(int, int), int>,
    rels: Map<(int, int), (int, int)>,
    segments: int,
    validated: Set<int>,
    k: (int, int),
) -> bool {
    &&& !ints.contains_key(k)
    &&& !rels.contains_key(k)
    &&& 0 <= k.0 < segments
    &&& !validated.contains(k.0)
}

/// The cell can be written: its address is representable, it is vacant,
/// and its segment is allocated and free of validation rules.
pub open spec fn cell_writable(
    ints: Map<(int, int), int>,
    rels: Map<(int, int), (int, int)>,
    segments: int,
    validated: Set<int>,
    ap: (int, int),
    fp: (int, int),
    c: CellRef,
) -> bool {
    &&& cell_addr_ok(ap, fp, c)
    &&& key_writable(ints, rels, segments, validated, cell_addr(ap, fp, c))
}

/// The machine address a cell names now.
pub fn cell_ref_to_relocatable(
    cell: &CellRef,
    vm: &cairo_vm::vm::vm_core::VirtualMachine,
) -> (r: Result<cairo_vm::types::relocatable::Relocatable, HintExecError>)
    ensures
        r matches Ok(p) ==> rel_key(p) == cell_addr(vm_ap(*vm), vm_fp(*vm), *cell),
        r is Ok <==> cell_addr_ok(vm_ap(*vm), vm_fp(*vm), *cell),
        r matches Err(e) ==> e == HintExecError::Math,
{
    let base = match cell.register {
        Register::AP => vm_get_ap(vm),
        Register::FP => vm_get_fp(vm),
    };
    rel_add_i32(base, cell.offset as i32)
}

/// Reads the integer a cell holds.
fn get_cell_val(
    vm: &cairo_vm::vm::vm_core::VirtualMachine,
    cell: &CellRef,
) -> (r: Result<num_bigint::BigInt, HintExecError>)
    ensures
        r matches Ok(v) ==> eval_cell(vm_ints(*vm), vm_ap(*vm), vm_fp(*vm), *cell) == Some(
            big_value(v),
        ) && 0 <= big_value(v) < prime(),
        cell_resolvable(vm_ints(*vm), vm_ap(*vm), vm_fp(*vm), *cell) ==> r is Ok,
        r matches Err(e) ==> e == HintExecError::Memory || e == HintExecError::Math,
{
    let addr = cell_ref_to_relocatable(cell, vm)?;
    vm_get_int(vm, addr)
}

/// Reads the address a cell holds and moves it by `offset` in the field.
fn get_ptr(
    vm: &cairo_vm::vm::vm_core::VirtualMachine,
    cell: &CellRef,
    offset: &num_bigint::BigInt,
) -> (r: Result<cairo_vm::types::relocatable::Relocatable, HintExecError>)
    ensures
        r matches Ok(p) ==> {
            let rels = vm_rels(*vm);
            let ca = cell_addr(vm_ap(*vm), vm_fp(*vm), *cell);
            rels.contains_key(ca) && rel_key(p) == (
                rels[ca].0,
                (rels[ca].1 + big_value(*offset)) % prime(),
            )
        },
        ptr_resolvable(vm_rels(*vm), vm_ap(*vm), vm_fp(*vm), *cell, big_value(*offset)) ==> r
            is Ok,
        r matches Err(e) ==> e == HintExecError::Memory || e == HintExecError::Math,
{
    let addr = cell_ref_to_relocatable(cell, vm)?;
    let base_ptr = vm_get_rel(vm, addr)?;
    rel_add_big(base_ptr, offset)
}

/// Reads the integer behind a pointer cell moved by `offset`.
fn get_double_deref_val(
    vm: &cairo_vm::vm::vm_core::VirtualMachine,
    cell: &CellRef,
    offset: &num_bigint::BigInt,
) -> (r: Result<num_bigint::BigInt, HintExecError>)
    ensures
        r matches Ok(v) ==> eval_deref2(
            vm_ints(*vm),
            vm_rels(*vm),
            vm_ap(*vm),
            vm_fp(*vm),
            *cell,
            big_value(*offset),
        ) == Some(big_value(v)) && 0 <= big_value(v) < prime(),
        deref2_resolvable(
            vm_ints(*vm),
            vm_rels(*vm),
            vm_ap(*vm),
            vm_fp(*vm),
            *cell,
            big_value(*offset),
        ) ==> r is Ok,
        r matches Err(e) ==> e == HintExecError::Memory || e == HintExecError::Math,
{
    let ptr = get_ptr(vm, cell, offset)?;
    vm_get_int(vm, ptr)
}

/// Resolves an operand against the machine.
fn get_val(
    vm: &cairo_vm::vm::vm_core::VirtualMachine,
    x: &ResOperand,
) -> (r: Result<num_bigint::BigInt, HintExecError>)
    ensures
        r matches Ok(v) ==> eval_res(
            vm_ints(*vm),
            vm_rels(*vm),
            vm_ap(*vm),
            vm_fp(*vm),
            crate::operand::res_view(*x),
        ) == Some(big_value(v)),
        res_resolvable(
            vm_ints(*vm),
            vm_rels(*vm),
            vm_ap(*vm),
            vm_fp(*vm),
            crate::operand::res_view(*x),
        ) ==> r is Ok,
        r matches Err(e) ==> e == HintExecError::Memory || e == HintExecError::Math,
{
    match x {
        ResOperand::Deref(cell) => get_cell_val(vm, cell),
        ResOperand::DoubleDeref(cell, offset) => {
            let off: num_bigint::BigInt = crate::bigint::big_from_i64(*offset as i64);
            get_double_deref_val(vm, cell, &off)
        },
        ResOperand::Immediate(x) => Ok(big_clone(x)),
        ResOperand::BinOp(op) => {
            let a = get_cell_val(vm, &op.a)?;
            let b = match &op.b {
                DerefOrImmediate::Deref(cell) => get_cell_val(vm, cell)?,
                DerefOrImmediate::Immediate(x) => big_clone(x),
            };
            match op.op {
                Operation::Add => Ok(big_add(&a, &b)),
                Operation::Mul => Ok(big_mul(&a, &b)),
            }
        },
    }
}

/// The cell and added offset a system pointer names: only a plain cell
/// read or a cell plus an immediate are legal shapes.
pub open spec fn system_shape(system: ResOperandV, c: CellRef, boff: int) -> bool {
    match system {
        ResOperandV::Deref(c0) => c == c0 && boff == 0,
        ResOperandV::BinOp(op, a, b) => op is Add && (b matches DerefOrImmV::Imm(k) && c == a
            && boff == k),
        _ => false,
    }
}

/// The address of a syscall frame's cell: the frame pointer read from `c`,
/// moved by `off` in the field.
pub open spec fn frame_ptr(
    rels: Map<(int, int), (int, int)>,
    ap: (int, int),
    fp: (int, int),
    c: CellRef,
    off: int,
) -> Option<(int, int)> {
    let ca = cell_addr(ap, fp, c);
    if rels.contains_key(ca) {
        Some((rels[ca].0, (rels[ca].1 + off) % prime()))
    } else {
        None
    }
}

/// What a storage-write call does to the machine and the scope, relative
/// to the frame at `c` plus `boff`: the gas counter, domain, address and
/// value sit at the first four cells past the base; the updated gas and
/// the revert reason are written to the fifth and sixth, and the store
/// changes, exactly as the write outcome of the read values says.
#[verifier::opaque]
pub open spec fn write_syscall_post(
    ints0: Map<(int, int), int>,
    rels0: Map<(int, int), (int, int)>,
    ap: (int, int),
    fp: (int, int),
    st0: Map<int, int>,
    c: CellRef,
    boff: int,
    ints1: Map<(int, int), int>,
    st1: Map<int, int>,
) -> bool {
    eval_deref2(ints0, rels0, ap, fp, c, boff + 1) matches Some(g) && (eval_deref2(
        ints0,
        rels0,
        ap,
        fp,
        c,
        boff + 2,
    ) matches Some(d) && (frame_ptr(rels0, ap, fp, c, boff + 5) matches Some(p5) && (frame_ptr(
        rels0,
        ap,
        fp,
        c,
        boff + 6,
    ) matches Some(p6) && (if d == 0 && g >= WRITE_GAS_SIM_COST {
        eval_deref2(ints0, rels0, ap, fp, c, boff + 3) matches Some(a) && (eval_deref2(
            ints0,
            rels0,
            ap,
            fp,
            c,
            boff + 4,
        ) matches Some(v) && {
            let (st2, gas2, revert) = write_outcome(st0, g, d, a, v);
            st1 == st2 && ints1 == ints0.insert(p5, gas2 % prime()).insert(p6, revert % prime())
        })
    } else {
        let (st2, gas2, revert) = write_outcome(st0, g, d, 0, 0);
        st1 == st2 && ints1 == ints0.insert(p5, gas2 % prime()).insert(p6, revert % prime())
    }))))
}

/// What a storage-read call does, relative to the frame at `c` plus
/// `boff`: the gas counter, domain and address sit at the first three
/// cells past the base; the updated gas and the revert reason are written
/// to the fourth and fifth, and on success the read value to the sixth,
/// exactly as the read outcome of the read values says; the store never
/// changes.
#[verifier::opaque]
pub open spec fn read_syscall_post(
    ints0: Map<(int, int), int>,
    rels0: Map<(int, int), (int, int)>,
    ap: (int, int),
    fp: (int, int),
    st0: Map<int, int>,
    c: CellRef,
    boff: int,
    ints1: Map<(int, int), int>,
    st1: Map<int, int>,
) -> bool {
    st1 == st0 && (eval_deref2(ints0, rels0, ap, fp, c, boff + 1) matches Some(g) && (eval_deref2(
        ints0,
        rels0,
        ap,
        fp,
        c,
        boff + 2,
    ) matches Some(d) && (eval_deref2(ints0, rels0, ap, fp, c, boff + 3) matches Some(a) && (
    frame_ptr(rels0, ap, fp, c, boff + 4) matches Some(p4) && (frame_ptr(
        rels0,
        ap,
        fp,
        c,
        boff + 5,
    ) matches Some(p5) && {
        let (gas2, revert, read) = read_outcome(st0, g, d, a);
        if d == 0 && g >= READ_GAS_SIM_COST {
            frame_ptr(rels0, ap, fp, c, boff + 6) matches Some(p6) && (read matches Some(value)
                && ints1 == ints0.insert(p4, gas2 % prime()).insert(p5, revert % prime()).insert(
                p6,
                value % prime(),
            ))
        } else {
            ints1 == ints0.insert(p4, gas2 % prime()).insert(p5, revert % prime())
        }
    })))))
}

/// What one successful system call does: through a legal system pointer,
/// the frame's selector chooses the storage write or the storage read, and
/// the machine and scope change as that call's rule says.
#[verifier::opaque]
pub open spec fn syscall_post(
    system: ResOperandV,
    ints0: Map<(int, int), int>,
    rels0: Map<(int, int), (int, int)>,
    ap: (int, int),
    fp: (int, int),
    st0: Map<int, int>,
    ints1: Map<(int, int), int>,
    st1: Map<int, int>,
) -> bool {
    exists|c: CellRef, boff: int|
        {
            &&& #[trigger] system_shape(system, c, boff)
            &&& ((eval_deref2(ints0, rels0, ap, fp, c, boff) == Some(be_value(storage_write_sel()))
                && write_syscall_post(ints0, rels0, ap, fp, st0, c, boff, ints1, st1)) || (
            eval_deref2(ints0, rels0, ap, fp, c, boff) == Some(be_value(storage_read_sel()))
                && read_syscall_post(ints0, rels0, ap, fp, st0, c, boff, ints1, st1)))
        }
}

/// The frame of a storage write can be served: the gas counter and domain
/// are readable, the two output cells are addressable and writable, and,
/// where the write will go through, the address and value are readable.
pub open spec fn write_frame_ready(
    ints0: Map<(int, int), int>,
    rels0: Map<(int, int), (int, int)>,
    segments: int,
    validated: Set<int>,
    ap: (int, int),
    fp: (int, int),
    c: CellRef,
    boff: int,
) -> bool {
    &&& deref2_resolvable(ints0, rels0, ap, fp, c, boff + 1)
    &&& deref2_resolvable(ints0, rels0, ap, fp, c, boff + 2)
    &&& ptr_resolvable(rels0, ap, fp, c, boff + 5)
    &&& ptr_resolvable(rels0, ap, fp, c, boff + 6)
    &&& frame_ptr(rels0, ap, fp, c, boff + 5) matches Some(p5) && (frame_ptr(
        rels0,
        ap,
        fp,
        c,
        boff + 6,
    ) matches Some(p6) && {
        &&& p5 != p6
        &&& key_writable(ints0, rels0, segments, validated, p5)
        &&& key_writable(ints0, rels0, segments, validated, p6)
    })
    &&& ((eval_deref2(ints0, rels0, ap, fp, c, boff + 2) == Some(0int) && (eval_deref2(
        ints0,
        rels0,
        ap,
        fp,
        c,
        boff + 1,
    ) matches Some(g) && g >= WRITE_GAS_SIM_COST)) ==> deref2_resolvable(
        ints0,
        rels0,
        ap,
        fp,
        c,
        boff + 3,
    ) && deref2_resolvable(ints0, rels0, ap, fp, c, boff + 4))
}

/// The frame of a storage read can be served: the gas counter, domain and
/// address are readable, the two output cells are addressable and
/// writable, and, where the read will go through, so is the result cell.
pub open spec fn read_frame_ready(
    ints0: Map<(int, int), int>,
    rels0: Map<(int, int), (int, int)>,
    segments: int,
    validated: Set<int>,
    ap: (int, int),
    fp: (int, int),
    c: CellRef,
    boff: int,
) -> bool {
    &&& deref2_resolvable(ints0, rels0, ap, fp, c, boff + 1)
    &&& deref2_resolvable(ints0, rels0, ap, fp, c, boff + 2)
    &&& deref2_resolvable(ints0, rels0, ap, fp, c, boff + 3)
    &&& ptr_resolvable(rels0, ap, fp, c, boff + 4)
    &&& ptr_resolvable(rels0, ap, fp, c, boff + 5)
    &&& frame_ptr(rels0, ap, fp, c, boff + 4) matches Some(p4) && (frame_ptr(
        rels0,
        ap,
        fp,
        c,
        boff + 5,
    ) matches Some(p5) && {
        &&& p4 != p5
        &&& key_writable(ints0, rels0, segments, validated, p4)
        &&& key_writable(ints0, rels0, segments, validated, p5)
        &&& ((eval_deref2(ints0, rels0, ap, fp, c, boff + 2) == Some(0int) && (eval_deref2(
            ints0,
            rels0,
            ap,
            fp,
            c,
            boff + 1,
        ) matches Some(g) && g >= READ_GAS_SIM_COST)) ==> ptr_resolvable(
            rels0,
            ap,
            fp,
            c,
            boff + 6,
        ) && (frame_ptr(rels0, ap, fp, c, boff + 6) matches Some(p6) && p6 != p4 && p6 != p5
            && key_writable(ints0, rels0, segments, validated, p6)))
    })
}

/// The bytes of the storage-write selector.
pub open spec fn storage_write_sel() -> Seq<u8> {
    seq![83u8, 116u8, 111u8, 114u8, 97u8, 103u8, 101u8, 87u8, 114u8, 105u8, 116u8, 101u8]
}

/// The bytes of the storage-read selector.
pub open spec fn storage_read_sel() -> Seq<u8> {
    seq![83u8, 116u8, 111u8, 114u8, 97u8, 103u8, 101u8, 82u8, 101u8, 97u8, 100u8]
}

/// The bytes of the reserved contract-call selector.
pub open spec fn call_contract_sel() -> Seq<u8> {
    seq![99u8, 97u8, 108u8, 108u8, 95u8, 99u8, 111u8, 110u8, 116u8, 114u8, 97u8, 99u8, 116u8]
}

/// The storage-write selector, as bytes in memory.
fn storage_write_selector() -> (r: Vec<u8>)
    ensures
        r@ == storage_write_sel(),
{
    let v: Vec<u8> = vec![83, 116, 111, 114, 97, 103, 101, 87, 114, 105, 116, 101];
    proof {
        assert(v@ =~= storage_write_sel());
    }
    v
}

/// The storage-read selector, as bytes in memory.
fn storage_read_selector() -> (r: Vec<u8>)
    ensures
        r@ == storage_read_sel(),
{
    let v: Vec<u8> = vec![83, 116, 111, 114, 97, 103, 101, 82, 101, 97, 100];
    proof {
        assert(v@ =~= storage_read_sel());
    }
    v
}

/// The reserved contract-call selector, as bytes in memory.
fn call_contract_selector() -> (r: Vec<u8>)
    ensures
        r@ == call_contract_sel(),
{
    let v: Vec<u8> = vec![99, 97, 108, 108, 95, 99, 111, 110, 116, 114, 97, 99, 116];
    proof {
        assert(v@ =~= call_contract_sel());
    }
    v
}

/// Byte-for-byte equality of two byte slices.
fn slice_eq(a: &[u8], b: &[u8]) -> (r: bool)
    ensures
        r == (a@ == b@),
{
    if a.len() != b.len() {
        proof {
            assert(a@ != b@);
        }
        return false;
    }
    let n: usize = a.len();
    let mut i: usize = 0;
    while i < n
        invariant
            n == a@.len() == b@.len(),
            i <= n,
            forall|j: int| 0 <= j < i ==> a@[j] == b@[j],
        decreases n - i,
    {
        if a[i] != b[i] {
            return false;
        }
        i += 1;
    }
    proof {
        assert(a@ =~= b@);
    }
    true
}

/// Whether a read value equals the integer a selector's bytes stand for:
/// true exactly when the value's canonical big-endian bytes are those
/// bytes.
fn selector_matches(a: &num_bigint::BigInt, bytes: &[u8]) -> (r: bool)
    requires
        bytes@.len() > 0,
        bytes@[0] != 0,
    ensures
        r == (big_value(*a) == be_value(bytes@)),
{
    proof {
        lemma_be_value_bounds(bytes@);
        lemma_pow256_pos((bytes@.len() - 1) as nat);
    }
    let (positive, digits) = big_to_bytes_be(a);
    if !positive {
        return false;
    }
    let eq = slice_eq(digits.as_slice(), bytes);
    proof {
        if !eq && big_value(*a) == be_value(bytes@) {
            lemma_be_value_injective(digits@, bytes@);
        }
    }
    eq
}

/// The system operand has a legal pointer shape: a plain cell read, or a
/// cell plus an immediate.
pub open spec fn has_system_shape(r: ResOperandV) -> bool {
    match r {
        ResOperandV::Deref(_) => true,
        ResOperandV::BinOp(op, _, b) => op is Add && b matches DerefOrImmV::Imm(_),
        _ => false,
    }
}

/// The cell a legal system pointer reads through.
pub open spec fn system_cell(r: ResOperandV) -> CellRef {
    match r {
        ResOperandV::Deref(c) => c,
        ResOperandV::BinOp(_, a, _) => a,
        _ => CellRef { register: Register::AP, offset: 0 },
    }
}

/// The offset a legal system pointer adds to the read address.
pub open spec fn system_boff(r: ResOperandV) -> int {
    match r {
        ResOperandV::BinOp(_, _, DerefOrImmV::Imm(k)) => k,
        _ => 0,
    }
}

/// The three selectors decode to pairwise distinct integers.
proof fn lemma_selectors_distinct()
    ensures
        be_value(call_contract_sel()) != be_value(storage_write_sel()),
        be_value(call_contract_sel()) != be_value(storage_read_sel()),
        be_value(storage_write_sel()) != be_value(storage_read_sel()),
{
    reveal_with_fuel(be_value, 15);
    assert(be_value(call_contract_sel()) != be_value(storage_write_sel()));
    assert(be_value(call_contract_sel()) != be_value(storage_read_sel()));
    assert(be_value(storage_write_sel()) != be_value(storage_read_sel()));
}

/// Evaluates one hint against the machine and the run's storage scope.
///
/// The segment allocation, comparison and division hints resolve their
/// operands and write their results; a system call reads its frame,
/// follows the storage rules, and writes the frame's outputs. Each
/// executed hint succeeds whenever its reads resolve and its destination
/// cells can be written; a zero divisor, an illegal system pointer, an
/// unknown selector and the reserved contract call each name their own
/// error. The reserved hints are refused untouched.
pub fn execute_hint(
    hint: &Hint,
    vm: &mut cairo_vm::vm::vm_core::VirtualMachine,
    scope: &mut StarknetExecScope,
) -> (r: Result<(), HintExecError>)
    requires
        old(scope).wf(),
    ensures
        final(scope).wf(),
        ({
            let ints0 = vm_ints(*old(vm));
            let rels0 = vm_rels(*old(vm));
            let ap = vm_ap(*old(vm));
            let fp = vm_fp(*old(vm));
            let st0 = old(scope).view_map();
            let segs0 = vm_segments(*old(vm));
            let vals0 = vm_validated_segments(*old(vm));
            match hint_view(*hint) {
                HintV::AllocSegment { dst } => {
                    &&& (r matches Ok(_) ==> {
                        &&& vm_segments(*final(vm)) == segs0 + 1
                        &&& vm_rels(*final(vm)) == rels0.insert(
                            cell_addr(ap, fp, dst),
                            (segs0, 0),
                        )
                    })
                    &&& cell_writable(ints0, rels0, segs0 + 1, vals0, ap, fp, dst) ==> r is Ok
                    &&& vm_ints(*final(vm)) == ints0
                    &&& final(scope).view_map() == st0
                },
                HintV::TestLessThan { lhs, rhs, dst } => {
                    &&& (r matches Ok(_) ==> exists|lv: int, rv: int|
                        {
                            &&& eval_res(ints0, rels0, ap, fp, lhs) == Some(lv)
                            &&& eval_res(ints0, rels0, ap, fp, rhs) == Some(rv)
                            &&& vm_ints(*final(vm)) == ints0.insert(
                                cell_addr(ap, fp, dst),
                                if lv < rv {
                                    1int
                                } else {
                                    0int
                                },
                            )
                        })
                    &&& (res_resolvable(ints0, rels0, ap, fp, lhs) && res_resolvable(
                        ints0,
                        rels0,
                        ap,
                        fp,
                        rhs,
                    ) && cell_writable(ints0, rels0, segs0, vals0, ap, fp, dst)) ==> r is Ok
                    &&& vm_rels(*final(vm)) == rels0
                    &&& vm_segments(*final(vm)) == segs0
                    &&& final(scope).view_map() == st0
                },
                HintV::TestLessThanOrEqual { lhs, rhs, dst } => {
                    &&& (r matches Ok(_) ==> exists|lv: int, rv: int|
                        {
                            &&& eval_res(ints0, rels0, ap, fp, lhs) == Some(lv)
                            &&& eval_res(ints0, rels0, ap, fp, rhs) == Some(rv)
                            &&& vm_ints(*final(vm)) == ints0.insert(
                                cell_addr(ap, fp, dst),
                                if lv <= rv {
                                    1int
                                } else {
                                    0int
                                },
                            )
                        })
                    &&& (res_resolvable(ints0, rels0, ap, fp, lhs) && res_resolvable(
                        ints0,
                        rels0,
                        ap,
                        fp,
                        rhs,
                    ) && cell_writable(ints0, rels0, segs0, vals0, ap, fp, dst)) ==> r is Ok
                    &&& vm_rels(*final(vm)) == rels0
                    &&& vm_segments(*final(vm)) == segs0
                    &&& final(scope).view_map() == st0
                },
                HintV::DivMod { lhs, rhs, quotient, remainder } => {
                    &&& (r matches Ok(_) ==> exists|lv: int, rv: int|
                        {
                            &&& eval_res(ints0, rels0, ap, fp, lhs) == Some(lv)
                            &&& eval_res(ints0, rels0, ap, fp, rhs) == Some(rv)
                            &&& rv != 0
                            &&& vm_ints(*final(vm)) == ints0.insert(
                                cell_addr(ap, fp, quotient),
                                trunc_div(lv, rv) % prime(),
                            ).insert(cell_addr(ap, fp, remainder), trunc_rem(lv, rv) % prime())
                        })
                    &&& (res_resolvable(ints0, rels0, ap, fp, lhs) && res_resolvable(
                        ints0,
                        rels0,
                        ap,
                        fp,
                        rhs,
                    ) && !(eval_res(ints0, rels0, ap, fp, rhs) == Some(0int)) && cell_writable(
                        ints0,
                        rels0,
                        segs0,
                        vals0,
                        ap,
                        fp,
                        quotient,
                    ) && cell_writable(ints0, rels0, segs0, vals0, ap, fp, remainder)
                        && cell_addr(ap, fp, quotient) != cell_addr(ap, fp, remainder)) ==> r
                        is Ok
                    &&& (res_resolvable(ints0, rels0, ap, fp, lhs) && res_resolvable(
                        ints0,
                        rels0,
                        ap,
                        fp,
                        rhs,
                    ) && eval_res(ints0, rels0, ap, fp, rhs) == Some(0int)) ==> r == Err::<
                        (),
                        HintExecError,
                    >(HintExecError::DivisionByZero)
                    &&& (r == Err::<(), HintExecError>(HintExecError::DivisionByZero)
                        ==> eval_res(ints0, rels0, ap, fp, rhs) == Some(0int))
                    &&& vm_rels(*final(vm)) == rels0
                    &&& vm_segments(*final(vm)) == segs0
                    &&& final(scope).view_map() == st0
                },
                HintV::SystemCall { system } => {
                    &&& (r matches Ok(_) ==> syscall_post(
                        system,
                        ints0,
                        rels0,
                        ap,
                        fp,
                        st0,
                        vm_ints(*final(vm)),
                        final(scope).view_map(),
                    ))
                    &&& (!has_system_shape(system) ==> r == Err::<(), HintExecError>(
                        HintExecError::IllegalSystemPointer,
                    ))
                    &&& (r == Err::<(), HintExecError>(HintExecError::IllegalSystemPointer)
                        ==> !has_system_shape(system))
                    &&& (r == Err::<(), HintExecError>(HintExecError::NotImplemented)
                        ==> eval_deref2(
                        ints0,
                        rels0,
                        ap,
                        fp,
                        system_cell(system),
                        system_boff(system),
                    ) == Some(be_value(call_contract_sel())))
                    &&& (r == Err::<(), HintExecError>(HintExecError::UnknownSelector)
                        ==> (eval_deref2(
                        ints0,
                        rels0,
                        ap,
                        fp,
                        system_cell(system),
                        system_boff(system),
                    ) matches Some(sel) && sel != be_value(storage_write_sel()) && sel != be_value(
                        storage_read_sel(),
                    ) && sel != be_value(call_contract_sel())))
                    &&& ((has_system_shape(system) && deref2_resolvable(
                        ints0,
                        rels0,
                        ap,
                        fp,
                        system_cell(system),
                        system_boff(system),
                    ) && eval_deref2(
                        ints0,
                        rels0,
                        ap,
                        fp,
                        system_cell(system),
                        system_boff(system),
                    ) == Some(be_value(storage_write_sel())) && write_frame_ready(
                        ints0,
                        rels0,
                        segs0,
                        vals0,
                        ap,
                        fp,
                        system_cell(system),
                        system_boff(system),
                    )) ==> r is Ok)
                    &&& ((has_system_shape(system) && deref2_resolvable(
                        ints0,
                        rels0,
                        ap,
                        fp,
                        system_cell(system),
                        system_boff(system),
                    ) && eval_deref2(
                        ints0,
                        rels0,
                        ap,
                        fp,
                        system_cell(system),
                        system_boff(system),
                    ) == Some(be_value(storage_read_sel())) && read_frame_ready(
                        ints0,
                        rels0,
                        segs0,
                        vals0,
                        ap,
                        fp,
                        system_cell(system),
                        system_boff(system),
                    )) ==> r is Ok)
                    &&& ((has_system_shape(system) && deref2_resolvable(
                        ints0,
                        rels0,
                        ap,
                        fp,
                        system_cell(system),
                        system_boff(system),
                    )) ==> (eval_deref2(
                        ints0,
                        rels0,
                        ap,
                        fp,
                        system_cell(system),
                        system_boff(system),
                    ) matches Some(sel) ==> {
                        &&& (sel == be_value(call_contract_sel()) ==> r == Err::<
                            (),
                            HintExecError,
                        >(HintExecError::NotImplemented))
                        &&& ((sel != be_value(storage_write_sel()) && sel != be_value(
                            storage_read_sel(),
                        ) && sel != be_value(call_contract_sel())) ==> r == Err::<
                            (),
                            HintExecError,
                        >(HintExecError::UnknownSelector))
                    }))
                    &&& vm_rels(*final(vm)) == rels0
                    &&& vm_segments(*final(vm)) == segs0
                },
                _ => {
                    &&& r == Err::<(), HintExecError>(HintExecError::NotImplemented)
                    &&& vm_ints(*final(vm)) == ints0
                    &&& vm_rels(*final(vm)) == rels0
                    &&& final(scope).view_map() == st0
                },
            }
        }),
{
    match hint {
        Hint::AllocSegment { dst } => {
            let segment = vm_add_segment(vm);
            let addr = match cell_ref_to_relocatable(dst, vm) {
                Ok(a) => a,
                Err(e) => {
                    return Err(e);
                },
            };
            vm_insert_rel(vm, addr, segment)?;
            Ok(())
        },
        Hint::TestLessThan { lhs, rhs, dst } => {
            let lhs_val = get_val(vm, lhs)?;
            let rhs_val = get_val(vm, rhs)?;
            let out: num_bigint::BigInt = if big_lt(&lhs_val, &rhs_val) {
                big_from_u64(1)
            } else {
                big_from_u64(0)
            };
            let addr = cell_ref_to_relocatable(dst, vm)?;
            vm_insert_int(vm, addr, &out)?;
            proof {
                crate::bigint::lemma_small_mod_prime();
            }
            Ok(())
        },
        Hint::TestLessThanOrEqual { lhs, rhs, dst } => {
            let lhs_val = get_val(vm, lhs)?;
            let rhs_val = get_val(vm, rhs)?;
            let out: num_bigint::BigInt = if big_le(&lhs_val, &rhs_val) {
                big_from_u64(1)
            } else {
                big_from_u64(0)
            };
            let addr = cell_ref_to_relocatable(dst, vm)?;
            vm_insert_int(vm, addr, &out)?;
            proof {
                crate::bigint::lemma_small_mod_prime();
            }
            Ok(())
        },
        Hint::DivMod { lhs, rhs, quotient, remainder } => {
            let lhs_val = get_val(vm, lhs)?;
            let rhs_val = get_val(vm, rhs)?;
            if big_is_zero(&rhs_val) {
                return Err(HintExecError::DivisionByZero);
            }
            let q = crate::bigint::big_div(&lhs_val, &rhs_val);
            let m = crate::bigint::big_rem(&lhs_val, &rhs_val);
            let q_addr = cell_ref_to_relocatable(quotient, vm)?;
            vm_insert_int(vm, q_addr, &q)?;
            let m_addr = cell_ref_to_relocatable(remainder, vm)?;
            vm_insert_int(vm, m_addr, &m)?;
            Ok(())
        },
        Hint::SystemCall { system } => execute_system_call(system, vm, scope),
        Hint::AllocDictFeltTo { .. } => Err(HintExecError::NotImplemented),
        Hint::DictFeltToRead { .. } => Err(HintExecError::NotImplemented),
        Hint::DictFeltToWrite { .. } => Err(HintExecError::NotImplemented),
        Hint::EnterScope => Err(HintExecError::NotImplemented),
        Hint::ExitScope => Err(HintExecError::NotImplemented),
        Hint::DictSquashHints { .. } => Err(HintExecError::NotImplemented),
        Hint::RandomEcPoint { .. } => Err(HintExecError::NotImplemented),
    }
}

/// Runs one system call: reads the selector behind the system pointer and
/// follows the storage rules against the frame the pointer names.
fn execute_system_call(
    system: &ResOperand,
    vm: &mut cairo_vm::vm::vm_core::VirtualMachine,
    scope: &mut StarknetExecScope,
) -> (r: Result<(), HintExecError>)
    requires
        old(scope).wf(),
    ensures
        final(scope).wf(),
        vm_rels(*final(vm)) == vm_rels(*old(vm)),
        vm_segments(*final(vm)) == vm_segments(*old(vm)),
        r matches Ok(_) ==> syscall_post(
            crate::operand::res_view(*system),
            vm_ints(*old(vm)),
            vm_rels(*old(vm)),
            vm_ap(*old(vm)),
            vm_fp(*old(vm)),
            old(scope).view_map(),
            vm_ints(*final(vm)),
            final(scope).view_map(),
        ),
        !has_system_shape(crate::operand::res_view(*system)) ==> r == Err::<(), HintExecError>(
            HintExecError::IllegalSystemPointer,
        ),
        r == Err::<(), HintExecError>(HintExecError::IllegalSystemPointer) ==> !has_system_shape(
            crate::operand::res_view(*system),
        ),
        r == Err::<(), HintExecError>(HintExecError::NotImplemented) ==> eval_deref2(
            vm_ints(*old(vm)),
            vm_rels(*old(vm)),
            vm_ap(*old(vm)),
            vm_fp(*old(vm)),
            system_cell(crate::operand::res_view(*system)),
            system_boff(crate::operand::res_view(*system)),
        ) == Some(be_value(call_contract_sel())),
        r == Err::<(), HintExecError>(HintExecError::UnknownSelector) ==> (eval_deref2(
            vm_ints(*old(vm)),
            vm_rels(*old(vm)),
            vm_ap(*old(vm)),
            vm_fp(*old(vm)),
            system_cell(crate::operand::res_view(*system)),
            system_boff(crate::operand::res_view(*system)),
        ) matches Some(sel) && sel != be_value(storage_write_sel()) && sel != be_value(
            storage_read_sel(),
        ) && sel != be_value(call_contract_sel())),
        (has_system_shape(crate::operand::res_view(*system)) && deref2_resolvable(
            vm_ints(*old(vm)),
            vm_rels(*old(vm)),
            vm_ap(*old(vm)),
            vm_fp(*old(vm)),
            system_cell(crate::operand::res_view(*system)),
            system_boff(crate::operand::res_view(*system)),
        ) && eval_deref2(
            vm_ints(*old(vm)),
            vm_rels(*old(vm)),
            vm_ap(*old(vm)),
            vm_fp(*old(vm)),
            system_cell(crate::operand::res_view(*system)),
            system_boff(crate::operand::res_view(*system)),
        ) == Some(be_value(storage_write_sel())) && write_frame_ready(
            vm_ints(*old(vm)),
            vm_rels(*old(vm)),
            vm_segments(*old(vm)),
            vm_validated_segments(*old(vm)),
            vm_ap(*old(vm)),
            vm_fp(*old(vm)),
            system_cell(crate::operand::res_view(*system)),
            system_boff(crate::operand::res_view(*system)),
        )) ==> r is Ok,
        (has_system_shape(crate::operand::res_view(*system)) && deref2_resolvable(
            vm_ints(*old(vm)),
            vm_rels(*old(vm)),
            vm_ap(*old(vm)),
            vm_fp(*old(vm)),
            system_cell(crate::operand::res_view(*system)),
            system_boff(crate::operand::res_view(*system)),
        ) && eval_deref2(
            vm_ints(*old(vm)),
            vm_rels(*old(vm)),
            vm_ap(*old(vm)),
            vm_fp(*old(vm)),
            system_cell(crate::operand::res_view(*system)),
            system_boff(crate::operand::res_view(*system)),
        ) == Some(be_value(storage_read_sel())) && read_frame_ready(
            vm_ints(*old(vm)),
            vm_rels(*old(vm)),
            vm_segments(*old(vm)),
            vm_validated_segments(*old(vm)),
            vm_ap(*old(vm)),
            vm_fp(*old(vm)),
            system_cell(crate::operand::res_view(*system)),
            system_boff(crate::operand::res_view(*system)),
        )) ==> r is Ok,

        (has_system_shape(crate::operand::res_view(*system)) && deref2_resolvable(
            vm_ints(*old(vm)),
            vm_rels(*old(vm)),
            vm_ap(*old(vm)),
            vm_fp(*old(vm)),
            system_cell(crate::operand::res_view(*system)),
            system_boff(crate::operand::res_view(*system)),
        )) ==> (eval_deref2(
            vm_ints(*old(vm)),
            vm_rels(*old(vm)),
            vm_ap(*old(vm)),
            vm_fp(*old(vm)),
            system_cell(crate::operand::res_view(*system)),
            system_boff(crate::operand::res_view(*system)),
        ) matches Some(sel) ==> {
            &&& (sel == be_value(call_contract_sel()) ==> r == Err::<(), HintExecError>(
                HintExecError::NotImplemented,
            ))
            &&& ((sel != be_value(storage_write_sel()) && sel != be_value(storage_read_sel())
                && sel != be_value(call_contract_sel())) ==> r == Err::<(), HintExecError>(
                HintExecError::UnknownSelector,
            ))
        }),
{
    let (cell, base_offset): (&CellRef, num_bigint::BigInt) = match system {
        ResOperand::Deref(cell) => (cell, big_from_u64(0)),
        ResOperand::BinOp(b) => {
            match (&b.op, &b.b) {
                (Operation::Add, DerefOrImmediate::Immediate(k)) => (&b.a, big_clone(k)),
                _ => {
                    return Err(HintExecError::IllegalSystemPointer);
                },
            }
        },
        _ => {
            return Err(HintExecError::IllegalSystemPointer);
        },
    };
    proof {
        lemma_selectors_distinct();
        assert(*cell == system_cell(crate::operand::res_view(*system)));
        assert(big_value(base_offset) == system_boff(crate::operand::res_view(*system)));
    }
    let selector = get_double_deref_val(vm, cell, &base_offset)?;
    let write_sel = storage_write_selector();
    let read_sel = storage_read_selector();
    let call_sel = call_contract_selector();
    if selector_matches(&selector, write_sel.as_slice()) {
        execute_storage_write(cell, &base_offset, vm, scope)?;
        proof {
            reveal(syscall_post);
            assert(system_shape(
                crate::operand::res_view(*system),
                *cell,
                big_value(base_offset),
            ));
        }
        Ok(())
    } else if selector_matches(&selector, read_sel.as_slice()) {
        execute_storage_read(cell, &base_offset, vm, scope)?;
        proof {
            reveal(syscall_post);
            assert(system_shape(
                crate::operand::res_view(*system),
                *cell,
                big_value(base_offset),
            ));
        }
        Ok(())
    } else if selector_matches(&selector, call_sel.as_slice()) {
        Err(HintExecError::NotImplemented)
    } else {
        Err(HintExecError::UnknownSelector)
    }
}

/// Writes one value into the simulated storage, as the write outcome of
/// the frame at `cell` plus `base_offset` says.
#[verifier::rlimit(100)]
fn execute_storage_write(
    cell: &CellRef,
    base_offset: &num_bigint::BigInt,
    vm: &mut cairo_vm::vm::vm_core::VirtualMachine,
    scope: &mut StarknetExecScope,
) -> (r: Result<(), HintExecError>)
    requires
        old(scope).wf(),
    ensures
        final(scope).wf(),
        vm_rels(*final(vm)) == vm_rels(*old(vm)),
        vm_segments(*final(vm)) == vm_segments(*old(vm)),
        r matches Ok(_) ==> write_syscall_post(
                vm_ints(*old(vm)),
                vm_rels(*old(vm)),
                vm_ap(*old(vm)),
                vm_fp(*old(vm)),
                old(scope).view_map(),
                *cell,
                big_value(*base_offset),
                vm_ints(*final(vm)),
                final(scope).view_map(),
            ),
        write_frame_ready(
            vm_ints(*old(vm)),
            vm_rels(*old(vm)),
            vm_segments(*old(vm)),
            vm_validated_segments(*old(vm)),
            vm_ap(*old(vm)),
            vm_fp(*old(vm)),
            *cell,
            big_value(*base_offset),
        ) ==> r is Ok,
        r matches Err(e) ==> e == HintExecError::Memory || e == HintExecError::Math,
{
    let one = big_from_u64(1);
    let gas_counter = {
        let o = big_add(base_offset, &one);
        get_double_deref_val(vm, cell, &o)?
    };
    let cost = big_from_u64(WRITE_GAS_SIM_COST);
    let gas_counter_updated_ptr = {
        let o = big_add(base_offset, &big_from_u64(5));
        get_ptr(vm, cell, &o)?
    };
    let revert_reason_ptr = {
        let o = big_add(base_offset, &big_from_u64(6));
        get_ptr(vm, cell, &o)?
    };
    let addr_domain = {
        let o = big_add(base_offset, &big_from_u64(2));
        get_double_deref_val(vm, cell, &o)?
    };
    if big_is_zero(&addr_domain) && big_le(&cost, &gas_counter) {
        let addr = {
            let o = big_add(base_offset, &big_from_u64(3));
            get_double_deref_val(vm, cell, &o)?
        };
        let value = {
            let o = big_add(base_offset, &big_from_u64(4));
            get_double_deref_val(vm, cell, &o)?
        };
        let ghost g = big_value(gas_counter);
        let ghost d = big_value(addr_domain);
        let (gas_updated, revert) = storage_write_syscall(
            scope,
            &gas_counter,
            &addr_domain,
            addr,
            value,
        );
        vm_insert_int(vm, gas_counter_updated_ptr, &gas_updated)?;
        vm_insert_int(vm, revert_reason_ptr, &revert)?;
        proof {
            reveal(write_syscall_post);
            let ints0 = vm_ints(*old(vm));
            let rels0 = vm_rels(*old(vm));
            let apv = vm_ap(*old(vm));
            let fpv = vm_fp(*old(vm));
            let st0 = old(scope).view_map();
            let boff = big_value(*base_offset);
            assert(frame_ptr(rels0, apv, fpv, *cell, boff + 5) == Some(
                rel_key(gas_counter_updated_ptr),
            ));
            assert(frame_ptr(rels0, apv, fpv, *cell, boff + 6) == Some(
                rel_key(revert_reason_ptr),
            ));
            assert(vm_ints(*vm) == ints0.insert(
                rel_key(gas_counter_updated_ptr),
                big_value(gas_updated) % prime(),
            ).insert(rel_key(revert_reason_ptr), big_value(revert) % prime()));
            assert(write_syscall_post(
                ints0,
                rels0,
                apv,
                fpv,
                st0,
                *cell,
                boff,
                vm_ints(*vm),
                scope.view_map(),
            ));
        }
        Ok(())
    } else {
        let zero_addr = big_from_u64(0);
        let zero_value = big_from_u64(0);
        let (gas_updated, revert) = storage_write_syscall(
            scope,
            &gas_counter,
            &addr_domain,
            zero_addr,
            zero_value,
        );
        vm_insert_int(vm, gas_counter_updated_ptr, &gas_updated)?;
        vm_insert_int(vm, revert_reason_ptr, &revert)?;
        proof {
            reveal(write_syscall_post);
            let ints0 = vm_ints(*old(vm));
            let rels0 = vm_rels(*old(vm));
            let apv = vm_ap(*old(vm));
            let fpv = vm_fp(*old(vm));
            let st0 = old(scope).view_map();
            let boff = big_value(*base_offset);
            assert(frame_ptr(rels0, apv, fpv, *cell, boff + 5) == Some(
                rel_key(gas_counter_updated_ptr),
            ));
            assert(frame_ptr(rels0, apv, fpv, *cell, boff + 6) == Some(
                rel_key(revert_reason_ptr),
            ));
            assert(vm_ints(*vm) == ints0.insert(
                rel_key(gas_counter_updated_ptr),
                big_value(gas_updated) % prime(),
            ).insert(rel_key(revert_reason_ptr), big_value(revert) % prime()));
            assert(write_syscall_post(
                ints0,
                rels0,
                apv,
                fpv,
                st0,
                *cell,
                boff,
                vm_ints(*vm),
                scope.view_map(),
            ));
        }
        Ok(())
    }
}

/// Reads one value from the simulated storage, as the read outcome of the
/// frame at `cell` plus `base_offset` says.
#[verifier::rlimit(100)]
fn execute_storage_read(
    cell: &CellRef,
    base_offset: &num_bigint::BigInt,
    vm: &mut cairo_vm::vm::vm_core::VirtualMachine,
    scope: &mut StarknetExecScope,
) -> (r: Result<(), HintExecError>)
    requires
        old(scope).wf(),
    ensures
        final(scope).wf(),
        vm_rels(*final(vm)) == vm_rels(*old(vm)),
        vm_segments(*final(vm)) == vm_segments(*old(vm)),
        r matches Ok(_) ==> read_syscall_post(
                vm_ints(*old(vm)),
                vm_rels(*old(vm)),
                vm_ap(*old(vm)),
                vm_fp(*old(vm)),
                old(scope).view_map(),
                *cell,
                big_value(*base_offset),
                vm_ints(*final(vm)),
                final(scope).view_map(),
            ),
        read_frame_ready(
            vm_ints(*old(vm)),
            vm_rels(*old(vm)),
            vm_segments(*old(vm)),
            vm_validated_segments(*old(vm)),
            vm_ap(*old(vm)),
            vm_fp(*old(vm)),
            *cell,
            big_value(*base_offset),
        ) ==> r is Ok,
        r matches Err(e) ==> e == HintExecError::Memory || e == HintExecError::Math,
{
    let one = big_from_u64(1);
    let gas_counter = {
        let o = big_add(base_offset, &one);
        get_double_deref_val(vm, cell, &o)?
    };
    let cost = big_from_u64(READ_GAS_SIM_COST);
    let addr_domain = {
        let o = big_add(base_offset, &big_from_u64(2));
        get_double_deref_val(vm, cell, &o)?
    };
    let addr = {
        let o = big_add(base_offset, &big_from_u64(3));
        get_double_deref_val(vm, cell, &o)?
    };
    let gas_counter_updated_ptr = {
        let o = big_add(base_offset, &big_from_u64(4));
        get_ptr(vm, cell, &o)?
    };
    let revert_reason_ptr = {
        let o = big_add(base_offset, &big_from_u64(5));
        get_ptr(vm, cell, &o)?
    };
    let ghost g = big_value(gas_counter);
    let ghost d = big_value(addr_domain);
    let ghost a = big_value(addr);
    let (gas_updated, revert, read_value) = storage_read_syscall(
        scope,
        &gas_counter,
        &addr_domain,
        &addr,
    );
    match read_value {
        Some(value) => {
            let result_ptr = {
                let o = big_add(base_offset, &big_from_u64(6));
                get_ptr(vm, cell, &o)?
            };
            vm_insert_int(vm, gas_counter_updated_ptr, &gas_updated)?;
            vm_insert_int(vm, revert_reason_ptr, &revert)?;
            vm_insert_int(vm, result_ptr, &value)?;
            proof {
                reveal(read_syscall_post);
                let ints0 = vm_ints(*old(vm));
                let rels0 = vm_rels(*old(vm));
                let apv = vm_ap(*old(vm));
                let fpv = vm_fp(*old(vm));
                let st0 = old(scope).view_map();
                let boff = big_value(*base_offset);
                assert(frame_ptr(rels0, apv, fpv, *cell, boff + 4) == Some(
                    rel_key(gas_counter_updated_ptr),
                ));
                assert(frame_ptr(rels0, apv, fpv, *cell, boff + 5) == Some(
                    rel_key(revert_reason_ptr),
                ));
                assert(frame_ptr(rels0, apv, fpv, *cell, boff + 6) == Some(rel_key(result_ptr)));
                assert(vm_ints(*vm) == ints0.insert(
                    rel_key(gas_counter_updated_ptr),
                    big_value(gas_updated) % prime(),
                ).insert(rel_key(revert_reason_ptr), big_value(revert) % prime()).insert(
                    rel_key(result_ptr),
                    big_value(value) % prime(),
                ));
                assert(read_syscall_post(
                    ints0,
                    rels0,
                    apv,
                    fpv,
                    st0,
                    *cell,
                    boff,
                    vm_ints(*vm),
                    scope.view_map(),
                ));
            }
            Ok(())
        },
        None => {
            vm_insert_int(vm, gas_counter_updated_ptr, &gas_updated)?;
            vm_insert_int(vm, revert_reason_ptr, &revert)?;
            proof {
                reveal(read_syscall_post);
                let ints0 = vm_ints(*old(vm));
                let rels0 = vm_rels(*old(vm));
                let apv = vm_ap(*old(vm));
                let fpv = vm_fp(*old(vm));
                let st0 = old(scope).view_map();
                let boff = big_value(*base_offset);
                assert(frame_ptr(rels0, apv, fpv, *cell, boff + 4) == Some(
                    rel_key(gas_counter_updated_ptr),
                ));
                assert(frame_ptr(rels0, apv, fpv, *cell, boff + 5) == Some(
                    rel_key(revert_reason_ptr),
                ));
                assert(vm_ints(*vm) == ints0.insert(
                    rel_key(gas_counter_updated_ptr),
                    big_value(gas_updated) % prime(),
                ).insert(rel_key(revert_reason_ptr), big_value(revert) % prime()));
                assert(read_syscall_post(
                    ints0,
                    rels0,
                    apv,
                    fpv,
                    st0,
                    *cell,
                    boff,
                    vm_ints(*vm),
                    scope.view_map(),
                ));
            }
            Ok(())
        },
    }
}

/// The values of a word list.
pub open spec fn words_view(ws: Seq<num_bigint::BigInt>) -> Seq<int> {
    ws.map(|_i: int, w: num_bigint::BigInt| big_value(w))
}

/// The program data the first `k` instructions assemble to: their encoded
/// words, flattened in order.
pub open spec fn flat_data(s: Seq<crate::processor::Instruction>, k: int) -> Seq<int>
    decreases k,
{
    if k <= 0 {
        Seq::empty()
    } else {
        flat_data(s, k - 1) + words_view(s[k - 1].body.words@)
    }
}

/// Flattens the instructions' encoded words into the program's data cells.
pub fn assemble_program_data(instructions: &Vec<crate::processor::Instruction>) -> (r: Vec<
    num_bigint::BigInt,
>)
    ensures
        words_view(r@) == flat_data(instructions@, instructions@.len() as int),
{
    let ghost s = instructions@;
    let mut out: Vec<num_bigint::BigInt> = Vec::new();
    let n: usize = instructions.len();
    let mut k: usize = 0;
    proof {
        assert(words_view(out@) =~= flat_data(s, 0));
    }
    while k < n
        invariant
            s == instructions@,
            n == s.len(),
            k <= n,
            words_view(out@) == flat_data(s, k as int),
        decreases n - k,
    {
        let ghost before = out@;
        let words: &Vec<num_bigint::BigInt> = &instructions[k].body.words;
        let m: usize = words.len();
        let mut j: usize = 0;
        while j < m
            invariant
                s == instructions@,
                k < s.len(),
                words == s[k as int].body.words,
                m == words@.len(),
                j <= m,
                words_view(before) == flat_data(s, k as int),
                out@.len() == before.len() + j,
                forall|t: int| 0 <= t < before.len() ==> out@[t] == before[t],
                forall|t: int|
                    0 <= t < j ==> big_value(#[trigger] out@[before.len() + t]) == big_value(
                        words@[t],
                    ),
            decreases m - j,
        {
            out.push(big_clone(&words[j]));
            j += 1;
        }
        proof {
            assert(words_view(out@) =~= flat_data(s, k + 1)) by {
                assert forall|t: int| 0 <= t < out@.len() implies big_value(out@[t]) == flat_data(
                    s,
                    k + 1,
                )[t] by {
                    if t < before.len() {
                        assert(big_value(out@[t]) == words_view(before)[t]);
                        assert(flat_data(s, k + 1)[t] == flat_data(s, k as int)[t]);
                    } else {
                        let t2 = t - before.len();
                        assert(big_value(out@[before.len() + t2]) == big_value(words@[t2]));
                        assert(big_value(out@[t]) == big_value(
                            s[k as int].body.words@[t - before.len()],
                        ));
                        assert(flat_data(s, k + 1)[t] == words_view(s[k as int].body.words@)[t
                            - before.len()]);
                    }
                }
            }
        }
        k += 1;
    }
    out
}

/// Extraction failures: the request reaches past the relocated memory, or
/// a requested cell was never set.
#[derive(Clone, Copy, Debug, PartialEq, Eq, Structural)]
pub enum ExtractionError {
    OutOfRange,
    MissingValue,
}

/// The last `n` cells ending at `ap`, each of which must be set: the run's
/// return values.
pub fn take_return_values(
    cells: &Vec<Option<num_bigint::BigInt>>,
    ap: usize,
    n: usize,
) -> (r: Result<Vec<num_bigint::BigInt>, ExtractionError>)
    ensures
        r matches Ok(vs) ==> {
            &&& n <= ap <= cells@.len()
            &&& vs@.len() == n
            &&& forall|j: int|
                0 <= j < n ==> (#[trigger] cells@[ap - n + j] matches Some(c) && big_value(
                    vs@[j],
                ) == big_value(c))
        },
        r matches Err(e) ==> {
            ||| (e == ExtractionError::OutOfRange && (ap < n || ap > cells@.len()))
            ||| (e == ExtractionError::MissingValue && exists|j: int|
                0 <= j < n && #[trigger] cells@[ap - n + j] is None)
        },
{
    if ap < n || ap > cells.len() {
        return Err(ExtractionError::OutOfRange);
    }
    let start: usize = ap - n;
    let mut out: Vec<num_bigint::BigInt> = Vec::new();
    let mut j: usize = 0;
    while j < n
        invariant
            n <= ap <= cells@.len(),
            start == ap - n,
            j <= n,
            out@.len() == j,
            forall|t: int|
                0 <= t < j ==> (#[trigger] cells@[start + t] matches Some(c) && big_value(
                    out@[t],
                ) == big_value(c)),
        decreases n - j,
    {
        match &cells[start + j] {
            Some(c) => {
                out.push(big_clone(c));
            },
            None => {
                return Err(ExtractionError::MissingValue);
            },
        }
        j += 1;
    }
    Ok(out)
}

} // verus!
