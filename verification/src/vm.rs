use vstd::prelude::*;
use crate::bigint::{big_value, prime};

verus! {

#[verifier::external_type_specification]
pub struct ExRelocatable(cairo_vm::types::relocatable::Relocatable);

#[verifier::external_type_specification]
#[verifier::external_body]
pub struct ExVirtualMachine(cairo_vm::vm::vm_core::VirtualMachine);

#[verifier::external_type_specification]
#[verifier::external_body]
pub struct ExMathError(cairo_vm::types::errors::math_errors::MathError);

/// Errors the hint evaluator reports; machine-level failures arrive as
/// `Memory` or `Math`.
#[derive(Clone, Copy, Debug, PartialEq, Eq, Structural)]
pub enum HintExecError {
    Memory,
    Math,
    NotImplemented,
    IllegalSystemPointer,
    UnknownSelector,
    DivisionByZero,
}

/// An address as a pair: segment and offset.
pub open spec fn rel_key(r: cairo_vm::types::relocatable::Relocatable) -> (int, int) {
    (r.segment_index as int, r.offset as int)
}

/// The machine's integer cells: address to field value.
pub uninterp spec fn vm_ints(vm: cairo_vm::vm::vm_core::VirtualMachine) -> Map<(int, int), int>;

/// The machine's pointer cells: address to stored address.
pub uninterp spec fn vm_rels(vm: cairo_vm::vm::vm_core::VirtualMachine) -> Map<
    (int, int),
    (int, int),
>;

/// The machine's allocation pointer.
pub uninterp spec fn vm_ap(vm: cairo_vm::vm::vm_core::VirtualMachine) -> (int, int);

/// The machine's frame pointer.
pub uninterp spec fn vm_fp(vm: cairo_vm::vm::vm_core::VirtualMachine) -> (int, int);

/// How many memory segments the machine holds.
pub uninterp spec fn vm_segments(vm: cairo_vm::vm::vm_core::VirtualMachine) -> int;

/// The segments whose cells the machine checks against a validation rule
/// when they are written: the segments the builtin runners own.
pub uninterp spec fn vm_validated_segments(vm: cairo_vm::vm::vm_core::VirtualMachine) -> Set<int>;

/// Relies on `VirtualMachine::get_ap`: the allocation pointer.
#[verifier::external_body]
pub fn vm_get_ap(vm: &cairo_vm::vm::vm_core::VirtualMachine) -> (r:
    cairo_vm::types::relocatable::Relocatable)
    ensures
        rel_key(r) == vm_ap(*vm),
{
    vm.get_ap()
}

/// Relies on `VirtualMachine::get_fp`: the frame pointer.
#[verifier::external_body]
pub fn vm_get_fp(vm: &cairo_vm::vm::vm_core::VirtualMachine) -> (r:
    cairo_vm::types::relocatable::Relocatable)
    ensures
        rel_key(r) == vm_fp(*vm),
{
    vm.get_fp()
}

/// Relies on `VirtualMachine::add_memory_segment`: a fresh segment begins
/// at offset zero under the next free index; nothing else moves, and no
/// validation rule appears.
#[verifier::external_body]
pub fn vm_add_segment(vm: &mut cairo_vm::vm::vm_core::VirtualMachine) -> (r:
    cairo_vm::types::relocatable::Relocatable)
    ensures
        r.segment_index as int == vm_segments(*old(vm)),
        r.offset == 0,
        vm_segments(*final(vm)) == vm_segments(*old(vm)) + 1,
        vm_ints(*final(vm)) == vm_ints(*old(vm)),
        vm_rels(*final(vm)) == vm_rels(*old(vm)),
        vm_ap(*final(vm)) == vm_ap(*old(vm)),
        vm_fp(*final(vm)) == vm_fp(*old(vm)),
        vm_validated_segments(*final(vm)) == vm_validated_segments(*old(vm)),
{
    vm.add_memory_segment()
}

/// Relies on `VirtualMachine::get_integer` and `Felt252::to_bigint`: the
/// field value a cell holds, canonically below the modulus; the read
/// succeeds exactly when the cell holds an integer.
#[verifier::external_body]
pub fn vm_get_int(
    vm: &cairo_vm::vm::vm_core::VirtualMachine,
    addr: cairo_vm::types::relocatable::Relocatable,
) -> (r: Result<num_bigint::BigInt, HintExecError>)
    ensures
        r matches Ok(v) ==> big_value(v) == vm_ints(*vm)[rel_key(addr)] && 0 <= big_value(v)
            < prime(),
        r is Ok <==> vm_ints(*vm).contains_key(rel_key(addr)),
        r matches Err(e) ==> e == HintExecError::Memory,
{
    match vm.get_integer(addr) {
        Ok(v) => Ok(v.into_owned().to_bigint()),
        Err(_) => Err(HintExecError::Memory),
    }
}

/// Relies on `VirtualMachine::get_relocatable`: the address a cell holds;
/// the read succeeds exactly when the cell holds an address.
#[verifier::external_body]
pub fn vm_get_rel(
    vm: &cairo_vm::vm::vm_core::VirtualMachine,
    addr: cairo_vm::types::relocatable::Relocatable,
) -> (r: Result<cairo_vm::types::relocatable::Relocatable, HintExecError>)
    ensures
        r matches Ok(p) ==> rel_key(p) == vm_rels(*vm)[rel_key(addr)],
        r is Ok <==> vm_rels(*vm).contains_key(rel_key(addr)),
        r matches Err(e) ==> e == HintExecError::Memory,
{
    match vm.get_relocatable(addr) {
        Ok(p) => Ok(p),
        Err(_) => Err(HintExecError::Memory),
    }
}

/// Relies on `VirtualMachine::insert_value` and `Felt252::from(&BigInt)`:
/// writing an integer stores its value reduced into the field. Memory is
/// write-once and validates after writing: the write fails on a differing
/// occupied cell or an unallocated segment (leaving memory as it was), or
/// when a validation rule of the target's segment rejects the value
/// (leaving the cell written). Into a vacant cell of an allocated,
/// rule-free segment it succeeds.
#[verifier::external_body]
pub fn vm_insert_int(
    vm: &mut cairo_vm::vm::vm_core::VirtualMachine,
    addr: cairo_vm::types::relocatable::Relocatable,
    v: &num_bigint::BigInt,
) -> (r: Result<(), HintExecError>)
    ensures
        r matches Ok(_) ==> vm_ints(*final(vm)) == vm_ints(*old(vm)).insert(
            rel_key(addr),
            big_value(*v) % prime(),
        ),
        r matches Err(_) ==> vm_ints(*final(vm)) == vm_ints(*old(vm)) || vm_ints(*final(vm))
            == vm_ints(*old(vm)).insert(rel_key(addr), big_value(*v) % prime()),
        vm_rels(*final(vm)) == vm_rels(*old(vm)),
        ({
            &&& !vm_ints(*old(vm)).contains_key(rel_key(addr))
            &&& !vm_rels(*old(vm)).contains_key(rel_key(addr))
            &&& 0 <= addr.segment_index < vm_segments(*old(vm))
            &&& !vm_validated_segments(*old(vm)).contains(addr.segment_index as int)
        }) ==> r is Ok,
        r matches Err(e) ==> e == HintExecError::Memory,
        vm_ap(*final(vm)) == vm_ap(*old(vm)),
        vm_fp(*final(vm)) == vm_fp(*old(vm)),
        vm_segments(*final(vm)) == vm_segments(*old(vm)),
        vm_validated_segments(*final(vm)) == vm_validated_segments(*old(vm)),
{
    match vm.insert_value(addr, cairo_vm::Felt252::from(v)) {
        Ok(_) => Ok(()),
        Err(_) => Err(HintExecError::Memory),
    }
}

/// Relies on `VirtualMachine::insert_value`: writing an address stores it.
/// Memory is write-once and validates after writing: the write fails on a
/// differing occupied cell or an unallocated segment (leaving memory as it
/// was), or when a validation rule of the target's segment rejects the
/// value (leaving the cell written). Into a vacant cell of an allocated,
/// rule-free segment it succeeds.
#[verifier::external_body]
pub fn vm_insert_rel(
    vm: &mut cairo_vm::vm::vm_core::VirtualMachine,
    addr: cairo_vm::types::relocatable::Relocatable,
    v: cairo_vm::types::relocatable::Relocatable,
) -> (r: Result<(), HintExecError>)
    ensures
        r matches Ok(_) ==> vm_rels(*final(vm)) == vm_rels(*old(vm)).insert(
            rel_key(addr),
            rel_key(v),
        ),
        r matches Err(_) ==> vm_rels(*final(vm)) == vm_rels(*old(vm)) || vm_rels(*final(vm))
            == vm_rels(*old(vm)).insert(rel_key(addr), rel_key(v)),
        vm_ints(*final(vm)) == vm_ints(*old(vm)),
        ({
            &&& !vm_ints(*old(vm)).contains_key(rel_key(addr))
            &&& !vm_rels(*old(vm)).contains_key(rel_key(addr))
            &&& 0 <= addr.segment_index < vm_segments(*old(vm))
            &&& !vm_validated_segments(*old(vm)).contains(addr.segment_index as int)
        }) ==> r is Ok,
        r matches Err(e) ==> e == HintExecError::Memory,
        vm_ap(*final(vm)) == vm_ap(*old(vm)),
        vm_fp(*final(vm)) == vm_fp(*old(vm)),
        vm_segments(*final(vm)) == vm_segments(*old(vm)),
        vm_validated_segments(*final(vm)) == vm_validated_segments(*old(vm)),
{
    match vm.insert_value(addr, v) {
        Ok(_) => Ok(()),
        Err(_) => Err(HintExecError::Memory),
    }
}

/// Relies on `Add<i32> for Relocatable`: the offset moves by the summand
/// within the same segment; the addition fails exactly when the sum leaves
/// the offset's range.
#[verifier::external_body]
pub fn rel_add_i32(r: cairo_vm::types::relocatable::Relocatable, off: i32) -> (r2: Result<
    cairo_vm::types::relocatable::Relocatable,
    HintExecError,
>)
    ensures
        r2 matches Ok(p) ==> p.segment_index == r.segment_index && p.offset as int == r.offset
            + off,
        r2 is Ok <==> 0 <= r.offset + off <= usize::MAX,
        r2 matches Err(e) ==> e == HintExecError::Math,
{
    match r + off {
        Ok(p) => Ok(p),
        Err(_) => Err(HintExecError::Math),
    }
}

/// Relies on `Add<&Felt252> for Relocatable` and `Felt252::from(&BigInt)`:
/// the offset moves by the summand modulo the field's modulus, within the
/// same segment; the addition fails exactly when the moved offset leaves
/// the offset's range.
#[verifier::external_body]
pub fn rel_add_big(
    r: cairo_vm::types::relocatable::Relocatable,
    off: &num_bigint::BigInt,
) -> (r2: Result<cairo_vm::types::relocatable::Relocatable, HintExecError>)
    ensures
        r2 matches Ok(p) ==> p.segment_index == r.segment_index && p.offset as int == (r.offset
            + big_value(*off)) % prime(),
        r2 is Ok <==> (r.offset + big_value(*off)) % prime() <= usize::MAX,
        r2 matches Err(e) ==> e == HintExecError::Math,
{
    match r + &cairo_vm::Felt252::from(off) {
        Ok(p) => Ok(p),
        Err(_) => Err(HintExecError::Math),
    }
}

} // verus!
