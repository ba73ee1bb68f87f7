use cairo_vm::types::relocatable::Relocatable;
use cairo_vm::vm::vm_core::VirtualMachine;
use cairo_vm::Felt252;
use num_bigint::BigInt;

use casm_run::hints::Hint;
use casm_run::operand::{CellRef, Register, ResOperand};
use casm_run::run::execute_hint;
use casm_run::scope::StarknetExecScope;

fn ap(offset: i16) -> CellRef {
    CellRef {
        register: Register::AP,
        offset,
    }
}

fn rel(segment: isize, offset: usize) -> Relocatable {
    Relocatable {
        segment_index: segment,
        offset,
    }
}

/// A machine whose execution segment points cells 0.. at syscall frames in
/// their own segments, one frame per pointer cell.
fn vm_with_frames(frames: &[Vec<Felt252>]) -> VirtualMachine {
    let mut vm = VirtualMachine::new(false, false);
    vm.add_memory_segment();
    vm.add_memory_segment();
    for (i, frame) in frames.iter().enumerate() {
        let base = vm.add_memory_segment();
        vm.insert_value(rel(1, i), base).unwrap();
        for (j, value) in frame.iter().enumerate() {
            vm.insert_value(rel(base.segment_index, j), *value).unwrap();
        }
    }
    vm
}

fn felt(v: u64) -> Felt252 {
    Felt252::from(v)
}

fn selector(name: &str) -> Felt252 {
    Felt252::from_bytes_be_slice(name.as_bytes())
}

fn int_at(vm: &VirtualMachine, segment: isize, offset: usize) -> BigInt {
    vm.get_integer(rel(segment, offset)).unwrap().to_bigint()
}

#[test]
fn storage_round_trip() {
    // First frame: a write of 42 to address 7 with 2000 gas; second frame:
    // a read of address 7 with 500 gas.
    let vm_frames = vec![
        vec![selector("StorageWrite"), felt(2000), felt(0), felt(7), felt(42)],
        vec![selector("StorageRead"), felt(500), felt(0), felt(7)],
    ];
    let mut vm = vm_with_frames(&vm_frames);
    let mut scope = StarknetExecScope::new();
    execute_hint(
        &Hint::SystemCall {
            system: ResOperand::Deref(ap(0)),
        },
        &mut vm,
        &mut scope,
    )
    .unwrap();
    assert_eq!(int_at(&vm, 2, 5), BigInt::from(1000));
    assert_eq!(int_at(&vm, 2, 6), BigInt::from(0));
    execute_hint(
        &Hint::SystemCall {
            system: ResOperand::Deref(ap(1)),
        },
        &mut vm,
        &mut scope,
    )
    .unwrap();
    assert_eq!(int_at(&vm, 3, 4), BigInt::from(400));
    assert_eq!(int_at(&vm, 3, 5), BigInt::from(0));
    assert_eq!(int_at(&vm, 3, 6), BigInt::from(42));
}

#[test]
fn storage_read_unwritten_address_returns_zero() {
    let vm_frames = vec![vec![
        selector("StorageRead"),
        felt(500),
        felt(0),
        felt(1234),
    ]];
    let mut vm = vm_with_frames(&vm_frames);
    let mut scope = StarknetExecScope::new();
    execute_hint(
        &Hint::SystemCall {
            system: ResOperand::Deref(ap(0)),
        },
        &mut vm,
        &mut scope,
    )
    .unwrap();
    assert_eq!(int_at(&vm, 2, 4), BigInt::from(400));
    assert_eq!(int_at(&vm, 2, 5), BigInt::from(0));
    assert_eq!(int_at(&vm, 2, 6), BigInt::from(0));
}

#[test]
fn storage_write_reverts_on_foreign_domain() {
    // A write to domain 1, then a read of the same address: the write must
    // leave the gas counter alone, report a revert, and store nothing.
    let vm_frames = vec![
        vec![selector("StorageWrite"), felt(2000), felt(1), felt(7), felt(42)],
        vec![selector("StorageRead"), felt(500), felt(0), felt(7)],
    ];
    let mut vm = vm_with_frames(&vm_frames);
    let mut scope = StarknetExecScope::new();
    execute_hint(
        &Hint::SystemCall {
            system: ResOperand::Deref(ap(0)),
        },
        &mut vm,
        &mut scope,
    )
    .unwrap();
    assert_eq!(int_at(&vm, 2, 5), BigInt::from(2000));
    assert_eq!(int_at(&vm, 2, 6), BigInt::from(1));
    execute_hint(
        &Hint::SystemCall {
            system: ResOperand::Deref(ap(1)),
        },
        &mut vm,
        &mut scope,
    )
    .unwrap();
    assert_eq!(int_at(&vm, 3, 6), BigInt::from(0));
}

#[test]
fn storage_gas_boundaries() {
    // A write with exactly the write cost succeeds and leaves nothing; one
    // gas short reverts. The same at the read cost.
    let vm_frames = vec![
        vec![selector("StorageWrite"), felt(1000), felt(0), felt(7), felt(42)],
        vec![selector("StorageWrite"), felt(999), felt(0), felt(8), felt(43)],
        vec![selector("StorageRead"), felt(100), felt(0), felt(7)],
        vec![selector("StorageRead"), felt(99), felt(0), felt(7)],
    ];
    let mut vm = vm_with_frames(&vm_frames);
    let mut scope = StarknetExecScope::new();
    for i in 0..4i16 {
        execute_hint(
            &Hint::SystemCall {
                system: ResOperand::Deref(ap(i)),
            },
            &mut vm,
            &mut scope,
        )
        .unwrap();
    }
    assert_eq!(int_at(&vm, 2, 5), BigInt::from(0));
    assert_eq!(int_at(&vm, 2, 6), BigInt::from(0));
    assert_eq!(int_at(&vm, 3, 5), BigInt::from(999));
    assert_eq!(int_at(&vm, 3, 6), BigInt::from(1));
    assert_eq!(int_at(&vm, 4, 4), BigInt::from(0));
    assert_eq!(int_at(&vm, 4, 5), BigInt::from(0));
    assert_eq!(int_at(&vm, 4, 6), BigInt::from(42));
    assert_eq!(int_at(&vm, 5, 4), BigInt::from(99));
    assert_eq!(int_at(&vm, 5, 5), BigInt::from(1));
}

#[test]
fn system_call_with_offset_pointer() {
    // The system operand may also be a cell plus an immediate: the frame
    // then starts past the pointed-to address.
    let vm_frames = vec![vec![
        felt(0),
        felt(0),
        selector("StorageWrite"),
        felt(2000),
        felt(0),
        felt(9),
        felt(77),
    ]];
    let mut vm = vm_with_frames(&vm_frames);
    let mut scope = StarknetExecScope::new();
    execute_hint(
        &Hint::SystemCall {
            system: ResOperand::BinOp(casm_run::operand::BinOpOperand {
                op: casm_run::operand::Operation::Add,
                a: ap(0),
                b: casm_run::operand::DerefOrImmediate::Immediate(BigInt::from(2)),
            }),
        },
        &mut vm,
        &mut scope,
    )
    .unwrap();
    assert_eq!(int_at(&vm, 2, 7), BigInt::from(1000));
    assert_eq!(int_at(&vm, 2, 8), BigInt::from(0));
}

#[test]
fn unknown_selector_is_fatal() {
    let vm_frames = vec![vec![selector("Nonsense"), felt(2000), felt(0)]];
    let mut vm = vm_with_frames(&vm_frames);
    let mut scope = StarknetExecScope::new();
    let r = execute_hint(
        &Hint::SystemCall {
            system: ResOperand::Deref(ap(0)),
        },
        &mut vm,
        &mut scope,
    );
    assert!(r.is_err());
}

#[test]
fn reserved_hints_are_not_implemented() {
    let mut vm = VirtualMachine::new(false, false);
    let mut scope = StarknetExecScope::new();
    assert!(execute_hint(&Hint::EnterScope, &mut vm, &mut scope).is_err());
    assert!(execute_hint(&Hint::ExitScope, &mut vm, &mut scope).is_err());
    assert!(
        execute_hint(&Hint::AllocDictFeltTo { dst: ap(0) }, &mut vm, &mut scope).is_err()
    );
}
