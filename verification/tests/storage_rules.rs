use num_bigint::BigInt;

use casm_run::scope::{storage_read_syscall, storage_write_syscall, StarknetExecScope};

fn big(v: u64) -> BigInt {
    BigInt::from(v)
}

#[test]
fn write_then_read_returns_written_value() {
    let mut scope = StarknetExecScope::new();
    let (gas_left, revert) =
        storage_write_syscall(&mut scope, &big(2000), &big(0), big(7), big(42));
    assert_eq!(gas_left, big(1000));
    assert_eq!(revert, big(0));
    let (gas_left, revert, value) = storage_read_syscall(&scope, &big(500), &big(0), &big(7));
    assert_eq!(gas_left, big(400));
    assert_eq!(revert, big(0));
    assert_eq!(value, Some(big(42)));
}

#[test]
fn second_write_overwrites_first() {
    let mut scope = StarknetExecScope::new();
    storage_write_syscall(&mut scope, &big(2000), &big(0), big(7), big(42));
    storage_write_syscall(&mut scope, &big(2000), &big(0), big(7), big(43));
    let (_, _, value) = storage_read_syscall(&scope, &big(500), &big(0), &big(7));
    assert_eq!(value, Some(big(43)));
}

#[test]
fn reverted_write_changes_nothing() {
    let mut scope = StarknetExecScope::new();
    let (gas_left, revert) =
        storage_write_syscall(&mut scope, &big(2000), &big(1), big(7), big(42));
    assert_eq!(gas_left, big(2000));
    assert_eq!(revert, big(1));
    let (_, _, value) = storage_read_syscall(&scope, &big(500), &big(0), &big(7));
    assert_eq!(value, Some(big(0)));
}

#[test]
fn reverted_read_reads_nothing() {
    let scope = StarknetExecScope::new();
    let (gas_left, revert, value) = storage_read_syscall(&scope, &big(99), &big(0), &big(7));
    assert_eq!(gas_left, big(99));
    assert_eq!(revert, big(1));
    assert_eq!(value, None);
    let (gas_left, revert, value) = storage_read_syscall(&scope, &big(500), &big(2), &big(7));
    assert_eq!(gas_left, big(500));
    assert_eq!(revert, big(1));
    assert_eq!(value, None);
}

#[test]
fn gas_boundary_is_exact() {
    let mut scope = StarknetExecScope::new();
    let (gas_left, revert) =
        storage_write_syscall(&mut scope, &big(1000), &big(0), big(7), big(42));
    assert_eq!(gas_left, big(0));
    assert_eq!(revert, big(0));
    let (gas_left, revert) =
        storage_write_syscall(&mut scope, &big(999), &big(0), big(8), big(43));
    assert_eq!(gas_left, big(999));
    assert_eq!(revert, big(1));
    let (gas_left, revert, value) = storage_read_syscall(&scope, &big(100), &big(0), &big(7));
    assert_eq!(gas_left, big(0));
    assert_eq!(revert, big(0));
    assert_eq!(value, Some(big(42)));
}
