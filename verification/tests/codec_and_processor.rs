use num_bigint::BigInt;

use casm_run::bigint::get_prime;
use casm_run::codec::{hint_code, hint_deserialize};
use casm_run::hints::Hint;
use casm_run::operand::{BinOpOperand, CellRef, DerefOrImmediate, Operation, Register, ResOperand};
use casm_run::processor::{hint_to_hint_params, CairoHintProcessor, Instruction, InstructionBody};
use casm_run::run::take_return_values;

fn ap(offset: i16) -> CellRef {
    CellRef {
        register: Register::AP,
        offset,
    }
}

fn fp(offset: i16) -> CellRef {
    CellRef {
        register: Register::FP,
        offset,
    }
}

fn sample_hints() -> Vec<Hint> {
    vec![
        Hint::AllocSegment { dst: ap(0) },
        Hint::TestLessThan {
            lhs: ResOperand::Immediate(BigInt::from(3)),
            rhs: ResOperand::Deref(fp(-2)),
            dst: ap(0),
        },
        Hint::TestLessThanOrEqual {
            lhs: ResOperand::DoubleDeref(ap(1), -4),
            rhs: ResOperand::BinOp(BinOpOperand {
                op: Operation::Mul,
                a: fp(3),
                b: DerefOrImmediate::Immediate(BigInt::from(-12345678901234567890i128)),
            }),
            dst: fp(7),
        },
        Hint::DivMod {
            lhs: ResOperand::Immediate(BigInt::from(17)),
            rhs: ResOperand::Immediate(BigInt::from(5)),
            quotient: ap(0),
            remainder: ap(1),
        },
        Hint::SystemCall {
            system: ResOperand::BinOp(BinOpOperand {
                op: Operation::Add,
                a: ap(2),
                b: DerefOrImmediate::Deref(fp(0)),
            }),
        },
        Hint::AllocDictFeltTo { dst: ap(9) },
        Hint::DictFeltToRead {
            dict_ptr: ap(1),
            key: ap(2),
            value_dst: ap(3),
        },
        Hint::DictFeltToWrite {
            dict_ptr: fp(1),
            key: fp(2),
            value: fp(3),
        },
        Hint::EnterScope,
        Hint::ExitScope,
        Hint::DictSquashHints {
            squashed_dict: ap(-1),
        },
        Hint::RandomEcPoint { x: ap(0), y: ap(1) },
    ]
}

#[test]
fn every_hint_round_trips_through_its_code() {
    for hint in sample_hints() {
        let code = hint_code(&hint);
        let back = hint_deserialize(code.as_slice()).unwrap();
        assert_eq!(hint_code(&back), code);
    }
}

#[test]
fn codes_are_exact() {
    assert_eq!(
        hint_code(&Hint::AllocSegment { dst: ap(0) }),
        b"AA0;".to_vec()
    );
    assert_eq!(
        hint_code(&Hint::DivMod {
            lhs: ResOperand::Immediate(BigInt::from(17)),
            rhs: ResOperand::Immediate(BigInt::from(5)),
            quotient: ap(0),
            remainder: ap(1),
        }),
        b"Di71;i5;A0;A1;".to_vec()
    );
    assert_eq!(
        hint_code(&Hint::TestLessThan {
            lhs: ResOperand::Deref(fp(-2)),
            rhs: ResOperand::Immediate(BigInt::from(5)),
            dst: ap(0),
        }),
        b"<dF-2;i5;A0;".to_vec()
    );
    assert_eq!(hint_code(&Hint::EnterScope), b"E".to_vec());
}

#[test]
fn mangled_codes_are_rejected() {
    assert!(hint_deserialize(b"").is_none());
    assert!(hint_deserialize(b"AA0").is_none());
    assert!(hint_deserialize(b"AA0;x").is_none());
    assert!(hint_deserialize(b"ZZ0;").is_none());
    assert!(hint_deserialize(b"AA99999;").is_none());
}

fn instr(n_words: usize, hints: Vec<Hint>) -> Instruction {
    Instruction {
        body: InstructionBody {
            words: (0..n_words).map(|i| BigInt::from(i as u64)).collect(),
        },
        hints,
    }
}

#[test]
fn offsets_are_prefix_sums_of_op_sizes() {
    // Instructions of sizes 2, 1, 2, 1; hints sit on the first, third and
    // fourth, so their offsets are 0, 3 and 5.
    let instructions = vec![
        instr(2, vec![Hint::EnterScope]),
        instr(1, vec![]),
        instr(2, vec![Hint::ExitScope, Hint::AllocSegment { dst: ap(0) }]),
        instr(1, vec![Hint::RandomEcPoint { x: ap(0), y: ap(1) }]),
    ];
    let processor = CairoHintProcessor::new(&instructions);
    let offsets: Vec<usize> = processor.hints_dict.iter().map(|e| e.0).collect();
    assert_eq!(offsets, vec![0, 3, 5]);
    assert_eq!(processor.hints_dict[1].1.len(), 2);
}

#[test]
fn codes_in_table_lead_back_to_their_hints() {
    let hint = Hint::TestLessThan {
        lhs: ResOperand::Immediate(BigInt::from(3)),
        rhs: ResOperand::Immediate(BigInt::from(5)),
        dst: ap(0),
    };
    let code = hint_code(&hint);
    let instructions = vec![instr(1, vec![hint])];
    let processor = CairoHintProcessor::new(&instructions);
    let params = hint_to_hint_params(&instructions[0].hints[0]);
    assert_eq!(params.code, code);
    let found = processor.hint_for_code(code.as_slice()).unwrap();
    assert_eq!(hint_code(found), code);
    assert!(processor.hint_for_code(b"E").is_none());
}

#[test]
fn return_values_are_the_cells_before_ap() {
    // The relocated memory holds a, b, c at positions 7, 8, 9 and the run
    // ended with the allocation pointer at 10.
    let mut cells: Vec<Option<BigInt>> = vec![None; 7];
    cells.push(Some(BigInt::from(11)));
    cells.push(Some(BigInt::from(22)));
    cells.push(Some(BigInt::from(33)));
    let values = take_return_values(&cells, 10, 3).unwrap();
    assert_eq!(
        values,
        vec![BigInt::from(11), BigInt::from(22), BigInt::from(33)]
    );
    assert!(take_return_values(&cells, 10, 11).is_err());
    assert!(take_return_values(&cells, 7, 3).is_err());
}

#[test]
fn prime_is_the_stark_field_modulus() {
    let expected = (BigInt::from(1) << 251) + 17 * (BigInt::from(1) << 192) + 1;
    assert_eq!(get_prime(), expected);
}
