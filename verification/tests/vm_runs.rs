use std::any::Any;
use std::collections::HashMap;
use std::sync::Arc;

use cairo_vm::hint_processor::hint_processor_definition::{HintProcessorLogic, HintReference};
use cairo_vm::serde::deserialize_program::{ApTracking, FlowTrackingData, ReferenceManager};
use cairo_vm::types::builtin_name::BuiltinName;
use cairo_vm::types::exec_scope::ExecutionScopes;
use cairo_vm::types::layout_name::LayoutName;
use cairo_vm::types::program::Program;
use cairo_vm::types::relocatable::MaybeRelocatable;
use cairo_vm::vm::errors::hint_errors::HintError;
use cairo_vm::vm::errors::vm_errors::VirtualMachineError;
use cairo_vm::vm::runners::cairo_runner::{CairoRunner, ResourceTracker};
use cairo_vm::vm::vm_core::VirtualMachine;
use cairo_vm::Felt252;
use num_bigint::BigInt;

use casm_run::hints::{dup_hint, Hint};
use casm_run::operand::{CellRef, Register, ResOperand};
use casm_run::processor::{CairoHintProcessor, Instruction, InstructionBody};
use casm_run::run::{assemble_program_data, execute_hint, take_return_values};
use casm_run::scope::StarknetExecScope;

const ADD_AP_IMM: u64 = 0x40780017fff7fff;
const RET: u64 = 0x208b7fff7fff7ffe;

struct TestProcessor {
    table: CairoHintProcessor,
    scope: StarknetExecScope,
}

impl HintProcessorLogic for TestProcessor {
    fn execute_hint(
        &mut self,
        vm: &mut VirtualMachine,
        _exec_scopes: &mut ExecutionScopes,
        hint_data: &Box<dyn Any>,
    ) -> Result<(), HintError> {
        let hint = hint_data
            .downcast_ref::<Hint>()
            .ok_or(HintError::WrongHintData)?;
        execute_hint(hint, vm, &mut self.scope)
            .map_err(|e| HintError::CustomHint(format!("{:?}", e).into()))
    }

    fn compile_hint(
        &self,
        hint_code: &str,
        _ap_tracking_data: &ApTracking,
        _reference_ids: &HashMap<String, usize>,
        _references: &[HintReference],
        _accessible_scopes: &[String],
        _constants: Arc<HashMap<String, Felt252>>,
    ) -> Result<Box<dyn Any>, VirtualMachineError> {
        let hint = self
            .table
            .hint_for_code(hint_code.as_bytes())
            .ok_or(VirtualMachineError::Unexpected)?;
        Ok(Box::new(dup_hint(hint)))
    }
}

impl ResourceTracker for TestProcessor {}

fn instr(words: Vec<u64>, hints: Vec<Hint>) -> Instruction {
    Instruction {
        body: InstructionBody {
            words: words.into_iter().map(BigInt::from).collect(),
        },
        hints,
    }
}

fn ap(offset: i16) -> CellRef {
    CellRef {
        register: Register::AP,
        offset,
    }
}

fn run_function(
    instructions: &Vec<Instruction>,
    builtins: Vec<BuiltinName>,
) -> (Vec<Option<BigInt>>, usize) {
    let data: Vec<MaybeRelocatable> = assemble_program_data(instructions)
        .into_iter()
        .map(|w| MaybeRelocatable::Int(Felt252::from(&w)))
        .collect();
    let table = CairoHintProcessor::new(instructions);
    let hints: HashMap<usize, Vec<cairo_vm::serde::deserialize_program::HintParams>> = table
        .hints_dict
        .iter()
        .map(|(off, params)| {
            (
                *off,
                params
                    .iter()
                    .map(|p| cairo_vm::serde::deserialize_program::HintParams {
                        code: String::from_utf8(p.code.clone()).unwrap(),
                        accessible_scopes: vec![],
                        flow_tracking_data: FlowTrackingData {
                            ap_tracking: ApTracking::new(),
                            reference_ids: HashMap::new(),
                        },
                    })
                    .collect(),
            )
        })
        .collect();
    let program = Program::new(
        builtins,
        data,
        Some(0),
        hints,
        ReferenceManager { references: vec![] },
        HashMap::new(),
        vec![],
        None,
    )
    .unwrap();
    let mut runner = CairoRunner::new(&program, LayoutName::all_cairo, None, false, true, false)
        .unwrap();
    let end = runner.initialize(false).unwrap();
    let mut processor = TestProcessor {
        table,
        scope: StarknetExecScope::new(),
    };
    runner.run_until_pc(end, &mut processor).unwrap();
    let ap = runner.vm.get_ap();
    runner
        .vm
        .insert_value((ap + 1usize).unwrap(), Felt252::ZERO)
        .unwrap();
    runner.end_run(true, false, &mut processor, false).unwrap();
    runner.relocate(true, true).unwrap();
    let memory: Vec<Option<BigInt>> = runner
        .relocated_memory
        .iter()
        .map(|c| c.as_ref().map(|f| f.to_bigint()))
        .collect();
    let final_ap = runner.relocated_trace.as_ref().unwrap().last().unwrap().ap;
    (memory, final_ap)
}

fn run_function_return_values(
    instructions: &Vec<Instruction>,
    builtins: Vec<BuiltinName>,
    n_returns: usize,
) -> Vec<BigInt> {
    let (cells, ap) = run_function(instructions, builtins);
    take_return_values(&cells, ap, n_returns).unwrap()
}

#[test]
fn alloc_segment_writes_fresh_segment_base() {
    let program = vec![
        instr(
            vec![ADD_AP_IMM, 1],
            vec![Hint::AllocSegment { dst: ap(0) }],
        ),
        instr(vec![RET], vec![]),
    ];
    let (memory, final_ap) = run_function(&program, vec![]);
    // The hint wrote a pointer to a fresh, empty segment; relocation turns
    // it into the address one past everything that was allocated.
    let cell = memory[final_ap - 1].clone();
    assert!(cell.is_some());
    assert_eq!(cell.unwrap(), BigInt::from(memory.len()));
}

#[test]
fn div_mod_writes_quotient_and_remainder() {
    let program = vec![
        instr(
            vec![ADD_AP_IMM, 2],
            vec![Hint::DivMod {
                lhs: ResOperand::Immediate(BigInt::from(17)),
                rhs: ResOperand::Immediate(BigInt::from(5)),
                quotient: ap(0),
                remainder: ap(1),
            }],
        ),
        instr(vec![RET], vec![]),
    ];
    let values = run_function_return_values(&program, vec![], 2);
    assert_eq!(values, vec![BigInt::from(3), BigInt::from(2)]);
}

#[test]
fn test_less_than_both_orders() {
    let program = |lhs: u64, rhs: u64| {
        vec![
            instr(
                vec![ADD_AP_IMM, 1],
                vec![Hint::TestLessThan {
                    lhs: ResOperand::Immediate(BigInt::from(lhs)),
                    rhs: ResOperand::Immediate(BigInt::from(rhs)),
                    dst: ap(0),
                }],
            ),
            instr(vec![RET], vec![]),
        ]
    };
    assert_eq!(
        run_function_return_values(&program(3, 5), vec![], 1),
        vec![BigInt::from(1)]
    );
    assert_eq!(
        run_function_return_values(&program(5, 3), vec![], 1),
        vec![BigInt::from(0)]
    );
}

#[test]
fn run_is_deterministic() {
    let program = || {
        vec![
            instr(
                vec![ADD_AP_IMM, 2],
                vec![Hint::DivMod {
                    lhs: ResOperand::Immediate(BigInt::from(17)),
                    rhs: ResOperand::Immediate(BigInt::from(5)),
                    quotient: ap(0),
                    remainder: ap(1),
                }],
            ),
            instr(vec![RET], vec![]),
        ]
    };
    let first = run_function(&program(), vec![]);
    let second = run_function(&program(), vec![]);
    assert_eq!(first, second);
}

#[test]
fn test_less_than_or_equal_on_equal_values() {
    let program = vec![
        instr(
            vec![ADD_AP_IMM, 1],
            vec![Hint::TestLessThanOrEqual {
                lhs: ResOperand::Immediate(BigInt::from(5)),
                rhs: ResOperand::Immediate(BigInt::from(5)),
                dst: ap(0),
            }],
        ),
        instr(vec![RET], vec![]),
    ];
    assert_eq!(
        run_function_return_values(&program, vec![], 1),
        vec![BigInt::from(1)]
    );
}
