use rlox::chunks::{Chunk, Instruction};
use rlox::runtime::{ExecutionResult, LoxValue, VirtualMachine};

fn number(value: f64) -> LoxValue {
    LoxValue::Number(value.to_bits())
}

fn write_instruction(chunk: &mut Chunk, line: usize, instruction: Instruction) {
    for byte in instruction.as_bytecode() {
        chunk.write(line, byte);
    }
}

#[test]
fn end_to_end_negate_multiply_returns_the_product() {
    let mut chunk = Chunk::create("end to end");
    let c0 = chunk.add_constant(number(3.0)).unwrap();
    let c1 = chunk.add_constant(number(7.0)).unwrap();
    write_instruction(&mut chunk, 1, Instruction::Constant(c0));
    write_instruction(&mut chunk, 1, Instruction::Constant(c1));
    write_instruction(&mut chunk, 1, Instruction::Negate);
    write_instruction(&mut chunk, 1, Instruction::Multiply);
    write_instruction(&mut chunk, 1, Instruction::Return);

    let mut vm = VirtualMachine::create();
    let result = vm.run(&chunk);

    assert_eq!(result, ExecutionResult::Success);
    assert_eq!(vm.terminal_value(), Some(number(-21.0)));
}

#[test]
fn dividing_one_by_zero_succeeds_with_positive_infinity() {
    let mut chunk = Chunk::create("float policy");
    let c0 = chunk.add_constant(number(1.0)).unwrap();
    let c1 = chunk.add_constant(number(0.0)).unwrap();
    write_instruction(&mut chunk, 1, Instruction::Constant(c0));
    write_instruction(&mut chunk, 1, Instruction::Constant(c1));
    write_instruction(&mut chunk, 1, Instruction::Divide);
    write_instruction(&mut chunk, 1, Instruction::Return);

    let mut vm = VirtualMachine::create();
    let result = vm.run(&chunk);

    assert_eq!(result, ExecutionResult::Success);
    assert_eq!(vm.terminal_value(), Some(number(f64::INFINITY)));
}

#[test]
fn adding_on_an_empty_stack_underflows() {
    let mut chunk = Chunk::create("underflow");
    write_instruction(&mut chunk, 1, Instruction::Add);
    write_instruction(&mut chunk, 1, Instruction::Return);

    let mut vm = VirtualMachine::create();
    let result = vm.run(&chunk);

    assert_eq!(
        result,
        ExecutionResult::RuntimeError("Did not find 2 operands on the stack")
    );
}

#[test]
fn negating_on_an_empty_stack_underflows() {
    let mut chunk = Chunk::create("underflow");
    write_instruction(&mut chunk, 1, Instruction::Negate);
    write_instruction(&mut chunk, 1, Instruction::Return);

    let mut vm = VirtualMachine::create();
    let result = vm.run(&chunk);

    assert_eq!(
        result,
        ExecutionResult::RuntimeError("Did not find 1 operand on the stack")
    );
}

#[test]
fn falling_off_the_end_without_a_return_fails() {
    let mut chunk = Chunk::create("fell off end");
    let c0 = chunk.add_constant(number(3.0)).unwrap();
    write_instruction(&mut chunk, 1, Instruction::Constant(c0));

    let mut vm = VirtualMachine::create();
    let result = vm.run(&chunk);

    assert_eq!(
        result,
        ExecutionResult::RuntimeError("Execution completed without a return statement")
    );
}

#[test]
fn a_failed_machine_stays_failed_and_ignores_new_chunks() {
    let mut failing = Chunk::create("failing");
    write_instruction(&mut failing, 1, Instruction::Add);
    write_instruction(&mut failing, 1, Instruction::Return);

    let mut valid = Chunk::create("valid");
    let c0 = valid.add_constant(number(2.0)).unwrap();
    write_instruction(&mut valid, 1, Instruction::Constant(c0));
    write_instruction(&mut valid, 1, Instruction::Return);

    let mut vm = VirtualMachine::create();
    let first = vm.run(&failing);
    let second = vm.run(&valid);

    assert_eq!(
        first,
        ExecutionResult::RuntimeError("Did not find 2 operands on the stack")
    );
    assert_eq!(second, first);
    assert_eq!(vm.terminal_value(), None);

    let mut fresh = VirtualMachine::create();
    assert_eq!(fresh.run(&valid), ExecutionResult::Success);
    assert_eq!(fresh.terminal_value(), Some(number(2.0)));
}

#[test]
fn each_binary_operator_reports_its_own_type_mismatch() {
    let cases = [
        (Instruction::Add, "Only two numbers can be added"),
        (Instruction::Subtract, "Only two numbers can be subtracted"),
        (Instruction::Multiply, "Only two numbers can be multiplied"),
        (Instruction::Divide, "Only two numbers can be divided"),
    ];

    for (instruction, message) in cases {
        let mut chunk = Chunk::create("mismatch");
        let c0 = chunk.add_constant(number(1.0)).unwrap();
        let c1 = chunk.add_constant(LoxValue::Text).unwrap();
        write_instruction(&mut chunk, 1, Instruction::Constant(c0));
        write_instruction(&mut chunk, 1, Instruction::Constant(c1));
        write_instruction(&mut chunk, 1, instruction);
        write_instruction(&mut chunk, 1, Instruction::Return);

        let mut vm = VirtualMachine::create();
        assert_eq!(vm.run(&chunk), ExecutionResult::RuntimeError(message));
    }
}

#[test]
fn negating_a_value_that_is_not_a_number_fails() {
    let mut chunk = Chunk::create("mismatch");
    let c0 = chunk.add_constant(LoxValue::Text).unwrap();
    write_instruction(&mut chunk, 1, Instruction::Constant(c0));
    write_instruction(&mut chunk, 1, Instruction::Negate);
    write_instruction(&mut chunk, 1, Instruction::Return);

    let mut vm = VirtualMachine::create();
    assert_eq!(
        vm.run(&chunk),
        ExecutionResult::RuntimeError("Only numbers can be negated")
    );
}

#[test]
fn a_constant_index_outside_the_pool_fails() {
    let mut chunk = Chunk::create("bad index");
    write_instruction(&mut chunk, 1, Instruction::Constant(5));
    write_instruction(&mut chunk, 1, Instruction::Return);

    let mut vm = VirtualMachine::create();
    assert_eq!(
        vm.run(&chunk),
        ExecutionResult::RuntimeError("Constant index out of range")
    );
}

#[test]
fn returning_on_an_empty_stack_reports_a_nil_terminal() {
    let mut chunk = Chunk::create("bare return");
    write_instruction(&mut chunk, 1, Instruction::Return);

    let mut vm = VirtualMachine::create();
    assert_eq!(vm.run(&chunk), ExecutionResult::Success);
    assert_eq!(vm.terminal_value(), None);
}

#[test]
fn diagnostics_record_one_step_per_executed_instruction() {
    let mut chunk = Chunk::create("traced");
    let c0 = chunk.add_constant(number(3.0)).unwrap();
    write_instruction(&mut chunk, 1, Instruction::Constant(c0));
    write_instruction(&mut chunk, 1, Instruction::Negate);
    write_instruction(&mut chunk, 1, Instruction::Return);

    let mut vm = VirtualMachine::create();
    vm.enable_diagnostics();
    assert_eq!(vm.run(&chunk), ExecutionResult::Success);

    let trace = vm.trace();
    assert_eq!(trace.len(), 3);
    assert_eq!(trace[0].instruction, Instruction::Constant(c0));
    assert_eq!(trace[0].depth, 0);
    assert_eq!(trace[0].top, None);
    assert_eq!(trace[1].instruction, Instruction::Negate);
    assert_eq!(trace[1].depth, 1);
    assert_eq!(trace[1].top, Some(number(3.0)));
    assert_eq!(trace[2].instruction, Instruction::Return);
    assert_eq!(trace[2].top, Some(number(-3.0)));
}

#[test]
fn a_quiet_machine_records_no_trace() {
    let mut chunk = Chunk::create("quiet");
    write_instruction(&mut chunk, 1, Instruction::Return);

    let mut vm = VirtualMachine::create();
    assert_eq!(vm.run(&chunk), ExecutionResult::Success);
    assert!(vm.trace().is_empty());
}

#[test]
fn interpreting_source_reports_success() {
    assert_eq!(rlox::interpret("print 1;"), ExecutionResult::Success);
}
