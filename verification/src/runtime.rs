//! Runtime values and the stack-based virtual machine.

use vstd::prelude::*;

use rustc_apfloat::Float;
use rustc_apfloat::ieee::Double;

use crate::chunks::Instruction;

verus! {

/// The sign bit of an IEEE-754 double-precision bit pattern.
pub const SIGN_BIT: u64 = 0x8000_0000_0000_0000;

/// A tagged runtime datum, stored on the operand stack and in constant
/// pools. A number is kept as the bit pattern of an IEEE-754
/// double-precision value, so that contracts can speak of it as a plain
/// unsigned integer. `Text` is a placeholder for a future text variant;
/// it is never a number, which makes the type-mismatch paths reachable.
#[derive(Clone, Copy, Debug, PartialEq, Eq, Structural)]
pub enum LoxValue {
    Number(u64),
    Text,
}

/// The IEEE-754 double sum of two bit patterns.
pub uninterp spec fn add_bits(left: u64, right: u64) -> u64;

/// The IEEE-754 double difference of two bit patterns.
pub uninterp spec fn sub_bits(left: u64, right: u64) -> u64;

/// The IEEE-754 double product of two bit patterns.
pub uninterp spec fn mul_bits(left: u64, right: u64) -> u64;

/// The IEEE-754 double quotient of two bit patterns.
pub uninterp spec fn div_bits(left: u64, right: u64) -> u64;

/// Relies on rustc_apfloat's `ieee::Double` addition (`Float::add_r` with
/// round-to-nearest-even, reached through `core::ops::Add`), a pure
/// function of the two bit patterns alone.
#[verifier::external_body]
fn add_bits_exec(left: u64, right: u64) -> (r: u64)
    ensures
        r == add_bits(left, right),
{
    (Double::from_bits(left as u128) + Double::from_bits(right as u128)).value.to_bits() as u64
}

/// Relies on rustc_apfloat's `ieee::Double` subtraction (`Float::sub_r`
/// with round-to-nearest-even, reached through `core::ops::Sub`), a pure
/// function of the two bit patterns alone.
#[verifier::external_body]
fn sub_bits_exec(left: u64, right: u64) -> (r: u64)
    ensures
        r == sub_bits(left, right),
{
    (Double::from_bits(left as u128) - Double::from_bits(right as u128)).value.to_bits() as u64
}

/// Relies on rustc_apfloat's `ieee::Double` multiplication (`Float::mul_r`
/// with round-to-nearest-even, reached through `core::ops::Mul`), a pure
/// function of the two bit patterns alone.
#[verifier::external_body]
fn mul_bits_exec(left: u64, right: u64) -> (r: u64)
    ensures
        r == mul_bits(left, right),
{
    (Double::from_bits(left as u128) * Double::from_bits(right as u128)).value.to_bits() as u64
}

/// Relies on rustc_apfloat's `ieee::Double` division (`Float::div_r` with
/// round-to-nearest-even, reached through `core::ops::Div`), a pure
/// function of the two bit patterns alone. Division by zero follows IEEE
/// semantics and yields an infinity or NaN bit pattern, never a fault.
#[verifier::external_body]
fn div_bits_exec(left: u64, right: u64) -> (r: u64)
    ensures
        r == div_bits(left, right),
{
    (Double::from_bits(left as u128) / Double::from_bits(right as u128)).value.to_bits() as u64
}

impl LoxValue {
    /// What `negate` returns: negating an IEEE-754 double flips its sign
    /// bit and leaves every other bit unchanged, so the result is computed
    /// directly on the stored bit pattern.
    pub open spec fn negate_spec(self) -> Option<LoxValue> {
        match self {
            LoxValue::Number(value) => Some(LoxValue::Number(value ^ SIGN_BIT)),
            _ => None,
        }
    }

    /// What `add` returns.
    pub open spec fn add_spec(self, other: LoxValue) -> Option<LoxValue> {
        match (self, other) {
            (LoxValue::Number(left), LoxValue::Number(right)) =>
                Some(LoxValue::Number(add_bits(left, right))),
            _ => None,
        }
    }

    /// What `subtract` returns.
    pub open spec fn subtract_spec(self, other: LoxValue) -> Option<LoxValue> {
        match (self, other) {
            (LoxValue::Number(left), LoxValue::Number(right)) =>
                Some(LoxValue::Number(sub_bits(left, right))),
            _ => None,
        }
    }

    /// What `multiply` returns.
    pub open spec fn multiply_spec(self, other: LoxValue) -> Option<LoxValue> {
        match (self, other) {
            (LoxValue::Number(left), LoxValue::Number(right)) =>
                Some(LoxValue::Number(mul_bits(left, right))),
            _ => None,
        }
    }

    /// What `divide` returns.
    pub open spec fn divide_spec(self, other: LoxValue) -> Option<LoxValue> {
        match (self, other) {
            (LoxValue::Number(left), LoxValue::Number(right)) =>
                Some(LoxValue::Number(div_bits(left, right))),
            _ => None,
        }
    }

    /// Arithmetic negation of a number; `None` for any other variant.
    pub fn negate(&self) -> (r: Option<LoxValue>)
        ensures
            r == self.negate_spec(),
    {
        match *self {
            LoxValue::Number(value) => Some(LoxValue::Number(value ^ SIGN_BIT)),
            _ => None,
        }
    }

    /// IEEE-754 double sum; `None` unless both operands are numbers.
    pub fn add(&self, other: &LoxValue) -> (r: Option<LoxValue>)
        ensures
            r == self.add_spec(*other),
    {
        match LoxValue::binary_numbers(self, other) {
            Some((left, right)) => Some(LoxValue::Number(add_bits_exec(left, right))),
            None => None,
        }
    }

    /// IEEE-754 double difference; `None` unless both operands are numbers.
    pub fn subtract(&self, other: &LoxValue) -> (r: Option<LoxValue>)
        ensures
            r == self.subtract_spec(*other),
    {
        match LoxValue::binary_numbers(self, other) {
            Some((left, right)) => Some(LoxValue::Number(sub_bits_exec(left, right))),
            None => None,
        }
    }

    /// IEEE-754 double product; `None` unless both operands are numbers.
    pub fn multiply(&self, other: &LoxValue) -> (r: Option<LoxValue>)
        ensures
            r == self.multiply_spec(*other),
    {
        match LoxValue::binary_numbers(self, other) {
            Some((left, right)) => Some(LoxValue::Number(mul_bits_exec(left, right))),
            None => None,
        }
    }

    /// IEEE-754 double quotient; `None` unless both operands are numbers.
    /// Division by zero is not an error: it yields the IEEE infinity or
    /// NaN bit pattern, by deliberate policy.
    pub fn divide(&self, other: &LoxValue) -> (r: Option<LoxValue>)
        ensures
            r == self.divide_spec(*other),
    {
        match LoxValue::binary_numbers(self, other) {
            Some((left, right)) => Some(LoxValue::Number(div_bits_exec(left, right))),
            None => None,
        }
    }

    /// The two bit patterns, if both operands are numbers.
    fn binary_numbers(left: &LoxValue, right: &LoxValue) -> (r: Option<(u64, u64)>)
        ensures
            r == (match (*left, *right) {
                (LoxValue::Number(l), LoxValue::Number(q)) => Some((l, q)),
                _ => None::<(u64, u64)>,
            }),
    {
        if let (LoxValue::Number(left_value), LoxValue::Number(right_value)) = (*left, *right) {
            Some((left_value, right_value))
        } else {
            None
        }
    }
}

/// The terminal outcome of one `run` invocation. `Success` reports a run
/// that reached a `Return`. `StaticError` is reserved
/// for future compile-time faults and is unreachable with the current
/// opcode set; `RuntimeError` carries one of a fixed set of messages.
#[derive(Clone, Copy, Debug, PartialEq, Eq)]
pub enum ExecutionResult {
    Success,
    StaticError(&'static str),
    RuntimeError(&'static str),
}

/// One diagnostic record taken right before an instruction executes: the
/// operand stack depth, the value on top of the stack if any, and the
/// instruction about to run. Recorded only while diagnostics are enabled.
#[derive(Clone, Copy, Debug)]
pub struct TraceStep {
    pub depth: usize,
    pub top: Option<LoxValue>,
    pub instruction: Instruction,
}

/// The abstract state of a virtual machine.
pub ghost struct VmView {
    pub ip: int,
    pub stack: Seq<LoxValue>,
    pub diagnostics_enabled: bool,
    pub failure: Option<ExecutionResult>,
    pub terminal: Option<LoxValue>,
    pub trace: Seq<TraceStep>,
}

/// What decoding and executing `code` against `constants` does, starting
/// from operand stack `stack` at byte `offset`: the terminal outcome, the
/// value popped by a terminating `Return` if any, the operand stack as
/// execution left it, the final instruction pointer, and the diagnostic
/// record of every instruction executed, in order.
pub ghost struct VmOutcome {
    pub result: ExecutionResult,
    pub terminal: Option<LoxValue>,
    pub stack: Seq<LoxValue>,
    pub ip: int,
    pub trace: Seq<TraceStep>,
}

/// The diagnostic record taken right before an instruction executes
/// against `stack`.
pub open spec fn step_of(stack: Seq<LoxValue>, instruction: Instruction) -> TraceStep {
    TraceStep {
        depth: stack.len() as usize,
        top: if stack.len() > 0 { Some(stack.last()) } else { None },
        instruction,
    }
}

/// The execution contract: decode one instruction at `offset` and dispatch
/// on it, until a `Return` terminates with `Success`, a dispatch rule
/// reports a `RuntimeError`, or no further instruction can be decoded
/// (exhausted, truncated, or unrecognized byte stream), which is the
/// missing-return error. Operand order matters: the first pop is the
/// right-hand operand, the second the left-hand one.
pub open spec fn run_spec(
    code: Seq<u8>,
    constants: Seq<LoxValue>,
    stack: Seq<LoxValue>,
    offset: int,
) -> VmOutcome
    decreases code.len() - offset, 0int
        when 0 <= offset <= code.len()
{
    let (consumed, decoded) = crate::chunks::decode_spec(code, offset);
    match decoded {
        None => VmOutcome {
            result: ExecutionResult::RuntimeError(
                "Execution completed without a return statement"),
            terminal: None,
            stack,
            ip: offset,
            trace: Seq::empty(),
        },
        Some(instruction) => {
            let ip = offset + consumed;
            let step = step_of(stack, instruction);
            match instruction {
                Instruction::Return => VmOutcome {
                    result: ExecutionResult::Success,
                    terminal: if stack.len() > 0 { Some(stack.last()) } else { None },
                    stack: if stack.len() > 0 { stack.drop_last() } else { stack },
                    ip,
                    trace: seq![step],
                },
                Instruction::Constant(index) => if (index as int) < constants.len() {
                    let next = run_spec(code, constants,
                        stack.push(constants[index as int]), ip);
                    VmOutcome { trace: seq![step] + next.trace, ..next }
                } else {
                    VmOutcome {
                        result: ExecutionResult::RuntimeError("Constant index out of range"),
                        terminal: None,
                        stack,
                        ip,
                        trace: seq![step],
                    }
                },
                Instruction::Negate => if stack.len() == 0 {
                    VmOutcome {
                        result: ExecutionResult::RuntimeError(
                            "Did not find 1 operand on the stack"),
                        terminal: None,
                        stack,
                        ip,
                        trace: seq![step],
                    }
                } else {
                    match stack.last().negate_spec() {
                        Some(value) => {
                            let next = run_spec(code, constants,
                                stack.drop_last().push(value), ip);
                            VmOutcome { trace: seq![step] + next.trace, ..next }
                        },
                        None => VmOutcome {
                            result: ExecutionResult::RuntimeError("Only numbers can be negated"),
                            terminal: None,
                            stack: stack.drop_last(),
                            ip,
                            trace: seq![step],
                        },
                    }
                },
                Instruction::Add => binary_step(code, constants, stack, ip, Instruction::Add),
                Instruction::Subtract => binary_step(code, constants, stack, ip,
                    Instruction::Subtract),
                Instruction::Multiply => binary_step(code, constants, stack, ip,
                    Instruction::Multiply),
                Instruction::Divide => binary_step(code, constants, stack, ip,
                    Instruction::Divide),
            }
        },
    }
}

/// One dispatch step of a binary arithmetic instruction, after its bytes
/// were consumed: both operands are popped before any check, so a failed
/// check still leaves them off the stack.
pub open spec fn binary_step(
    code: Seq<u8>,
    constants: Seq<LoxValue>,
    stack: Seq<LoxValue>,
    ip: int,
    instruction: Instruction,
) -> VmOutcome
    decreases code.len() - ip, 1int
        when 0 <= ip <= code.len()
{
    let step = step_of(stack, instruction);
    if stack.len() < 2 {
        VmOutcome {
            result: ExecutionResult::RuntimeError("Did not find 2 operands on the stack"),
            terminal: None,
            stack: if stack.len() > 0 { stack.drop_last() } else { stack },
            ip,
            trace: seq![step],
        }
    } else {
        let right = stack.last();
        let left = stack.drop_last().last();
        match binary_result_spec(instruction, left, right) {
            Some(value) => {
                let next = run_spec(code, constants,
                    stack.drop_last().drop_last().push(value), ip);
                VmOutcome { trace: seq![step] + next.trace, ..next }
            },
            None => VmOutcome {
                result: binary_mismatch_error(instruction),
                terminal: None,
                stack: stack.drop_last().drop_last(),
                ip,
                trace: seq![step],
            },
        }
    }
}

/// The value a binary arithmetic instruction computes, if both operands
/// are numbers. Meaningful only for the four arithmetic variants.
pub open spec fn binary_result_spec(
    instruction: Instruction,
    left: LoxValue,
    right: LoxValue,
) -> Option<LoxValue> {
    match instruction {
        Instruction::Add => left.add_spec(right),
        Instruction::Subtract => left.subtract_spec(right),
        Instruction::Multiply => left.multiply_spec(right),
        Instruction::Divide => left.divide_spec(right),
        _ => None,
    }
}

/// The operator-specific type-mismatch message of a binary arithmetic
/// instruction. Meaningful only for the four arithmetic variants.
pub open spec fn binary_mismatch_error(instruction: Instruction) -> ExecutionResult {
    match instruction {
        Instruction::Add => ExecutionResult::RuntimeError("Only two numbers can be added"),
        Instruction::Subtract => ExecutionResult::RuntimeError(
            "Only two numbers can be subtracted"),
        Instruction::Multiply => ExecutionResult::RuntimeError(
            "Only two numbers can be multiplied"),
        Instruction::Divide => ExecutionResult::RuntimeError("Only two numbers can be divided"),
        _ => ExecutionResult::Success,
    }
}

/// What one `run` call on a chunk does, from the start of its byte stream.
pub open spec fn run_result(chunk: crate::chunks::ChunkView, stack: Seq<LoxValue>) -> VmOutcome {
    run_spec(chunk.code, chunk.constants, stack, 0)
}

/// End to end, for any two numbers: the chunk encoding `[Constant(0),
/// Constant(1), Negate, Multiply, Return]` over a pool of the numbers `a`
/// and `b`, executed from an empty operand stack, succeeds, leaves the
/// stack empty, and returns the product of `a` and the negation of `b`.
pub proof fn lemma_negate_multiply_program(a: u64, b: u64)
    ensures
        ({
            let code = seq![1u8, 0u8, 1u8, 1u8, 2u8, 5u8, 0u8];
            let constants = seq![LoxValue::Number(a), LoxValue::Number(b)];
            let outcome = run_spec(code, constants, Seq::empty(), 0);
            &&& outcome.result == ExecutionResult::Success
            &&& outcome.terminal == Some(LoxValue::Number(mul_bits(a, b ^ SIGN_BIT)))
            &&& outcome.stack.len() == 0
        }),
{
    reveal_with_fuel(run_spec, 10);
    reveal_with_fuel(binary_step, 10);
}

/// Holds between two machine states when only the operand stack may
/// differ.
spec fn only_stack_changed(pre: VmView, post: VmView) -> bool {
    &&& post.ip == pre.ip
    &&& post.diagnostics_enabled == pre.diagnostics_enabled
    &&& post.failure == pre.failure
    &&& post.terminal == pre.terminal
    &&& post.trace == pre.trace
}

/// The stack-based execution engine. A machine is created fresh, then run
/// zero or more times; the first run that does not succeed latches its
/// failure, and every later run returns the latched failure untouched.
pub struct VirtualMachine {
    ip: usize,
    stack: Vec<LoxValue>,
    diagnostics_enabled: bool,
    failure: Option<ExecutionResult>,
    terminal: Option<LoxValue>,
    trace: Vec<TraceStep>,
}

impl View for VirtualMachine {
    type V = VmView;

    closed spec fn view(&self) -> VmView {
        VmView {
            ip: self.ip as int,
            stack: self.stack@,
            diagnostics_enabled: self.diagnostics_enabled,
            failure: self.failure,
            terminal: self.terminal,
            trace: self.trace@,
        }
    }
}

impl VirtualMachine {
    /// Builds an idle machine: empty stack, no latched failure, and
    /// diagnostics off.
    pub fn create() -> (vm: VirtualMachine)
        ensures
            vm@.ip == 0,
            vm@.stack == Seq::<LoxValue>::empty(),
            !vm@.diagnostics_enabled,
            vm@.failure is None,
            vm@.terminal is None,
            vm@.trace == Seq::<TraceStep>::empty(),
    {
        VirtualMachine {
            ip: 0,
            stack: Vec::new(),
            diagnostics_enabled: false,
            failure: None,
            terminal: None,
            trace: Vec::new(),
        }
    }

    /// Turns on per-instruction trace recording.
    pub fn enable_diagnostics(&mut self)
        ensures
            final(self)@ == (VmView { diagnostics_enabled: true, ..old(self)@ }),
    {
        self.diagnostics_enabled = true;
    }

    /// The value popped by the `Return` of the most recent successful run,
    /// or `None` both before any successful run and when that `Return`
    /// found an empty stack.
    pub fn terminal_value(&self) -> (r: Option<LoxValue>)
        ensures
            r == self@.terminal,
    {
        self.terminal
    }

    /// The diagnostic records collected so far.
    pub fn trace(&self) -> (r: &Vec<TraceStep>)
        ensures
            r@ == self@.trace,
    {
        &self.trace
    }

    /// Decodes and executes `chunk`, as `run_result` states. A machine
    /// that already holds a latched failure returns it immediately and
    /// leaves everything, the new chunk included, untouched; otherwise a
    /// failing run latches its failure for every later call.
    pub fn run(&mut self, chunk: &crate::chunks::Chunk) -> (r: ExecutionResult)
        ensures
            old(self)@.failure matches Some(previous) ==> {
                &&& r == previous
                &&& final(self)@ == old(self)@
            },
            old(self)@.failure is None ==> {
                let outcome = run_result(chunk@, old(self)@.stack);
                &&& r == outcome.result
                &&& final(self)@.stack == outcome.stack
                &&& final(self)@.ip == outcome.ip
                &&& final(self)@.failure == (if r is Success {
                        None
                    } else {
                        Some(outcome.result)
                    })
                &&& final(self)@.terminal == (if r is Success {
                        outcome.terminal
                    } else {
                        old(self)@.terminal
                    })
                &&& final(self)@.diagnostics_enabled == old(self)@.diagnostics_enabled
                &&& final(self)@.trace == (if old(self)@.diagnostics_enabled {
                        old(self)@.trace + outcome.trace
                    } else {
                        old(self)@.trace
                    })
            },
    {
        if let Some(previous_failure) = self.failure {
            previous_failure
        } else {
            let result = self.run_imp(chunk);

            if !matches!(result, ExecutionResult::Success) {
                self.failure = Some(result);
            }

            result
        }
    }

    fn run_imp(&mut self, chunk: &crate::chunks::Chunk) -> (r: ExecutionResult)
        ensures
            ({
                let outcome = run_result(chunk@, old(self)@.stack);
                &&& r == outcome.result
                &&& final(self)@.stack == outcome.stack
                &&& final(self)@.ip == outcome.ip
                &&& final(self)@.terminal == (if r is Success {
                        outcome.terminal
                    } else {
                        old(self)@.terminal
                    })
                &&& final(self)@.failure == old(self)@.failure
                &&& final(self)@.diagnostics_enabled == old(self)@.diagnostics_enabled
                &&& final(self)@.trace == (if old(self)@.diagnostics_enabled {
                        old(self)@.trace + outcome.trace
                    } else {
                        old(self)@.trace
                    })
            }),
    {
        let ghost pre = self@;
        self.ip = 0;
        let code = chunk.code();
        let code_len = code.len();
        let ghost outcome = run_result(chunk@, pre.stack);

        loop
            invariant
                pre == old(self)@,
                self@.ip <= chunk@.code.len(),
                code@ == chunk@.code,
                code_len == chunk@.code.len(),
                outcome == run_result(chunk@, pre.stack),
                ({
                    let cur = run_spec(chunk@.code, chunk@.constants, self@.stack, self@.ip);
                    &&& outcome.result == cur.result
                    &&& outcome.stack == cur.stack
                    &&& outcome.ip == cur.ip
                    &&& outcome.terminal == cur.terminal
                    &&& pre.diagnostics_enabled
                        ==> pre.trace + outcome.trace == self@.trace + cur.trace
                }),
                self@.failure == pre.failure,
                self@.diagnostics_enabled == pre.diagnostics_enabled,
                self@.terminal == pre.terminal,
                !pre.diagnostics_enabled ==> self@.trace == pre.trace,
            decreases chunk@.code.len() - self@.ip,
        {
            proof {
                reveal_with_fuel(run_spec, 2);
                reveal_with_fuel(binary_step, 2);
            }
            let (consumed, decoded) = Instruction::from_bytecode(code, self.ip);

            let instruction = match decoded {
                Some(instruction) => instruction,
                None => {
                    proof {
                        if pre.diagnostics_enabled {
                            assert(self@.trace =~= pre.trace + outcome.trace);
                        }
                    }
                    return ExecutionResult::RuntimeError(
                        "Execution completed without a return statement");
                },
            };

            self.ip = self.ip + consumed;

            if self.diagnostics_enabled {
                self.record_step(instruction);
            }

            match instruction {
                Instruction::Return => {
                    let popped = self.pop();
                    self.terminal = popped;
                    proof {
                        if pre.diagnostics_enabled {
                            assert(self@.trace =~= pre.trace + outcome.trace);
                        }
                    }
                    return ExecutionResult::Success;
                },
                Instruction::Constant(index) => {
                    if (index as usize) < chunk.constants().len() {
                        let constant = *chunk.constant(index);
                        self.push(constant);
                    } else {
                        proof {
                            if pre.diagnostics_enabled {
                                assert(self@.trace =~= pre.trace + outcome.trace);
                            }
                        }
                        return ExecutionResult::RuntimeError("Constant index out of range");
                    }
                },
                Instruction::Negate => {
                    if let Some(value) = self.pop() {
                        if let Some(computed) = value.negate() {
                            self.push(computed);
                        } else {
                            proof {
                                if pre.diagnostics_enabled {
                                    assert(self@.trace =~= pre.trace + outcome.trace);
                                }
                            }
                            return ExecutionResult::RuntimeError("Only numbers can be negated");
                        }
                    } else {
                        proof {
                            if pre.diagnostics_enabled {
                                assert(self@.trace =~= pre.trace + outcome.trace);
                            }
                        }
                        return ExecutionResult::RuntimeError(
                            "Did not find 1 operand on the stack");
                    }
                },
                Instruction::Add => {
                    if let Some((left, right)) = self.pop_two() {
                        if let Some(computed) = left.add(&right) {
                            self.push(computed);
                        } else {
                            proof {
                                if pre.diagnostics_enabled {
                                    assert(self@.trace =~= pre.trace + outcome.trace);
                                }
                            }
                            return ExecutionResult::RuntimeError("Only two numbers can be added");
                        }
                    } else {
                        proof {
                            if pre.diagnostics_enabled {
                                assert(self@.trace =~= pre.trace + outcome.trace);
                            }
                        }
                        return ExecutionResult::RuntimeError(
                            "Did not find 2 operands on the stack");
                    }
                },
                Instruction::Subtract => {
                    if let Some((left, right)) = self.pop_two() {
                        if let Some(computed) = left.subtract(&right) {
                            self.push(computed);
                        } else {
                            proof {
                                if pre.diagnostics_enabled {
                                    assert(self@.trace =~= pre.trace + outcome.trace);
                                }
                            }
                            return ExecutionResult::RuntimeError(
                                "Only two numbers can be subtracted");
                        }
                    } else {
                        proof {
                            if pre.diagnostics_enabled {
                                assert(self@.trace =~= pre.trace + outcome.trace);
                            }
                        }
                        return ExecutionResult::RuntimeError(
                            "Did not find 2 operands on the stack");
                    }
                },
                Instruction::Multiply => {
                    if let Some((left, right)) = self.pop_two() {
                        if let Some(computed) = left.multiply(&right) {
                            self.push(computed);
                        } else {
                            proof {
                                if pre.diagnostics_enabled {
                                    assert(self@.trace =~= pre.trace + outcome.trace);
                                }
                            }
                            return ExecutionResult::RuntimeError(
                                "Only two numbers can be multiplied");
                        }
                    } else {
                        proof {
                            if pre.diagnostics_enabled {
                                assert(self@.trace =~= pre.trace + outcome.trace);
                            }
                        }
                        return ExecutionResult::RuntimeError(
                            "Did not find 2 operands on the stack");
                    }
                },
                Instruction::Divide => {
                    if let Some((left, right)) = self.pop_two() {
                        if let Some(computed) = left.divide(&right) {
                            self.push(computed);
                        } else {
                            proof {
                                if pre.diagnostics_enabled {
                                    assert(self@.trace =~= pre.trace + outcome.trace);
                                }
                            }
                            return ExecutionResult::RuntimeError(
                                "Only two numbers can be divided");
                        }
                    } else {
                        proof {
                            if pre.diagnostics_enabled {
                                assert(self@.trace =~= pre.trace + outcome.trace);
                            }
                        }
                        return ExecutionResult::RuntimeError(
                            "Did not find 2 operands on the stack");
                    }
                },
            }

            proof {
                if pre.diagnostics_enabled {
                    assert(pre.trace + outcome.trace =~= self@.trace
                        + run_spec(chunk@.code, chunk@.constants, self@.stack, self@.ip).trace);
                }
            }
        }
    }

    /// Records the stack snapshot taken before `instruction` executes.
    fn record_step(&mut self, instruction: Instruction)
        ensures
            final(self)@ == (VmView {
                trace: old(self)@.trace.push(step_of(old(self)@.stack, instruction)),
                ..old(self)@
            }),
    {
        let depth = self.stack.len();
        let top = if self.stack.len() > 0 {
            Some(self.stack[self.stack.len() - 1])
        } else {
            None
        };
        self.trace.push(TraceStep { depth, top, instruction });
    }

    fn pop(&mut self) -> (r: Option<LoxValue>)
        ensures
            only_stack_changed(old(self)@, final(self)@),
            old(self)@.stack.len() > 0 ==> {
                &&& r == Some(old(self)@.stack.last())
                &&& final(self)@.stack == old(self)@.stack.drop_last()
            },
            old(self)@.stack.len() == 0 ==> {
                &&& r is None
                &&& final(self)@.stack == old(self)@.stack
            },
    {
        self.stack.pop()
    }

    /// Pops the right-hand operand first, then the left-hand one; both
    /// pops happen even when only one value is available.
    fn pop_two(&mut self) -> (r: Option<(LoxValue, LoxValue)>)
        ensures
            only_stack_changed(old(self)@, final(self)@),
            old(self)@.stack.len() >= 2 ==> {
                &&& r == Some((old(self)@.stack.drop_last().last(), old(self)@.stack.last()))
                &&& final(self)@.stack == old(self)@.stack.drop_last().drop_last()
            },
            old(self)@.stack.len() == 1 ==> {
                &&& r is None
                &&& final(self)@.stack == old(self)@.stack.drop_last()
            },
            old(self)@.stack.len() == 0 ==> {
                &&& r is None
                &&& final(self)@.stack == old(self)@.stack
            },
    {
        let right = self.pop();
        let left = self.pop();

        if let (Some(a), Some(b)) = (left, right) {
            Some((a, b))
        } else {
            None
        }
    }

    fn push(&mut self, value: LoxValue)
        ensures
            only_stack_changed(old(self)@, final(self)@),
            final(self)@.stack == old(self)@.stack.push(value),
    {
        self.stack.push(value);
    }
}

} // verus!
