use lox_rs::chunk::{constant, Chunk, OpCode};
use lox_rs::value::Value;
use lox_rs::vm::{InterpretError, Operator, Output, VM};

fn number(x: f64) -> Value {
    Value { bits: x.to_bits() }
}

fn float(value: Value) -> f64 {
    f64::from_bits(value.bits)
}

fn alu(operator: Operator, a: Value, b: Value) -> Value {
    let (a, b) = (float(a), float(b));
    number(match operator {
        Operator::Add => a + b,
        Operator::Subtract => a - b,
        Operator::Multiply => a * b,
        Operator::Divide => a / b,
    })
}

fn interpret(chunk: Vec<OpCode>) -> Result<VM, InterpretError> {
    let mut vm = VM::default();
    vm.interpret(&chunk.into(), alu)?;
    Ok(vm)
}

fn floats(vm: &VM) -> Vec<f64> {
    vm.stack().iter().map(|v| float(*v)).collect()
}

#[test]
fn test_negate() {
    // Error case
    interpret(vec![OpCode::Negate]).expect_err("Negation needs an argument");

    // Success case
    let mut vm = interpret(vec![constant(number(1.0)), OpCode::Negate]).unwrap();
    assert_eq!(float(vm.pop().unwrap()), -1.0);
}

#[test]
fn test_add() {
    // Error cases
    interpret(vec![OpCode::Add]).expect_err("Addition needs two arguments");
    interpret(vec![constant(number(1.0)), OpCode::Add]).expect_err("Addition needs two arguments");

    // Success case
    let mut vm = interpret(vec![constant(number(1.0)), constant(number(2.0)), OpCode::Add]).unwrap();
    assert_eq!(float(vm.pop().unwrap()), 3.0);
}

#[test]
fn test_subtract() {
    // Error cases
    interpret(vec![OpCode::Subtract]).expect_err("Subtract needs two arguments");
    interpret(vec![constant(number(1.0)), OpCode::Subtract])
        .expect_err("Subtract needs two arguments");

    // Success case
    let mut vm =
        interpret(vec![constant(number(5.0)), constant(number(2.0)), OpCode::Subtract]).unwrap();
    assert_eq!(float(vm.pop().unwrap()), 3.0);
}

#[test]
fn test_multiply() {
    // Error cases
    interpret(vec![OpCode::Multiply]).expect_err("Multiply needs two arguments");
    interpret(vec![constant(number(1.0)), OpCode::Multiply])
        .expect_err("Multiply needs two arguments");

    // Success case
    let mut vm =
        interpret(vec![constant(number(2.0)), constant(number(3.0)), OpCode::Multiply]).unwrap();
    assert_eq!(float(vm.pop().unwrap()), 6.0);
}

#[test]
fn test_divide() {
    // Error cases
    interpret(vec![OpCode::Divide]).expect_err("Multiply needs two arguments");
    interpret(vec![constant(number(1.0)), OpCode::Divide])
        .expect_err("Multiply needs two arguments");

    // Success case
    let mut vm =
        interpret(vec![constant(number(12.0)), constant(number(4.0)), OpCode::Divide]).unwrap();
    assert_eq!(float(vm.pop().unwrap()), 3.0);
}

#[test]
fn binary_result_is_the_only_value_left() {
    for (op, expected) in [
        (OpCode::Add, 7.5 + 2.5),
        (OpCode::Subtract, 7.5 - 2.5),
        (OpCode::Multiply, 7.5 * 2.5),
        (OpCode::Divide, 7.5 / 2.5),
    ] {
        let vm = interpret(vec![constant(number(7.5)), constant(number(2.5)), op]).unwrap();
        assert_eq!(floats(&vm), vec![expected]);
    }
}

#[test]
fn second_pushed_operand_is_the_right_hand_side() {
    let vm =
        interpret(vec![constant(number(1.0)), constant(number(8.0)), OpCode::Subtract]).unwrap();
    assert_eq!(floats(&vm), vec![-7.0]);
    let vm = interpret(vec![constant(number(1.0)), constant(number(8.0)), OpCode::Divide]).unwrap();
    assert_eq!(floats(&vm), vec![0.125]);
}

#[test]
fn negate_leaves_the_negated_constant() {
    let vm = interpret(vec![constant(number(2.5)), OpCode::Negate]).unwrap();
    assert_eq!(floats(&vm), vec![-2.5]);
    let vm = interpret(vec![constant(number(-0.0)), OpCode::Negate]).unwrap();
    assert_eq!(vm.stack()[0].bits, 0);
    let vm = interpret(vec![constant(number(f64::INFINITY)), OpCode::Negate]).unwrap();
    assert_eq!(floats(&vm), vec![f64::NEG_INFINITY]);
}

#[test]
fn negated_flips_the_sign_bit_only() {
    assert_eq!(number(1.0).negated(), number(-1.0));
    assert_eq!(number(0.0).negated().bits, 0x8000_0000_0000_0000);
    let nan = number(f64::NAN);
    assert_eq!(nan.negated().bits, nan.bits ^ 0x8000_0000_0000_0000);
    assert_eq!(nan.negated().negated(), nan);
    assert_eq!((-f64::from_bits(nan.bits)).to_bits(), nan.negated().bits);
}

#[test]
fn division_by_zero_is_no_failure() {
    let vm = interpret(vec![constant(number(1.0)), constant(number(0.0)), OpCode::Divide]).unwrap();
    assert_eq!(floats(&vm), vec![f64::INFINITY]);
    let vm = interpret(vec![constant(number(0.0)), constant(number(0.0)), OpCode::Divide]).unwrap();
    assert!(floats(&vm)[0].is_nan());
}

#[test]
fn underflow_is_a_compile_error() {
    for op in [
        OpCode::Add,
        OpCode::Subtract,
        OpCode::Multiply,
        OpCode::Divide,
        OpCode::Negate,
        OpCode::Return,
    ] {
        let mut vm = VM::new(false);
        let result = vm.interpret(&Chunk::from(vec![op]), alu);
        assert_eq!(result, Err(InterpretError::CompileError));
        assert!(vm.stack().is_empty());
    }
}

#[test]
fn failing_instruction_leaves_the_stack_alone() {
    for op in [OpCode::Add, OpCode::Subtract, OpCode::Multiply, OpCode::Divide] {
        let mut vm = VM::new(false);
        let chunk = Chunk::from(vec![constant(number(1.0)), op, constant(number(9.0))]);
        assert_eq!(vm.interpret(&chunk, alu), Err(InterpretError::CompileError));
        assert_eq!(floats(&vm), vec![1.0]);
    }
}

#[test]
fn nothing_runs_behind_the_failure() {
    let mut vm = VM::new(false);
    let chunk = Chunk::from(vec![
        constant(number(4.0)),
        OpCode::Return,
        OpCode::Negate,
        constant(number(5.0)),
        OpCode::Return,
    ]);
    assert_eq!(vm.interpret(&chunk, alu), Err(InterpretError::CompileError));
    assert!(vm.stack().is_empty());
    let outputs = vm.take_output();
    assert_eq!(outputs.len(), 1);
    assert!(matches!(outputs[0], Output::Returned(v) if float(v) == 4.0));
}

#[test]
fn pop_on_an_empty_stack_fails() {
    let mut vm = VM::new(false);
    assert_eq!(vm.pop(), Err(InterpretError::CompileError));
    vm.interpret(&Chunk::from(vec![constant(number(1.0)), constant(number(2.0))]), alu).unwrap();
    assert_eq!(vm.pop(), Ok(number(2.0)));
    assert_eq!(vm.pop(), Ok(number(1.0)));
    assert_eq!(vm.pop(), Err(InterpretError::CompileError));
}

#[test]
fn empty_chunk_succeeds_and_changes_nothing() {
    let mut vm = VM::new(true);
    assert_eq!(vm.interpret(&Chunk::new(), alu), Ok(()));
    assert!(vm.stack().is_empty());
    assert!(vm.take_output().is_empty());
}

#[test]
fn values_may_stay_on_the_stack() {
    let vm = interpret(vec![constant(number(1.0)), constant(number(2.0))]).unwrap();
    assert_eq!(floats(&vm), vec![1.0, 2.0]);
}

#[test]
fn stack_is_kept_between_calls() {
    let mut vm = VM::new(false);
    vm.interpret(&Chunk::from(vec![constant(number(6.0))]), alu).unwrap();
    vm.interpret(&Chunk::from(vec![constant(number(7.0)), OpCode::Multiply]), alu).unwrap();
    assert_eq!(floats(&vm), vec![42.0]);
}

#[test]
fn return_emits_and_goes_on() {
    let mut vm = VM::new(false);
    let chunk = Chunk::from(vec![
        constant(number(1.0)),
        OpCode::Return,
        constant(number(2.0)),
        constant(number(3.0)),
        OpCode::Add,
        OpCode::Return,
    ]);
    assert_eq!(vm.interpret(&chunk, alu), Ok(()));
    assert!(vm.stack().is_empty());
    let outputs = vm.take_output();
    assert_eq!(outputs.len(), 2);
    assert!(matches!(outputs[0], Output::Returned(v) if float(v) == 1.0));
    assert!(matches!(outputs[1], Output::Returned(v) if float(v) == 5.0));
    assert!(vm.take_output().is_empty());
}

#[test]
fn debug_mode_echoes_the_stack_after_every_push() {
    let mut vm = VM::new(true);
    let chunk = Chunk::from(vec![
        constant(number(1.0)),
        constant(number(2.0)),
        OpCode::Add,
        OpCode::Negate,
        OpCode::Return,
    ]);
    assert_eq!(vm.interpret(&chunk, alu), Ok(()));
    let outputs = vm.take_output();
    let mut seen: Vec<Vec<f64>> = Vec::new();
    for output in &outputs[..4] {
        match output {
            Output::Stack(stack) => seen.push(stack.iter().map(|v| float(*v)).collect()),
            Output::Returned(_) => panic!("a push writes the stack"),
        }
    }
    assert_eq!(seen, vec![vec![1.0], vec![1.0, 2.0], vec![3.0], vec![-3.0]]);
    assert_eq!(outputs.len(), 5);
    assert!(matches!(outputs[4], Output::Returned(v) if float(v) == -3.0));
}

#[test]
fn debug_mode_does_not_change_results() {
    let chunk = Chunk::from(vec![
        constant(number(10.0)),
        constant(number(4.0)),
        OpCode::Subtract,
        constant(number(3.0)),
        OpCode::Multiply,
    ]);
    let mut quiet = VM::new(false);
    let mut loud = VM::new(true);
    assert_eq!(quiet.interpret(&chunk, alu), loud.interpret(&chunk, alu));
    assert_eq!(floats(&quiet), vec![18.0]);
    assert_eq!(floats(&quiet), floats(&loud));
    assert!(quiet.take_output().is_empty());
}

#[test]
fn default_machine_is_quiet_and_empty() {
    let mut vm = VM::default();
    vm.interpret(&Chunk::from(vec![constant(number(1.0))]), alu).unwrap();
    assert!(vm.take_output().is_empty());
    assert_eq!(floats(&vm), vec![1.0]);
}
