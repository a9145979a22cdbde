use genvm::{IntConstant, IntError, IntRuntime, IntValue, Opcode, Runtime, Step, Vm};

const HALT: u8 = 0;
const ADD: u8 = 1;
const SUB: u8 = 2;
const CONSTANT: u8 = 3;

fn run(code: &[u8], consts: &[IntConstant]) -> Result<IntValue, IntError> {
    let mut vm = Vm::new(IntRuntime, code, consts);
    vm.run()
}

#[test]
fn scenario_add_two_constants() {
    let consts = [IntConstant::Int(5), IntConstant::Int(8)];
    let code = [CONSTANT, 0, CONSTANT, 1, ADD, HALT];
    assert_eq!(run(&code, &consts), Ok(IntValue::Int(13)));
}

#[test]
fn scenario_sub_takes_top_as_left_operand() {
    let consts = [IntConstant::Int(5), IntConstant::Int(8)];
    let code = [CONSTANT, 0, CONSTANT, 1, SUB, HALT];
    assert_eq!(run(&code, &consts), Ok(IntValue::Int(3)));
}

#[test]
fn scenario_add_on_empty_stack() {
    let code = [ADD, HALT];
    assert_eq!(run(&code, &[]), Err(IntError::StackUnderflow));
}

#[test]
fn scenario_halt_only_gives_default() {
    let code = [HALT];
    assert_eq!(run(&code, &[]), Ok(IntValue::default()));
    assert_eq!(run(&code, &[]), Ok(IntValue::Null));
}

#[test]
fn scenario_constant_index_out_of_range() {
    let consts = [IntConstant::Int(1)];
    let code = [CONSTANT, 99, HALT];
    assert_eq!(run(&code, &consts), Err(IntError::IndexOutOfRange));
}

#[test]
fn halt_returns_top_of_stack() {
    let consts = [IntConstant::Int(1), IntConstant::Int(2), IntConstant::Int(3)];
    let code = [CONSTANT, 0, CONSTANT, 1, CONSTANT, 2, HALT];
    assert_eq!(run(&code, &consts), Ok(IntValue::Int(3)));
}

#[test]
fn sub_order_reversed_constants() {
    let consts = [IntConstant::Int(8), IntConstant::Int(5)];
    let code = [CONSTANT, 0, CONSTANT, 1, SUB, HALT];
    assert_eq!(run(&code, &consts), Ok(IntValue::Int(-3)));
}

#[test]
fn chained_arithmetic() {
    let consts = [IntConstant::Int(10), IntConstant::Int(4), IntConstant::Int(1)];
    // push 10, push 4, sub -> 4 - 10 = -6; push 1, add -> 1 + -6 = -5
    let code = [CONSTANT, 0, CONSTANT, 1, SUB, CONSTANT, 2, ADD, HALT];
    assert_eq!(run(&code, &consts), Ok(IntValue::Int(-5)));
}

#[test]
fn sub_with_one_value_underflows_and_keeps_stack() {
    let consts = [IntConstant::Int(7)];
    let code = [CONSTANT, 0, SUB, HALT];
    let mut vm = Vm::new(IntRuntime, &code, &consts);
    assert!(matches!(vm.step(), Step::Continue));
    assert_eq!(vm.sp(), 1);
    assert!(matches!(vm.step(), Step::Fail(IntError::StackUnderflow)));
    assert_eq!(vm.sp(), 1);
    assert_eq!(vm.ip(), 3);
}

#[test]
fn constant_out_of_range_pushes_nothing() {
    let consts = [IntConstant::Int(7)];
    let code = [CONSTANT, 1, HALT];
    let mut vm = Vm::new(IntRuntime, &code, &consts);
    assert!(matches!(vm.step(), Step::Fail(IntError::IndexOutOfRange)));
    assert_eq!(vm.sp(), 0);
}

#[test]
fn invalid_opcode_is_decode_error() {
    assert_eq!(run(&[4], &[]), Err(IntError::DecodeError));
    assert_eq!(run(&[255, HALT], &[]), Err(IntError::DecodeError));
    let consts = [IntConstant::Int(1)];
    assert_eq!(run(&[CONSTANT, 0, 7, HALT], &consts), Err(IntError::DecodeError));
}

#[test]
fn missing_halt_is_decode_error() {
    assert_eq!(run(&[], &[]), Err(IntError::DecodeError));
    let consts = [IntConstant::Int(1)];
    assert_eq!(run(&[CONSTANT, 0], &consts), Err(IntError::DecodeError));
}

#[test]
fn constant_without_operand_is_decode_error() {
    let consts = [IntConstant::Int(1)];
    assert_eq!(run(&[CONSTANT], &consts), Err(IntError::DecodeError));
}

#[test]
fn overflow_is_reported() {
    let consts = [IntConstant::Int(i64::MAX), IntConstant::Int(1)];
    let code = [CONSTANT, 0, CONSTANT, 1, ADD, HALT];
    assert_eq!(run(&code, &consts), Err(IntError::Overflow));
    let consts = [IntConstant::Int(1), IntConstant::Int(i64::MIN)];
    let code = [CONSTANT, 0, CONSTANT, 1, SUB, HALT];
    assert_eq!(run(&code, &consts), Err(IntError::Overflow));
}

#[test]
fn type_mismatch_from_runtime() {
    let mut rt = IntRuntime;
    assert_eq!(rt.add(IntValue::Null, IntValue::Int(1)), Err(IntError::TypeMismatch));
    assert_eq!(rt.sub(IntValue::Int(1), IntValue::Null), Err(IntError::TypeMismatch));
    assert_eq!(rt.sub(IntValue::Int(1), IntValue::Int(3)), Ok(IntValue::Int(-2)));
    assert_eq!(rt.constant(&IntConstant::Int(9)), Ok(IntValue::Int(9)));
}

#[test]
fn halt_stops_before_trailing_bytes() {
    let consts = [IntConstant::Int(2)];
    let code = [CONSTANT, 0, HALT, 200, 200];
    assert_eq!(run(&code, &consts), Ok(IntValue::Int(2)));
}

#[test]
fn halt_pops_top_and_reports_it() {
    let consts = [IntConstant::Int(2), IntConstant::Int(6)];
    let code = [CONSTANT, 0, CONSTANT, 1, HALT];
    let mut vm = Vm::new(IntRuntime, &code, &consts);
    assert!(matches!(vm.step(), Step::Continue));
    assert!(matches!(vm.step(), Step::Continue));
    assert_eq!(vm.sp(), 2);
    match vm.step() {
        Step::Halt(top) => assert_eq!(top, Some(IntValue::Int(6))),
        _ => panic!("expected halt"),
    }
    assert_eq!(vm.sp(), 1);
    assert_eq!(vm.ip(), 5);
}

#[test]
fn opcode_bytes_round_trip() {
    for op in [Opcode::Halt, Opcode::Add, Opcode::Sub, Opcode::Constant] {
        assert_eq!(Opcode::decode(op.byte()), Some(op));
    }
    assert_eq!(Opcode::Halt.byte(), 0);
    assert_eq!(Opcode::Add.byte(), 1);
    assert_eq!(Opcode::Sub.byte(), 2);
    assert_eq!(Opcode::Constant.byte(), 3);
    assert_eq!(Opcode::decode(4), None);
}

#[test]
fn error_messages() {
    assert_eq!(IntError::StackUnderflow.message(), "stack underflow");
    assert_eq!(IntError::TypeMismatch.message(), "type error");
    assert_eq!(IntError::IndexOutOfRange.message(), "constant index out of range");
}
