use stack_vm::instructions::{Effect, Fault, FloatOp, Instruction};
use stack_vm::vm::VM;

fn float_eval(op: FloatOp, a: u32, b: u32) -> u32 {
    let x = f32::from_bits(a);
    let y = f32::from_bits(b);
    let r = match op {
        FloatOp::Add => x + y,
        FloatOp::Subtract => x - y,
        FloatOp::Multiply => x * y,
        FloatOp::Divide => x / y,
        FloatOp::Modulo => x % y,
    };
    r.to_bits()
}

fn machine_with(values: &[u32]) -> VM {
    let mut vm = VM::new(vec![0]);
    for v in values {
        vm.stack.push(*v);
    }
    vm
}

fn stack_of(vm: &mut VM) -> Vec<u32> {
    let mut out = Vec::new();
    while let Some(v) = vm.stack.pop() {
        out.push(v);
    }
    out.reverse();
    out
}

#[test]
fn decode_known_opcodes() {
    assert_eq!(Instruction::from_opcode(0), Some(Instruction::NoOp));
    assert_eq!(Instruction::from_opcode(5), Some(Instruction::Duplicate));
    assert_eq!(Instruction::from_opcode(8), Some(Instruction::Call));
    assert_eq!(Instruction::from_opcode(11), Some(Instruction::AddInt));
    assert_eq!(Instruction::from_opcode(20), Some(Instruction::ModuloFloat));
}

#[test]
fn decode_out_of_range_opcode_is_none() {
    assert_eq!(Instruction::from_opcode(21), None);
    assert_eq!(Instruction::from_opcode(1000), None);
    assert_eq!(Instruction::from_opcode(u32::MAX), None);
}

#[test]
fn pop_after_pushes_removes_only_the_last() {
    let mut vm = machine_with(&[4, 5, 6]);
    assert_eq!(Instruction::Pop.run(&mut vm, &float_eval), Effect::Advance);
    assert_eq!(stack_of(&mut vm), vec![4, 5]);
}

#[test]
fn pop_on_empty_stack_does_nothing() {
    let mut vm = machine_with(&[]);
    assert_eq!(Instruction::Pop.run(&mut vm, &float_eval), Effect::Advance);
    assert!(vm.stack.is_empty());
}

#[test]
fn load_constants_push_zero_and_one() {
    let mut vm = machine_with(&[]);
    Instruction::LoadConst1.run(&mut vm, &float_eval);
    Instruction::LoadConst0.run(&mut vm, &float_eval);
    assert_eq!(stack_of(&mut vm), vec![1, 0]);
}

#[test]
fn duplicate_depth_zero_copies_top() {
    let mut vm = machine_with(&[9, 7, 0]);
    Instruction::Duplicate.run(&mut vm, &float_eval);
    assert_eq!(stack_of(&mut vm), vec![9, 7, 7]);
}

#[test]
fn duplicate_depth_two_copies_value_beneath() {
    let mut vm = machine_with(&[100, 11, 12, 2]);
    Instruction::Duplicate.run(&mut vm, &float_eval);
    assert_eq!(stack_of(&mut vm), vec![100, 11, 12, 100]);
}

#[test]
fn duplicate_beyond_stack_copies_zero() {
    let mut vm = machine_with(&[5, 6, 3]);
    Instruction::Duplicate.run(&mut vm, &float_eval);
    assert_eq!(stack_of(&mut vm), vec![5, 6, 0]);
}

#[test]
fn duplicate_with_only_depth_consumes_it() {
    let mut vm = machine_with(&[0]);
    Instruction::Duplicate.run(&mut vm, &float_eval);
    assert!(vm.stack.is_empty());
}

#[test]
fn add_int_three_and_five_is_eight() {
    let mut vm = machine_with(&[3, 5]);
    assert_eq!(Instruction::AddInt.run(&mut vm, &float_eval), Effect::Advance);
    assert_eq!(stack_of(&mut vm), vec![8]);
}

#[test]
fn subtract_int_takes_top_from_value_beneath() {
    let mut vm = machine_with(&[10, 3]);
    Instruction::SubtractInt.run(&mut vm, &float_eval);
    assert_eq!(stack_of(&mut vm), vec![7]);
}

#[test]
fn integer_arithmetic_wraps() {
    let mut vm = machine_with(&[0, 1]);
    Instruction::SubtractInt.run(&mut vm, &float_eval);
    assert_eq!(stack_of(&mut vm), vec![u32::MAX]);
    let mut vm = machine_with(&[u32::MAX, 2]);
    Instruction::AddInt.run(&mut vm, &float_eval);
    assert_eq!(stack_of(&mut vm), vec![1]);
    let mut vm = machine_with(&[65536, 65537]);
    Instruction::MultiplyInt.run(&mut vm, &float_eval);
    assert_eq!(stack_of(&mut vm), vec![65536]);
}

#[test]
fn divide_and_modulo_int() {
    let mut vm = machine_with(&[17, 5]);
    Instruction::DivideInt.run(&mut vm, &float_eval);
    assert_eq!(stack_of(&mut vm), vec![3]);
    let mut vm = machine_with(&[17, 5]);
    Instruction::ModuloInt.run(&mut vm, &float_eval);
    assert_eq!(stack_of(&mut vm), vec![2]);
}

#[test]
fn divide_int_by_zero_is_a_fault() {
    let mut vm = machine_with(&[8, 0]);
    assert_eq!(
        Instruction::DivideInt.run(&mut vm, &float_eval),
        Effect::Stop(Fault::DivisionByZero)
    );
    assert_eq!(stack_of(&mut vm), vec![8, 0]);
    let mut vm = machine_with(&[8, 0]);
    assert_eq!(
        Instruction::ModuloInt.run(&mut vm, &float_eval),
        Effect::Stop(Fault::DivisionByZero)
    );
}

#[test]
fn binary_op_with_one_operand_consumes_it() {
    let mut vm = machine_with(&[4]);
    assert_eq!(Instruction::AddInt.run(&mut vm, &float_eval), Effect::Advance);
    assert!(vm.stack.is_empty());
}

#[test]
fn add_float_is_bit_exact() {
    let mut vm = machine_with(&[1.5f32.to_bits(), 2.5f32.to_bits()]);
    Instruction::AddFloat.run(&mut vm, &float_eval);
    assert_eq!(stack_of(&mut vm), vec![4.0f32.to_bits()]);
}

#[test]
fn float_operands_keep_their_order() {
    let mut vm = machine_with(&[6.0f32.to_bits(), 1.5f32.to_bits()]);
    Instruction::SubtractFloat.run(&mut vm, &float_eval);
    assert_eq!(stack_of(&mut vm), vec![4.5f32.to_bits()]);
    let mut vm = machine_with(&[6.0f32.to_bits(), 1.5f32.to_bits()]);
    Instruction::DivideFloat.run(&mut vm, &float_eval);
    assert_eq!(stack_of(&mut vm), vec![4.0f32.to_bits()]);
}

#[test]
fn write_then_load_round_trips_a_word() {
    let mut vm = machine_with(&[16, 0xDEAD_BEEF]);
    assert_eq!(Instruction::Write.run(&mut vm, &float_eval), Effect::Advance);
    assert!(vm.stack.is_empty());
    assert_eq!(vm.heap[16], 0xEF);
    assert_eq!(vm.heap[19], 0xDE);
    vm.stack.push(16);
    assert_eq!(Instruction::Load.run(&mut vm, &float_eval), Effect::Advance);
    assert_eq!(stack_of(&mut vm), vec![0xDEAD_BEEF]);
}

#[test]
fn load_at_last_word_and_past_end() {
    let mut vm = machine_with(&[1020]);
    assert_eq!(Instruction::Load.run(&mut vm, &float_eval), Effect::Advance);
    assert_eq!(stack_of(&mut vm), vec![0]);
    let mut vm = machine_with(&[1021]);
    assert_eq!(
        Instruction::Load.run(&mut vm, &float_eval),
        Effect::Stop(Fault::BadAddress)
    );
    assert_eq!(stack_of(&mut vm), vec![1021]);
}

#[test]
fn write_past_end_is_a_fault() {
    let mut vm = machine_with(&[u32::MAX, 3]);
    assert_eq!(
        Instruction::Write.run(&mut vm, &float_eval),
        Effect::Stop(Fault::BadAddress)
    );
    assert_eq!(stack_of(&mut vm), vec![u32::MAX, 3]);
}

#[test]
fn jump_sets_pointer() {
    let mut vm = machine_with(&[3]);
    assert_eq!(Instruction::Jump.run(&mut vm, &float_eval), Effect::Transfer);
    assert_eq!(vm.program_pointer, 3);
    assert!(vm.stack.is_empty());
}

#[test]
fn return_without_frame_advances() {
    let mut vm = machine_with(&[1]);
    assert_eq!(Instruction::Return.run(&mut vm, &float_eval), Effect::Advance);
    assert_eq!(vm.program_pointer, 0);
    assert_eq!(stack_of(&mut vm), vec![1]);
}

#[test]
fn panic_stops_without_touching_state() {
    let mut vm = machine_with(&[2]);
    assert_eq!(Instruction::Panic.run(&mut vm, &float_eval), Effect::Stop(Fault::Panic));
    assert_eq!(stack_of(&mut vm), vec![2]);
}
