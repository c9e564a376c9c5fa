//! The instruction set: decoding program words into instructions, and what
//! each instruction does to the machine.
use vstd::prelude::*;

use crate::stack::{truncated, Stack, StackFrame};
use crate::vm::{stored, word_at, word_fits, VmState, VM};

verus! {

/// One decoded instruction. Operands (addresses, depths, jump targets) are
/// taken from the operand stack when the instruction runs.
#[derive(Clone, Copy, PartialEq, Eq, Structural, Debug)]
pub enum Instruction {
    NoOp,
    /// Pops an address and pushes the word stored in memory there.
    Load,
    /// Pops a value, then an address, and stores the value there.
    Write,
    LoadConst0,
    LoadConst1,
    /// Pops a depth `k` and pushes a copy of the value `k` places below the top.
    Duplicate,
    Pop,
    Jump,
    Call,
    Return,
    Panic,
    AddInt,
    SubtractInt,
    MultiplyInt,
    DivideInt,
    ModuloInt,
    AddFloat,
    SubtractFloat,
    MultiplyFloat,
    DivideFloat,
    ModuloFloat,
}

/// The arithmetic operation of a float instruction, handed to the host's
/// evaluator together with the two operand words.
#[derive(Clone, Copy, PartialEq, Eq, Structural, Debug)]
pub enum FloatOp {
    Add,
    Subtract,
    Multiply,
    Divide,
    Modulo,
}

/// A condition that stops the machine for good.
#[derive(Clone, Copy, PartialEq, Eq, Structural, Debug)]
pub enum Fault {
    /// The program executed `Panic`.
    Panic,
    /// `DivideInt` or `ModuloInt` with a zero divisor.
    DivisionByZero,
    /// `Load` or `Write` at an address whose word does not lie in memory.
    BadAddress,
}

/// What running one instruction did to control flow.
#[derive(Clone, Copy, PartialEq, Eq, Structural, Debug)]
pub enum Effect {
    /// The pointer was left alone; the machine moves on to the next word.
    Advance,
    /// The instruction set the pointer itself.
    Transfer,
    /// The machine stops; its state is as before the instruction.
    Stop(Fault),
}

/// The instruction numbered `opcode`, if there is one.
pub open spec fn decode(opcode: u32) -> Option<Instruction> {
    match opcode {
        0 => Some(Instruction::NoOp),
        1 => Some(Instruction::Load),
        2 => Some(Instruction::Write),
        3 => Some(Instruction::LoadConst0),
        4 => Some(Instruction::LoadConst1),
        5 => Some(Instruction::Duplicate),
        6 => Some(Instruction::Pop),
        7 => Some(Instruction::Jump),
        8 => Some(Instruction::Call),
        9 => Some(Instruction::Return),
        10 => Some(Instruction::Panic),
        11 => Some(Instruction::AddInt),
        12 => Some(Instruction::SubtractInt),
        13 => Some(Instruction::MultiplyInt),
        14 => Some(Instruction::DivideInt),
        15 => Some(Instruction::ModuloInt),
        16 => Some(Instruction::AddFloat),
        17 => Some(Instruction::SubtractFloat),
        18 => Some(Instruction::MultiplyFloat),
        19 => Some(Instruction::DivideFloat),
        20 => Some(Instruction::ModuloFloat),
        _ => None,
    }
}

impl Instruction {
    /// Decodes a program word; a word that numbers no instruction gives `None`.
    pub fn from_opcode(opcode: u32) -> (r: Option<Instruction>)
        ensures
            r == decode(opcode),
            r.is_some() <==> opcode <= 20,
    {
        match opcode {
            0 => Some(Instruction::NoOp),
            1 => Some(Instruction::Load),
            2 => Some(Instruction::Write),
            3 => Some(Instruction::LoadConst0),
            4 => Some(Instruction::LoadConst1),
            5 => Some(Instruction::Duplicate),
            6 => Some(Instruction::Pop),
            7 => Some(Instruction::Jump),
            8 => Some(Instruction::Call),
            9 => Some(Instruction::Return),
            10 => Some(Instruction::Panic),
            11 => Some(Instruction::AddInt),
            12 => Some(Instruction::SubtractInt),
            13 => Some(Instruction::MultiplyInt),
            14 => Some(Instruction::DivideInt),
            15 => Some(Instruction::ModuloInt),
            16 => Some(Instruction::AddFloat),
            17 => Some(Instruction::SubtractFloat),
            18 => Some(Instruction::MultiplyFloat),
            19 => Some(Instruction::DivideFloat),
            20 => Some(Instruction::ModuloFloat),
            _ => None,
        }
    }
}

} // verus!

verus! {

/// The value `k` places below the top of `st`, or 0 where `st` is not that deep.
pub open spec fn picked(st: Seq<u32>, k: int) -> u32 {
    if k < st.len() {
        st[st.len() - 1 - k]
    } else {
        0
    }
}

/// The result of an integer instruction on `a` (pushed first) and `b` (the
/// top): unsigned 32-bit arithmetic, wrapping on overflow.
pub open spec fn int_result(i: Instruction, a: u32, b: u32) -> u32 {
    match i {
        Instruction::AddInt => ((a + b) % 0x1_0000_0000) as u32,
        Instruction::SubtractInt => ((a - b + 0x1_0000_0000) % 0x1_0000_0000) as u32,
        Instruction::MultiplyInt => ((a * b) % 0x1_0000_0000) as u32,
        Instruction::DivideInt => (a / b) as u32,
        _ => (a % b) as u32,
    }
}

/// Whether `i` is one of the integer arithmetic instructions.
pub open spec fn is_int_op(i: Instruction) -> bool {
    matches!(i, Instruction::AddInt | Instruction::SubtractInt | Instruction::MultiplyInt
        | Instruction::DivideInt | Instruction::ModuloInt)
}

/// The float operation of a float instruction.
pub open spec fn float_op_of(i: Instruction) -> Option<FloatOp> {
    match i {
        Instruction::AddFloat => Some(FloatOp::Add),
        Instruction::SubtractFloat => Some(FloatOp::Subtract),
        Instruction::MultiplyFloat => Some(FloatOp::Multiply),
        Instruction::DivideFloat => Some(FloatOp::Divide),
        Instruction::ModuloFloat => Some(FloatOp::Modulo),
        _ => None,
    }
}

/// The evaluation that running `i` in state `s` asks of the float evaluator:
/// its operation, the operand pushed first and the top operand.
pub open spec fn float_request(i: Instruction, s: VmState) -> Option<(FloatOp, u32, u32)> {
    match float_op_of(i) {
        Some(op) => if s.stack.len() >= 2 {
            Some((op, s.stack[s.stack.len() - 2], s.stack.last()))
        } else {
            None
        },
        None => None,
    }
}

/// Whether `r` is a result that the float evaluator `f` may give for what
/// running `i` in `s` asks of it (any `r` where it asks nothing).
pub open spec fn float_ok<F: Fn(FloatOp, u32, u32) -> u32>(f: F, i: Instruction, s: VmState, r: u32) -> bool {
    match float_request(i, s) {
        Some((op, a, b)) => call_ensures(f, (op, a, b), r),
        None => true,
    }
}

/// The state and effect of running `i` in state `s`, where a float
/// instruction's result is `fr`. An instruction that lacks operands consumes
/// those present and does nothing more.
pub open spec fn exec_spec(i: Instruction, s: VmState, fr: u32) -> (VmState, Effect) {
    let st = s.stack;
    let n = st.len();
    match i {
        Instruction::NoOp => (s, Effect::Advance),
        Instruction::Load => if n == 0 {
            (s, Effect::Advance)
        } else if !word_fits(s.heap.len() as int, st.last() as int) {
            (s, Effect::Stop(Fault::BadAddress))
        } else {
            (VmState { stack: st.drop_last().push(word_at(s.heap, st.last() as int)), ..s }, Effect::Advance)
        },
        Instruction::Write => if n < 2 {
            (VmState { stack: Seq::empty(), ..s }, Effect::Advance)
        } else if !word_fits(s.heap.len() as int, st[n - 2] as int) {
            (s, Effect::Stop(Fault::BadAddress))
        } else {
            (
                VmState {
                    stack: st.drop_last().drop_last(),
                    heap: stored(s.heap, st[n - 2] as int, st.last()),
                    ..s
                },
                Effect::Advance,
            )
        },
        Instruction::LoadConst0 => (VmState { stack: st.push(0), ..s }, Effect::Advance),
        Instruction::LoadConst1 => (VmState { stack: st.push(1), ..s }, Effect::Advance),
        Instruction::Duplicate => if n == 0 {
            (s, Effect::Advance)
        } else if n == 1 {
            (VmState { stack: Seq::empty(), ..s }, Effect::Advance)
        } else {
            let rest = st.drop_last();
            (VmState { stack: rest.push(picked(rest, st.last() as int)), ..s }, Effect::Advance)
        },
        Instruction::Pop => if n == 0 {
            (s, Effect::Advance)
        } else {
            (VmState { stack: st.drop_last(), ..s }, Effect::Advance)
        },
        Instruction::Jump => if n == 0 {
            (s, Effect::Advance)
        } else {
            (VmState { stack: st.drop_last(), pc: st.last() as int, ..s }, Effect::Transfer)
        },
        Instruction::Call => if n == 0 {
            (s, Effect::Advance)
        } else {
            (
                VmState {
                    stack: st.drop_last(),
                    pc: st.last() as int,
                    frames: s.frames.push(
                        StackFrame { bound: (n - 1) as usize, program_pointer: (s.pc + 1) as usize },
                    ),
                    ..s
                },
                Effect::Transfer,
            )
        },
        Instruction::Return => if s.frames.len() == 0 {
            (s, Effect::Advance)
        } else {
            (
                VmState {
                    stack: truncated(st, s.frames.last().bound as int),
                    pc: s.frames.last().program_pointer as int,
                    frames: s.frames.drop_last(),
                    ..s
                },
                Effect::Transfer,
            )
        },
        Instruction::Panic => (s, Effect::Stop(Fault::Panic)),
        _ => if n < 2 {
            (VmState { stack: Seq::empty(), ..s }, Effect::Advance)
        } else if (i == Instruction::DivideInt || i == Instruction::ModuloInt) && st.last() == 0 {
            (s, Effect::Stop(Fault::DivisionByZero))
        } else {
            let r = if is_int_op(i) { int_result(i, st[n - 2], st.last()) } else { fr };
            (VmState { stack: st.drop_last().drop_last().push(r), ..s }, Effect::Advance)
        },
    }
}

} // verus!

verus! {

/// Pops the top two values as `(a, b)`, `b` being the top. With fewer than
/// two, pops what there is and gives `None`.
fn pop_operands(stack: &mut Stack) -> (r: Option<(u32, u32)>)
    ensures
        final(stack)@.frames == old(stack)@.frames,
        old(stack)@.values.len() >= 2 ==> {
            let st = old(stack)@.values;
            &&& r == Some((st[st.len() - 2], st.last()))
            &&& final(stack)@.values == st.drop_last().drop_last()
        },
        old(stack)@.values.len() < 2 ==> r == None::<(u32, u32)> && final(stack)@.values == Seq::<
            u32,
        >::empty(),
{
    match stack.pop() {
        Some(b) => match stack.pop() {
            Some(a) => Some((a, b)),
            None => {
                assert(stack@.values =~= Seq::<u32>::empty());
                None
            },
        },
        None => {
            assert(stack@.values =~= Seq::<u32>::empty());
            None
        },
    }
}

impl Instruction {
    /// Runs this instruction on `vm`. A float instruction hands its operation
    /// and operands to `float_op` and pushes the word it returns.
    pub fn run<F: Fn(FloatOp, u32, u32) -> u32>(&self, vm: &mut VM, float_op: &F) -> (e: Effect)
        requires
            old(vm).program_pointer < usize::MAX,
            forall|op: FloatOp, a: u32, b: u32| call_requires(*float_op, (op, a, b)),
        ensures
            exists|r: u32|
                float_ok(*float_op, *self, old(vm)@, r) && #[trigger] exec_spec(*self, old(vm)@, r) == (
                final(vm)@,
                e,
            ),
    {
        let ghost s = vm@;
        let ghost mut fr: u32 = 0;
        let e = match self {
            Instruction::NoOp => Effect::Advance,
            Instruction::Load => match vm.stack.pop() {
                Some(addr) => {
                    let size = vm.heap.len();
                    if size >= 4 && (addr as usize) <= size - 4 {
                        let v = vm.load_word(addr as usize);
                        vm.stack.push(v);
                        Effect::Advance
                    } else {
                        vm.stack.push(addr);
                        assert(vm.stack@.values =~= s.stack);
                        Effect::Stop(Fault::BadAddress)
                    }
                },
                None => Effect::Advance,
            },
            Instruction::Write => match pop_operands(&mut vm.stack) {
                Some((addr, value)) => {
                    let size = vm.heap.len();
                    if size >= 4 && (addr as usize) <= size - 4 {
                        vm.store_word(addr as usize, value);
                        Effect::Advance
                    } else {
                        vm.stack.push(addr);
                        vm.stack.push(value);
                        assert(vm.stack@.values =~= s.stack);
                        Effect::Stop(Fault::BadAddress)
                    }
                },
                None => Effect::Advance,
            },
            Instruction::LoadConst0 => {
                vm.stack.push(0);
                Effect::Advance
            },
            Instruction::LoadConst1 => {
                vm.stack.push(1);
                Effect::Advance
            },
            Instruction::Duplicate => {
                if let Some(depth) = vm.stack.pop() {
                    if !vm.stack.is_empty() {
                        let v = match vm.stack.peek_at(depth as usize) {
                            Some(v) => v,
                            None => 0,
                        };
                        vm.stack.push(v);
                    } else {
                        assert(vm.stack@.values =~= Seq::<u32>::empty());
                    }
                }
                Effect::Advance
            },
            Instruction::Pop => {
                vm.stack.pop();
                Effect::Advance
            },
            Instruction::Jump => match vm.stack.pop() {
                Some(target) => {
                    vm.jump(target as usize);
                    Effect::Transfer
                },
                None => Effect::Advance,
            },
            Instruction::Call => match vm.stack.pop() {
                Some(target) => {
                    vm.enter_frame_and_jump(target as usize);
                    Effect::Transfer
                },
                None => Effect::Advance,
            },
            Instruction::Return => {
                if vm.exit_frame() {
                    Effect::Transfer
                } else {
                    Effect::Advance
                }
            },
            Instruction::Panic => Effect::Stop(Fault::Panic),
            Instruction::AddInt | Instruction::SubtractInt | Instruction::MultiplyInt
            | Instruction::DivideInt | Instruction::ModuloInt => match pop_operands(&mut vm.stack) {
                Some((a, b)) => {
                    let is_division = match self {
                        Instruction::DivideInt | Instruction::ModuloInt => true,
                        _ => false,
                    };
                    if is_division && b == 0 {
                        vm.stack.push(a);
                        vm.stack.push(b);
                        assert(vm.stack@.values =~= s.stack);
                        Effect::Stop(Fault::DivisionByZero)
                    } else {
                        let r = match self {
                            Instruction::AddInt => a.wrapping_add(b),
                            Instruction::SubtractInt => a.wrapping_sub(b),
                            Instruction::MultiplyInt => a.wrapping_mul(b),
                            Instruction::DivideInt => a / b,
                            _ => a % b,
                        };
                        vm.stack.push(r);
                        Effect::Advance
                    }
                },
                None => Effect::Advance,
            },
            _ => match pop_operands(&mut vm.stack) {
                Some((a, b)) => {
                    let op = match self {
                        Instruction::AddFloat => FloatOp::Add,
                        Instruction::SubtractFloat => FloatOp::Subtract,
                        Instruction::MultiplyFloat => FloatOp::Multiply,
                        Instruction::DivideFloat => FloatOp::Divide,
                        _ => FloatOp::Modulo,
                    };
                    let r = float_op(op, a, b);
                    proof {
                        fr = r;
                    }
                    vm.stack.push(r);
                    Effect::Advance
                },
                None => Effect::Advance,
            },
        };
        assert(float_ok(*float_op, *self, s, fr) && exec_spec(*self, s, fr) == (vm@, e));
        e
    }
}

} // verus!
