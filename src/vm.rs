//! The virtual machine: program, instruction pointer, operand and frame
//! stacks, and memory, with the fetch-execute loop that drives them.
use vstd::prelude::*;

use crate::instructions::{decode, exec_spec, float_ok, Effect, Fault, FloatOp, Instruction};
use crate::stack::{Stack, StackFrame};

verus! {

/// Bytes of memory in the standard configuration.
pub const HEAP_SIZE: usize = 1024;

/// The abstract state of a `VM`.
pub struct VmState {
    pub program: Seq<u32>,
    pub pc: int,
    pub stack: Seq<u32>,
    pub frames: Seq<StackFrame>,
    pub heap: Seq<u8>,
}

/// The little-endian word held by the four bytes of `heap` from `addr` on.
pub open spec fn word_at(heap: Seq<u8>, addr: int) -> u32 {
    (heap[addr] + heap[addr + 1] * 256 + heap[addr + 2] * 65536 + heap[addr + 3] * 16777216) as u32
}

/// `heap` with the four bytes from `addr` on holding `value`, little-endian.
pub open spec fn stored(heap: Seq<u8>, addr: int, value: u32) -> Seq<u8> {
    heap.update(addr, (value % 256) as u8).update(addr + 1, (value / 256 % 256) as u8).update(
        addr + 2,
        (value / 65536 % 256) as u8,
    ).update(addr + 3, (value / 16777216) as u8)
}

/// Whether a whole word at `addr` lies inside a memory of `size` bytes.
pub open spec fn word_fits(size: int, addr: int) -> bool {
    0 <= addr && addr + 4 <= size
}

/// How a run of the machine ended.
#[derive(Clone, Copy, PartialEq, Eq, Structural, Debug)]
pub enum Outcome {
    /// The pointer left the program.
    Finished,
    /// An instruction stopped the machine.
    Faulted(Fault),
    /// The step budget ran out with the machine still running.
    OutOfFuel,
}

/// Whether the pointer of `s` designates a word of its program.
pub open spec fn running(s: VmState) -> bool {
    0 <= s.pc < s.program.len()
}

/// One step of a running machine: decode the current word and run it, where
/// a float instruction's result is `fr`. An undecodable word is skipped; an
/// instruction that leaves the pointer alone is followed by the next word.
/// Gives the new state and the fault that stopped the machine, if any.
pub open spec fn step_spec(s: VmState, fr: u32) -> (VmState, Option<Fault>) {
    match decode(s.program[s.pc]) {
        None => (VmState { pc: s.pc + 1, ..s }, None),
        Some(i) => {
            let (t, e) = exec_spec(i, s, fr);
            match e {
                Effect::Advance => (VmState { pc: t.pc + 1, ..t }, None),
                Effect::Transfer => (t, None),
                Effect::Stop(fault) => (t, Some(fault)),
            }
        },
    }
}

/// Whether `fr` is a result that `f` may give for the float evaluation that
/// the next step of `s` asks for.
pub open spec fn step_ok<F: Fn(FloatOp, u32, u32) -> u32>(f: F, s: VmState, fr: u32) -> bool {
    match decode(s.program[s.pc]) {
        Some(i) => float_ok(f, i, s, fr),
        None => true,
    }
}

/// Whether running from `s` for at most `fuel` steps, with float evaluator
/// `f`, may end in state `t` with outcome `out`.
pub open spec fn runs<F: Fn(FloatOp, u32, u32) -> u32>(
    f: F,
    s: VmState,
    fuel: nat,
    t: VmState,
    out: Outcome,
) -> bool
    decreases fuel,
{
    if !running(s) {
        t == s && out == Outcome::Finished
    } else if fuel == 0 {
        t == s && out == Outcome::OutOfFuel
    } else {
        exists|fr: u32|
            step_ok(f, s, fr) && match #[trigger] step_spec(s, fr) {
                (s2, Some(fault)) => t == s2 && out == Outcome::Faulted(fault),
                (s2, None) => runs(f, s2, (fuel - 1) as nat, t, out),
            }
    }
}

/// A machine running one program over an operand stack and a fixed-size,
/// zero-initialised memory.
pub struct VM {
    pub program: Vec<u32>,
    pub program_pointer: usize,
    pub stack: Stack,
    pub heap: Vec<u8>,
}

impl View for VM {
    type V = VmState;

    open spec fn view(&self) -> VmState {
        VmState {
            program: self.program@,
            pc: self.program_pointer as int,
            stack: self.stack@.values,
            frames: self.stack@.frames,
            heap: self.heap@,
        }
    }
}

impl VM {
    /// A machine at the start of `program`, with `HEAP_SIZE` bytes of memory.
    pub fn new(program: Vec<u32>) -> (r: VM)
        ensures
            r@.program == program@,
            r@.pc == 0,
            r@.stack == Seq::<u32>::empty(),
            r@.frames == Seq::<StackFrame>::empty(),
            r@.heap == Seq::new(HEAP_SIZE as nat, |i: int| 0u8),
    {
        VM::with_heap_size(program, HEAP_SIZE)
    }

    /// A machine at the start of `program`, with `heap_size` zero bytes of memory.
    pub fn with_heap_size(program: Vec<u32>, heap_size: usize) -> (r: VM)
        ensures
            r@.program == program@,
            r@.pc == 0,
            r@.stack == Seq::<u32>::empty(),
            r@.frames == Seq::<StackFrame>::empty(),
            r@.heap == Seq::new(heap_size as nat, |i: int| 0u8),
    {
        let mut heap: Vec<u8> = Vec::new();
        let mut i: usize = 0;
        while i < heap_size
            invariant
                i <= heap_size,
                heap@ == Seq::new(i as nat, |j: int| 0u8),
            decreases heap_size - i,
        {
            heap.push(0);
            i = i + 1;
        }
        VM { program, program_pointer: 0, stack: Stack::new(), heap }
    }

    /// Opens a call frame bounded by the current stack length, to resume at
    /// the word after the current one.
    pub fn enter_frame(&mut self)
        requires
            old(self).program_pointer < usize::MAX,
        ensures
            final(self)@ == (VmState {
                frames: old(self)@.frames.push(
                    StackFrame {
                        bound: old(self)@.stack.len() as usize,
                        program_pointer: (old(self)@.pc + 1) as usize,
                    },
                ),
                ..old(self)@
            }),
    {
        self.stack.enter_frame(self.program_pointer + 1)
    }

    pub fn jump(&mut self, jump_to: usize)
        ensures
            final(self)@ == (VmState { pc: jump_to as int, ..old(self)@ }),
    {
        self.program_pointer = jump_to;
    }

    /// Opens a call frame (see `enter_frame`) and continues at `jump_to`.
    pub fn enter_frame_and_jump(&mut self, jump_to: usize)
        requires
            old(self).program_pointer < usize::MAX,
        ensures
            final(self)@ == (VmState {
                pc: jump_to as int,
                frames: old(self)@.frames.push(
                    StackFrame {
                        bound: old(self)@.stack.len() as usize,
                        program_pointer: (old(self)@.pc + 1) as usize,
                    },
                ),
                ..old(self)@
            }),
    {
        self.enter_frame();
        self.jump(jump_to);
    }

    /// Closes the innermost frame: cuts the stack back to its bound and
    /// continues at its resume pointer. Returns whether a frame was open;
    /// with none, nothing changes.
    pub fn exit_frame(&mut self) -> (r: bool)
        ensures
            r == (old(self)@.frames.len() > 0),
            !r ==> final(self)@ == old(self)@,
            r ==> final(self)@ == (VmState {
                pc: old(self)@.frames.last().program_pointer as int,
                stack: crate::stack::truncated(old(self)@.stack, old(self)@.frames.last().bound as int),
                frames: old(self)@.frames.drop_last(),
                ..old(self)@
            }),
    {
        if let Some(pointer) = self.stack.exit_frame() {
            self.jump(pointer);
            true
        } else {
            false
        }
    }

    /// Decodes and runs the word at the pointer, then moves the pointer on
    /// unless the instruction set it. Gives the fault that stops the machine,
    /// if one did.
    pub fn step<F: Fn(FloatOp, u32, u32) -> u32>(&mut self, float_op: &F) -> (r: Option<Fault>)
        requires
            running(old(self)@),
            forall|op: FloatOp, a: u32, b: u32| call_requires(*float_op, (op, a, b)),
        ensures
            exists|fr: u32|
                step_ok(*float_op, old(self)@, fr) && #[trigger] step_spec(old(self)@, fr) == (
                final(self)@,
                r,
            ),
    {
        let ghost s = self@;
        let len = self.program.len();
        let word = self.program[self.program_pointer];
        match Instruction::from_opcode(word) {
            Some(instr) => {
                let e = instr.run(self, float_op);
                let ghost fr = choose|fr: u32|
                    float_ok(*float_op, instr, s, fr) && #[trigger] exec_spec(instr, s, fr) == (
                    self@,
                    e,
                );
                assert(step_ok(*float_op, s, fr));
                match e {
                    Effect::Advance => {
                        assert(self.program_pointer == s.pc);
                        self.program_pointer = self.program_pointer + 1;
                        assert(step_spec(s, fr) == (self@, None::<Fault>));
                        None
                    },
                    Effect::Transfer => {
                        assert(step_spec(s, fr) == (self@, None::<Fault>));
                        None
                    },
                    Effect::Stop(fault) => {
                        assert(step_spec(s, fr) == (self@, Some(fault)));
                        Some(fault)
                    },
                }
            },
            None => {
                self.program_pointer = self.program_pointer + 1;
                assert(step_spec(s, 0) == (self@, None::<Fault>));
                None
            },
        }
    }

    /// Runs the program until the pointer leaves it, an instruction stops the
    /// machine, or `fuel` steps have been taken.
    pub fn run_program<F: Fn(FloatOp, u32, u32) -> u32>(&mut self, fuel: u64, float_op: &F) -> (out:
        Outcome)
        requires
            forall|op: FloatOp, a: u32, b: u32| call_requires(*float_op, (op, a, b)),
        ensures
            runs(*float_op, old(self)@, fuel as nat, final(self)@, out),
    {
        let mut left: u64 = fuel;
        while self.program_pointer < self.program.len()
            invariant
                forall|op: FloatOp, a: u32, b: u32| call_requires(*float_op, (op, a, b)),
                forall|t: VmState, o: Outcome|
                    runs(*float_op, self@, left as nat, t, o) ==> runs(
                        *float_op,
                        old(self)@,
                        fuel as nat,
                        t,
                        o,
                    ),
            decreases left,
        {
            if left == 0 {
                assert(runs(*float_op, self@, 0, self@, Outcome::OutOfFuel));
                return Outcome::OutOfFuel;
            }
            let ghost s = self@;
            let stopped = self.step(float_op);
            let ghost fr = choose|fr: u32|
                step_ok(*float_op, s, fr) && #[trigger] step_spec(s, fr) == (self@, stopped);
            if let Some(fault) = stopped {
                assert(runs(*float_op, s, left as nat, self@, Outcome::Faulted(fault)));
                return Outcome::Faulted(fault);
            }
            assert forall|t: VmState, o: Outcome|
                runs(*float_op, self@, (left - 1) as nat, t, o) implies runs(
                    *float_op,
                    old(self)@,
                    fuel as nat,
                    t,
                    o,
                ) by {
                assert(step_ok(*float_op, s, fr) && step_spec(s, fr) == (self@, None::<Fault>));
                assert(runs(*float_op, s, left as nat, t, o));
            }
            left = left - 1;
        }
        assert(runs(*float_op, self@, left as nat, self@, Outcome::Finished));
        Outcome::Finished
    }

    /// The word at `addr` in memory.
    pub fn load_word(&self, addr: usize) -> (r: u32)
        requires
            word_fits(self@.heap.len() as int, addr as int),
        ensures
            r == word_at(self@.heap, addr as int),
    {
        let size = self.heap.len();
        assert(addr + 3 < size);
        let b0 = self.heap[addr] as u32;
        let b1 = self.heap[addr + 1] as u32;
        let b2 = self.heap[addr + 2] as u32;
        let b3 = self.heap[addr + 3] as u32;
        b0 + b1 * 256 + b2 * 65536 + b3 * 16777216
    }

    /// Stores `value` as four little-endian bytes at `addr`.
    pub fn store_word(&mut self, addr: usize, value: u32)
        requires
            word_fits(old(self)@.heap.len() as int, addr as int),
        ensures
            final(self)@ == (VmState { heap: stored(old(self)@.heap, addr as int, value), ..old(self)@ }),
    {
        let size = self.heap.len();
        assert(addr + 3 < size);
        self.heap.set(addr, (value % 256) as u8);
        self.heap.set(addr + 1, (value / 256 % 256) as u8);
        self.heap.set(addr + 2, (value / 65536 % 256) as u8);
        self.heap.set(addr + 3, (value / 16777216) as u8);
    }

    /// The program's result: the top of the operand stack, or 0 when it is empty.
    pub fn result(&self) -> (r: u32)
        ensures
            self@.stack.len() == 0 ==> r == 0,
            self@.stack.len() > 0 ==> r == self@.stack.last(),
    {
        match self.stack.peek() {
            Some(v) => *v,
            None => 0,
        }
    }
}

} // verus!
