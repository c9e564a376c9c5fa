//! Facts about the machine's semantics that relate several steps or hold of
//! every state.
use vstd::prelude::*;

use crate::instructions::{exec_spec, Effect, Fault, FloatOp, Instruction};
use crate::vm::{running, runs, step_spec, Outcome, VmState};

verus! {

/// `base` with the values of `ps` pushed onto it, first to last.
pub open spec fn pushed(base: Seq<u32>, ps: Seq<u32>) -> Seq<u32>
    decreases ps.len(),
{
    if ps.len() == 0 {
        base
    } else {
        pushed(base, ps.drop_last()).push(ps.last())
    }
}

/// After any pushes, `Pop` leaves the stack that all but the last push would
/// have left, and changes nothing else.
pub proof fn lemma_pop_undoes_last_push(s: VmState, base: Seq<u32>, ps: Seq<u32>, fr: u32)
    requires
        ps.len() > 0,
        s.stack == pushed(base, ps),
    ensures
        exec_spec(Instruction::Pop, s, fr) == (VmState { stack: pushed(base, ps.drop_last()), ..s }, Effect::Advance),
{
    assert(s.stack == pushed(base, ps.drop_last()).push(ps.last()));
    assert(s.stack.drop_last() =~= pushed(base, ps.drop_last()));
}

/// `Duplicate` with depth 0 copies the top value.
pub proof fn lemma_duplicate_top(s: VmState, rest: Seq<u32>, v: u32, fr: u32)
    requires
        s.stack == rest.push(v).push(0),
    ensures
        exec_spec(Instruction::Duplicate, s, fr) == (VmState { stack: rest.push(v).push(v), ..s }, Effect::Advance),
{
    assert(s.stack.drop_last() =~= rest.push(v));
}

/// `Duplicate` with depth `k`, where `v` lies beneath `k` values `ms`, pushes a
/// copy of `v` and leaves everything below it as it was.
pub proof fn lemma_duplicate_deep(s: VmState, below: Seq<u32>, v: u32, ms: Seq<u32>, fr: u32)
    requires
        ms.len() <= u32::MAX,
        s.stack == (below.push(v) + ms).push(ms.len() as u32),
    ensures
        exec_spec(Instruction::Duplicate, s, fr) == (VmState {
            stack: (below.push(v) + ms).push(v),
            ..s
        }, Effect::Advance),
{
    let rest = below.push(v) + ms;
    assert(s.stack.drop_last() =~= rest);
    assert(rest[rest.len() - 1 - ms.len()] == v);
}

/// A `Call` whose target word is `Return` comes straight back: after the two
/// steps the stack is as it was beneath the call's target, the frames are as
/// before, and the pointer is at the word after the `Call`.
pub proof fn lemma_call_then_return(s: VmState, fr1: u32, fr2: u32)
    requires
        running(s),
        s.program.len() <= usize::MAX,
        s.stack.len() <= usize::MAX,
        s.program[s.pc] == 8,
        s.stack.len() > 0,
        s.stack.last() < s.program.len(),
        s.program[s.stack.last() as int] == 9,
    ensures
        step_spec(s, fr1).1 == None::<Fault>,
        running(step_spec(s, fr1).0),
        step_spec(step_spec(s, fr1).0, fr2) == (VmState {
            stack: s.stack.drop_last(),
            pc: s.pc + 1,
            ..s
        }, None::<Fault>),
{
    let s1 = step_spec(s, fr1).0;
    assert(s1.frames.drop_last() =~= s.frames);
}

/// A program that is a single `Panic` stops at once, with the state untouched.
pub proof fn lemma_panic_program<F: Fn(FloatOp, u32, u32) -> u32>(
    f: F,
    s: VmState,
    fuel: nat,
    t: VmState,
    out: Outcome,
)
    requires
        s.program == seq![10u32],
        s.pc == 0,
        fuel > 0,
        runs(f, s, fuel, t, out),
    ensures
        t == s,
        out == Outcome::Faulted(Fault::Panic),
{
}

/// A word that numbers no instruction is skipped: the pointer moves on by one
/// and nothing else changes.
pub proof fn lemma_unknown_word_skipped(s: VmState, fr: u32)
    requires
        running(s),
        s.program[s.pc] > 20,
    ensures
        step_spec(s, fr) == (VmState { pc: s.pc + 1, ..s }, None::<Fault>),
{
}

} // verus!
