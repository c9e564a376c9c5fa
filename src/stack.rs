//! The operand stack and the stack of call frames that scopes it.
use vstd::prelude::*;

verus! {

/// A call frame: the operand-stack length when the frame was opened, and the
/// instruction pointer at which execution resumes when it is closed.
pub struct StackFrame {
    pub bound: usize,
    pub program_pointer: usize,
}

/// The abstract contents of a `Stack`: the operand values, bottom first, and
/// the open frames, outermost first.
pub struct StackView {
    pub values: Seq<u32>,
    pub frames: Seq<StackFrame>,
}

/// The operand stack cut back to at most `bound` values.
pub open spec fn truncated(values: Seq<u32>, bound: int) -> Seq<u32> {
    if values.len() > bound {
        values.subrange(0, bound)
    } else {
        values
    }
}

/// An operand stack of 32-bit words together with a stack of call frames.
pub struct Stack {
    vec: Vec<u32>,
    frames: Vec<StackFrame>,
}

impl View for Stack {
    type V = StackView;

    closed spec fn view(&self) -> StackView {
        StackView { values: self.vec@, frames: self.frames@ }
    }
}

impl Stack {
    pub fn new() -> (r: Stack)
        ensures
            r@.values == Seq::<u32>::empty(),
            r@.frames == Seq::<StackFrame>::empty(),
    {
        Stack { vec: Vec::new(), frames: Vec::new() }
    }

    /// Removes and returns the top value; `None` on an empty stack, which is
    /// then left as it was. Frames are untouched.
    pub fn pop(&mut self) -> (r: Option<u32>)
        ensures
            old(self)@.values.len() == 0 ==> r == None::<u32> && final(self)@ == old(self)@,
            old(self)@.values.len() > 0 ==> r == Some(old(self)@.values.last())
                && final(self)@.values == old(self)@.values.drop_last(),
            final(self)@.frames == old(self)@.frames,
    {
        self.vec.pop()
    }

    pub fn push(&mut self, element: u32)
        ensures
            final(self)@.values == old(self)@.values.push(element),
            final(self)@.frames == old(self)@.frames,
    {
        self.vec.push(element)
    }

    /// The top value, if any.
    pub fn peek(&self) -> (r: Option<&u32>)
        ensures
            self@.values.len() == 0 ==> r == None::<&u32>,
            self@.values.len() > 0 ==> r == Some(&self@.values.last()),
    {
        if self.vec.len() == 0 {
            None
        } else {
            Some(&self.vec[self.vec.len() - 1])
        }
    }

    /// The value `depth` places below the top (`0` is the top), if the stack
    /// is that deep.
    pub fn peek_at(&self, depth: usize) -> (r: Option<u32>)
        ensures
            depth < self@.values.len() ==> r == Some(self@.values[self@.values.len() - 1 - depth]),
            depth >= self@.values.len() ==> r == None::<u32>,
    {
        let n = self.vec.len();
        if depth < n {
            Some(self.vec[n - 1 - depth])
        } else {
            None
        }
    }

    /// Opens a frame bounded by the current length, resuming at
    /// `current_program_pointer` when closed.
    pub fn enter_frame(&mut self, current_program_pointer: usize)
        ensures
            final(self)@.values == old(self)@.values,
            final(self)@.frames == old(self)@.frames.push(
                StackFrame { bound: old(self)@.values.len() as usize, program_pointer: current_program_pointer },
            ),
    {
        let bound = self.vec.len();
        self.frames.push(StackFrame { bound, program_pointer: current_program_pointer })
    }

    /// Closes the innermost frame, discarding the values pushed above its
    /// bound, and returns its resume pointer; `None`, with nothing changed,
    /// when no frame is open.
    pub fn exit_frame(&mut self) -> (r: Option<usize>)
        ensures
            old(self)@.frames.len() == 0 ==> r == None::<usize> && final(self)@ == old(self)@,
            old(self)@.frames.len() > 0 ==> {
                let frame = old(self)@.frames.last();
                &&& r == Some(frame.program_pointer)
                &&& final(self)@.frames == old(self)@.frames.drop_last()
                &&& final(self)@.values == truncated(old(self)@.values, frame.bound as int)
            },
    {
        if let Some(frame) = self.frames.pop() {
            while self.vec.len() > frame.bound
                invariant
                    self.vec@ == truncated(old(self)@.values, self.vec@.len() as int),
                    old(self)@.values.len() >= self.vec@.len(),
                    self.vec@.len() < old(self)@.values.len() ==> self.vec@.len() >= frame.bound,
                    frame == old(self)@.frames.last(),
                    old(self)@.frames.len() > 0,
                    self.frames@ == old(self)@.frames.drop_last(),
                decreases self.vec@.len(),
            {
                self.vec.pop();
            }
            return Some(frame.program_pointer);
        }
        return None;
    }

    pub fn is_empty(&self) -> (r: bool)
        ensures
            r == (self@.values.len() == 0),
    {
        self.vec.is_empty()
    }

    pub fn len(&self) -> (r: usize)
        ensures
            r == self@.values.len(),
    {
        self.vec.len()
    }
}

} // verus!
