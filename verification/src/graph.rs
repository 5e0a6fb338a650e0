use vstd::prelude::*;

verus! {

/// A half-open range of op indices forming one basic block.
#[derive(Debug, Clone, Copy, PartialEq, Eq, Structural)]
pub struct OpRange {
    pub start: u32,
    pub end: u32,
}

/// Where an intermediate operation reads from or writes to: a stack slot
/// of the current frame, a register holding a temporary, or nothing.
#[derive(Debug, Clone, Copy, PartialEq, Eq, Structural)]
pub enum Operand {
    StackLocal { id: u16 },
    RegisterValue { id: u8 },
    Null,
}

/// One operation of the intermediate basic-block form the assembler
/// lowers into bytecode.
#[derive(Debug, Clone, Copy, PartialEq, Eq, Structural)]
pub enum GraphOpKind {
    DeclareStack { size: u32 },
    StackDealloc { count: u16 },
    ConstantU64 { target: Operand, value: u64 },
    Add { target: Operand, left: Operand, right: Operand },
    Print { value: Operand },
    PrintNewline,
    ExitSuccess,
}

/// One intermediate operation.
#[derive(Debug, Clone, Copy, PartialEq, Eq, Structural)]
pub struct GraphOp {
    pub kind: GraphOpKind,
}

/// The ops of one basic block.
#[derive(Debug, Clone, Copy, PartialEq, Eq, Structural)]
pub struct BBInfo {
    pub ops: OpRange,
}

/// The intermediate graph: a flat pool of operations and the basic blocks
/// carved out of it.
pub struct Graph {
    pub ops: Vec<GraphOp>,
    pub blocks: Vec<BBInfo>,
    pub current_begin: u32,
}

impl Graph {
    /// Graph invariant: the op pool is addressable by `u32` and every
    /// block's range lies inside it.
    pub open spec fn wf(self) -> bool {
        &&& self.ops@.len() <= 0xFFFF_FFFF
        &&& self.blocks@.len() <= 0xFFFF_FFFF
        &&& self.current_begin <= self.ops@.len()
        &&& forall|i: int|
            0 <= i < self.blocks@.len() ==> (#[trigger] self.blocks@[i]).ops.start
                <= self.blocks@[i].ops.end && self.blocks@[i].ops.end <= self.ops@.len()
    }

    pub fn new() -> (r: Self)
        ensures
            r.wf(),
            r.ops@.len() == 0,
            r.blocks@.len() == 0,
    {
        Graph { ops: Vec::new(), blocks: Vec::new(), current_begin: 0 }
    }

    /// Closes the block that started where the previous one ended and
    /// returns its id.
    pub fn complete_block(&mut self) -> (r: u32)
        requires
            old(self).wf(),
            old(self).blocks@.len() < 0xFFFF_FFFF,
        ensures
            final(self).wf(),
            r == old(self).blocks@.len(),
            final(self).ops@ == old(self).ops@,
            final(self).current_begin == old(self).current_begin,
            final(self).blocks@ == old(self).blocks@.push(
                BBInfo {
                    ops: OpRange {
                        start: old(self).current_begin,
                        end: old(self).ops@.len() as u32,
                    },
                },
            ),
    {
        let begin = self.current_begin;
        let end = self.ops.len() as u32;

        let id = self.blocks.len() as u32;

        let ops = OpRange { start: begin, end };

        self.blocks.push(BBInfo { ops });

        id
    }

    /// Appends one operation to the pool.
    pub fn add(&mut self, op: GraphOp)
        requires
            old(self).wf(),
            old(self).ops@.len() < 0xFFFF_FFFF,
        ensures
            final(self).wf(),
            final(self).ops@ == old(self).ops@.push(op),
            final(self).blocks@ == old(self).blocks@,
    {
        self.ops.push(op);
    }
}

} // verus!
