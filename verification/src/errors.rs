use vstd::prelude::*;

verus! {

/// The kinds of fatal error a run of the virtual machine can end with.
///
/// Every kind is terminal: the interpreter stops at the first error and no
/// recovery is attempted.
#[derive(Clone, Copy, Debug, PartialEq, Eq, Structural)]
pub enum IErrorKind {
    /// A pointer with allocation id 0 was dereferenced.
    NullPointer,
    /// A pointer referenced an unknown allocation, a dead allocation, or a
    /// byte range outside its allocation.
    InvalidPointer,
    /// A heap allocation was freed a second time.
    DoubleFree,
    /// A free was attempted on something that is not a live heap allocation.
    NotHeapMemory,
    /// The live stack bytes would exceed the fixed stack budget.
    StackOverflow,
    /// The call stack would exceed the fixed frame limit.
    RecursionLimit,
    /// A return was executed with no caller frame left.
    NoFramesLeft,
    /// A jump target failed the alignment or executable-range check.
    InvalidJump,
    /// The program counter is not a multiple of four.
    UnalignedProgramCounter,
    /// The program counter left the executable region.
    OutOfBoundsExecutable,
    /// The byte arena cannot grow any further.
    OutOfMemory,
    /// A decoded instruction is not supported by this implementation.
    Unimplemented,
    /// An internal invariant was violated, indicating a bug in the program
    /// image rather than in the executed guest code.
    Internal,
}

/// A fatal interpreter error, carrying the kind of failure.
#[derive(Clone, Copy, Debug, PartialEq, Eq, Structural)]
pub struct IError {
    pub kind: IErrorKind,
}

impl IError {
    pub fn new(kind: IErrorKind) -> (r: Self)
        ensures
            r.kind == kind,
    {
        IError { kind }
    }
}

} // verus!
