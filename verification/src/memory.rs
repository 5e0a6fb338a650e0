use vstd::prelude::*;

verus! {

use crate::arena::{read_word64, write_word64, word32_at, word64_at};
use crate::errors::{IError, IErrorKind};
use crate::lens::AllocLen;
use crate::regs::{
    InReg,
    In64Reg,
    spec_truncate,
    spec_sign_extend,
    truncate,
    sign_extend_and_truncate,
};
use crate::tracker::{
    AllocTracker,
    AllocInfo,
    Ptr,
    padded_size,
    lemma_padded_size,
    spec_get_range,
};

/// Budget of live stack bytes; every stack allocation is checked against
/// it.
pub const MAX_STACK_SIZE: u32 = 4 * 1024 * 1024;

/// Maximum depth of the call stack.
pub const MAX_STACK_FRAMES: usize = 4000;

/// Arena fill level past which no further allocation is attempted, leaving
/// room for one maximal stack allocation (or register block) plus padding
/// below the arena's absolute ceiling.
pub const ARENA_LIMIT: u32 = 0xFFFF_FFF8 - MAX_STACK_SIZE - 8;

/// One call frame: where it is executing, where its own stack-slot ids
/// begin in the stack pointer map, and where its register block lives.
#[derive(Debug, Clone, Copy, PartialEq, Eq, Structural)]
pub struct StackFrame {
    pub program_counter: u32,
    pub map_offset: u32,
    // register block is always 32 * 8 = 256 bytes long
    pub registers_start: u32,
}

impl StackFrame {
    /// The frame's register block lies inside the arena at an aligned
    /// start.
    pub open spec fn wf(self, arena_len: int) -> bool {
        self.registers_start % 8 == 0 && self.registers_start + 256 <= arena_len
    }
}

/// The byte length behind a stack-map entry: the decoded length of the
/// live stack record it names, or 0 for anything else.
pub open spec fn live_len(infos: Seq<AllocInfo>, id: u32) -> int {
    if 1 <= id <= infos.len() {
        match infos[id - 1] {
            AllocInfo::StackLive { len, .. } => len.spec_len() as int,
            _ => 0,
        }
    } else {
        0
    }
}

/// Total bytes of the live stack allocations a stack pointer map names.
pub open spec fn sum_lens(map: Seq<u32>, infos: Seq<AllocInfo>) -> int
    decreases map.len(),
{
    if map.len() == 0 {
        0
    } else {
        sum_lens(map.drop_last(), infos) + live_len(infos, map.last())
    }
}

/// The total only depends on the records the map names: record tables
/// that agree on every named entry give the same total.
proof fn lemma_sum_lens_agree(map: Seq<u32>, infos1: Seq<AllocInfo>, infos2: Seq<AllocInfo>)
    requires
        forall|i: int|
            0 <= i < map.len() ==> live_len(infos1, #[trigger] map[i]) == live_len(infos2, map[i]),
    ensures
        sum_lens(map, infos1) == sum_lens(map, infos2),
    decreases map.len(),
{
    if map.len() > 0 {
        assert(forall|i: int|
            0 <= i < map.drop_last().len() ==> #[trigger] map.drop_last()[i] == map[i]);
        lemma_sum_lens_agree(map.drop_last(), infos1, infos2);
        assert(map.last() == map[map.len() - 1]);
    }
}

/// A stack total is never negative.
proof fn lemma_sum_lens_nonneg(map: Seq<u32>, infos: Seq<AllocInfo>)
    ensures
        sum_lens(map, infos) >= 0,
    decreases map.len(),
{
    if map.len() > 0 {
        lemma_sum_lens_nonneg(map.drop_last(), infos);
    }
}

/// The record table after releasing the stack-map entries from position
/// `from` on: each record those entries name turns `StackDead`, keeping
/// its creator; every other record is exactly unchanged.
pub open spec fn dead_after_pops(infos: Seq<AllocInfo>, map: Seq<u32>, from: int) -> Seq<
    AllocInfo,
> {
    Seq::new(
        infos.len(),
        |j: int|
            if exists|k: int| from <= k < map.len() && map[k] == j + 1 {
                match infos[j] {
                    AllocInfo::StackLive { creation_op, .. } => AllocInfo::StackDead {
                        creation_op,
                    },
                    other => other,
                }
            } else {
                infos[j]
            },
    )
}

/// A strictly increasing map of record ids in `1..=bound` is at most
/// `bound` long.
proof fn lemma_map_len_bound(map: Seq<u32>, bound: int)
    requires
        0 <= bound,
        forall|i: int, j: int| 0 <= i < j < map.len() ==> map[i] < map[j],
        forall|i: int| 0 <= i < map.len() ==> 1 <= #[trigger] map[i] <= bound,
    ensures
        map.len() <= bound,
    decreases map.len(),
{
    if map.len() > 0 {
        assert(1 <= map[map.len() - 1] <= bound);
        assert forall|i: int| 0 <= i < map.drop_last().len() implies 1 <= #[trigger] map.drop_last()[
            i] <= bound - 1 by {
            assert(map.drop_last()[i] == map[i]);
            assert(map[i] < map[map.len() - 1]);
        }
        lemma_map_len_bound(map.drop_last(), bound - 1);
    }
}

/// Whether a program counter may be executed from: it must be 4-byte
/// aligned and lie inside the executable region of the manifest.
pub open spec fn spec_check_pc(
    manifest: crate::tracker::BinaryManifest,
    pc: u32,
) -> Result<(), IError> {
    if pc % 4 != 0 {
        Err(IError { kind: IErrorKind::UnalignedProgramCounter })
    } else if pc < manifest.static_exe_start {
        Err(IError { kind: IErrorKind::OutOfBoundsExecutable })
    } else if pc >= manifest.static_exe_end {
        Err(IError { kind: IErrorKind::OutOfBoundsExecutable })
    } else {
        Ok(())
    }
}

/// The register file and call-frame state of one running program: the
/// allocation tracker it owns, the live-stack byte count, the executing
/// frame, the stack pointer map, and the stack of suspended frames.
pub struct Memory {
    pub data: AllocTracker,
    pub stack_byte_size: u32,
    pub current_frame: StackFrame,
    pub stack_pointer_map: Vec<u32>,
    pub stack_frames: Vec<StackFrame>,
}

impl Memory {
    /// Memory invariant.  Beyond the tracker's own invariant: every frame
    /// owns a register block inside the arena; map offsets of suspended
    /// frames never pass the current frame's, which never passes the map
    /// length; the map names strictly increasing ids of live stack
    /// records; and the live-stack byte count is exactly the total length
    /// of the allocations the map names, within budget.
    pub open spec fn wf(self) -> bool {
        &&& self.data.wf()
        &&& self.current_frame.wf(self.data.arena().len() as int)
        &&& forall|i: int|
            0 <= i < self.stack_frames@.len() ==> (#[trigger] self.stack_frames@[i]).wf(
                self.data.arena().len() as int,
            )
        &&& self.current_frame.map_offset <= self.stack_pointer_map@.len()
        &&& forall|i: int|
            0 <= i < self.stack_frames@.len() ==> (#[trigger] self.stack_frames@[i]).map_offset
                <= self.current_frame.map_offset
        &&& forall|i: int, j: int|
            0 <= i < j < self.stack_frames@.len() ==> self.stack_frames@[i].map_offset
                <= self.stack_frames@[j].map_offset
        &&& forall|i: int|
            0 <= i < self.stack_pointer_map@.len() ==> 1 <= #[trigger] self.stack_pointer_map@[i]
                <= self.data.alloc_info@.len()
        &&& forall|i: int|
            0 <= i < self.stack_pointer_map@.len() ==> self.data.alloc_info@[(
            #[trigger] self.stack_pointer_map@[i]) - 1] is StackLive
        &&& forall|i: int, j: int|
            0 <= i < j < self.stack_pointer_map@.len() ==> self.stack_pointer_map@[i]
                < self.stack_pointer_map@[j]
        &&& self.stack_byte_size == sum_lens(self.stack_pointer_map@, self.data.alloc_info@)
        &&& self.stack_byte_size <= MAX_STACK_SIZE
        &&& self.stack_frames@.len() <= MAX_STACK_FRAMES
    }

    /// Takes ownership of a loaded tracker and carves the root frame's
    /// register block out of its arena; execution starts at the beginning
    /// of the executable region.
    pub fn new(data: AllocTracker) -> (r: Self)
        requires
            data.wf(),
            data.arena().len() <= ARENA_LIMIT,
        ensures
            r.wf(),
            r.data.manifest == data.manifest,
            r.data.alloc_info@ == data.alloc_info@,
            r.current_frame.program_counter == data.manifest.static_exe_start,
            r.current_frame.map_offset == 0,
            r.current_frame.registers_start == data.arena().len(),
            r.data.arena().len() == data.arena().len() + 256,
            r.stack_pointer_map@.len() == 0,
            r.stack_frames@.len() == 0,
            r.stack_byte_size == 0,
            forall|i: int|
                0 <= i < data.arena().len() ==> r.data.arena()[i] == data.arena()[i],
            forall|i: int|
                data.arena().len() <= i < r.data.arena().len() ==> r.data.arena()[i] == 0,
    {
        let mut data = data;
        // 256 bytes in compressed form
        let reg_len = AllocLen { len: 128, power: 1 };
        proof {
            assert((128u32 << 1u32) == 256) by (bit_vector);
            assert(padded_size(reg_len.spec_len() as int) == 256);
        }
        let range = data.alloc_range(reg_len);

        let current_frame = StackFrame {
            program_counter: data.manifest.static_exe_start,
            map_offset: 0,
            registers_start: range.start,
        };

        Memory {
            data,
            stack_byte_size: 0,
            current_frame,
            stack_pointer_map: Vec::new(),
            stack_frames: Vec::new(),
        }
    }

    /// Writes a 64-bit value into a register of the current frame's
    /// register block.
    pub fn write_register(&mut self, id: u8, value: u64) -> (r: Result<(), IError>)
        requires
            old(self).wf(),
        ensures
            final(self).wf(),
            id >= 32 ==> r == Err::<(), IError>(IError { kind: IErrorKind::Internal }) && *final(self) == *old(self),
            id < 32 ==> r == Ok::<(), IError>(()) && {
                &&& final(self).data.arena().len() == old(self).data.arena().len()
                &&& word64_at(
                    final(self).data.arena(),
                    old(self).current_frame.registers_start + 8 * id,
                ) == value
                &&& forall|j: int|
                    0 <= j < old(self).data.arena().len() && !(old(self).current_frame.registers_start + 8 * id <= j < old(self).current_frame.registers_start + 8 * id + 8) ==> final(self).data.arena()[j]
                        == old(self).data.arena()[j]
                &&& final(self).data.alloc_info@ == old(self).data.alloc_info@
                &&& final(self).data.manifest == old(self).data.manifest
                &&& final(self).current_frame == old(self).current_frame
                &&& final(self).stack_pointer_map@ == old(self).stack_pointer_map@
                &&& final(self).stack_frames@ == old(self).stack_frames@
                &&& final(self).stack_byte_size == old(self).stack_byte_size
            },
    {
        if id >= 32 {
            return Err(IError::new(IErrorKind::Internal));
        }
        let offset = self.current_frame.registers_start + (id as u32) * 8;
        write_word64(&mut self.data.bytes, offset, value);
        proof {
            lemma_sum_lens_agree(
                self.stack_pointer_map@,
                old(self).data.alloc_info@,
                self.data.alloc_info@,
            );
        }
        Ok(())
    }

    /// Reads a register of the current frame's register block.
    pub fn read_register(&self, id: u8) -> (r: Result<u64, IError>)
        requires
            self.wf(),
        ensures
            id < 32 ==> r == Ok::<u64, IError>(
                word64_at(self.data.arena(), self.current_frame.registers_start + 8 * id),
            ),
            id >= 32 ==> r == Err::<u64, IError>(IError { kind: IErrorKind::Internal }),
    {
        if id >= 32 {
            return Err(IError::new(IErrorKind::Internal));
        }
        let offset = self.current_frame.registers_start + (id as u32) * 8;
        Ok(read_word64(&self.data.bytes, offset))
    }

    /// Reads a sized register input, truncated to the operand's width as
    /// an unsigned value.
    pub fn read_unsigned_reg(&self, reg: InReg) -> (r: Result<u64, IError>)
        requires
            self.wf(),
        ensures
            (match reg.spec_id() {
                None => r == Err::<u64, IError>(IError { kind: IErrorKind::Internal }),
                Some(id) => r == Ok::<u64, IError>(
                    spec_truncate(
                        reg.spec_size_class(),
                        word64_at(self.data.arena(), self.current_frame.registers_start + 8 * id),
                    ),
                ),
            }),
    {
        let id = match reg.expect_id() {
            Ok(id) => id,
            Err(e) => {
                return Err(e);
            },
        };
        let raw = match self.read_register(id) {
            Ok(v) => v,
            Err(e) => {
                return Err(e);
            },
        };
        Ok(truncate(reg.size_class(), raw))
    }

    /// Reads a sized register input, sign-extended from the operand's
    /// width to 64 bits.
    pub fn read_signed_reg(&self, reg: InReg) -> (r: Result<i64, IError>)
        requires
            self.wf(),
        ensures
            (match reg.spec_id() {
                None => r == Err::<i64, IError>(IError { kind: IErrorKind::Internal }),
                Some(id) => r == Ok::<i64, IError>(
                    spec_sign_extend(
                        reg.spec_size_class(),
                        word64_at(self.data.arena(), self.current_frame.registers_start + 8 * id),
                    ),
                ),
            }),
    {
        let id = match reg.expect_id() {
            Ok(id) => id,
            Err(e) => {
                return Err(e);
            },
        };
        let raw = match self.read_register(id) {
            Ok(v) => v,
            Err(e) => {
                return Err(e);
            },
        };
        Ok(sign_extend_and_truncate(reg.size_class(), raw))
    }

    /// Reads a full-width register input.
    pub fn read_reg64(&self, reg: In64Reg) -> (r: Result<u64, IError>)
        requires
            self.wf(),
        ensures
            (match reg.spec_id() {
                None => r == Err::<u64, IError>(IError { kind: IErrorKind::Internal }),
                Some(id) => r == Ok::<u64, IError>(
                    word64_at(self.data.arena(), self.current_frame.registers_start + 8 * id),
                ),
            }),
    {
        let id = match reg.expect_id() {
            Ok(id) => id,
            Err(e) => {
                return Err(e);
            },
        };
        self.read_register(id)
    }

    /// Validates a prospective program counter against the manifest.
    pub fn check_pc(&self, new_pc: u32) -> (r: Result<(), IError>)
        requires
            self.wf(),
        ensures
            r == spec_check_pc(self.data.manifest, new_pc),
    {
        if new_pc / 4 * 4 != new_pc {
            return Err(IError::new(IErrorKind::UnalignedProgramCounter));
        }
        if new_pc < self.data.manifest.static_exe_start {
            return Err(IError::new(IErrorKind::OutOfBoundsExecutable));
        }
        if new_pc >= self.data.manifest.static_exe_end {
            return Err(IError::new(IErrorKind::OutOfBoundsExecutable));
        }
        Ok(())
    }

    /// Moves the program counter, rejecting any target that fails the
    /// alignment or executable-range check with `InvalidJump`.
    pub fn jmp(&mut self, new_pc: u32) -> (r: Result<(), IError>)
        requires
            old(self).wf(),
        ensures
            final(self).wf(),
            spec_check_pc(old(self).data.manifest, new_pc) is Err ==> r == Err::<(), IError>(
                IError { kind: IErrorKind::InvalidJump },
            ) && *final(self) == *old(self),
            spec_check_pc(old(self).data.manifest, new_pc) is Ok ==> r == Ok::<(), IError>(())
                && *final(self) == (Memory {
                current_frame: StackFrame {
                    program_counter: new_pc,
                    ..old(self).current_frame
                },
                ..*old(self)
            }),
    {
        match self.check_pc(new_pc) {
            Ok(()) => {},
            Err(_) => {
                return Err(IError::new(IErrorKind::InvalidJump));
            },
        }
        self.current_frame.program_counter = new_pc;
        Ok(())
    }

    /// Fetches the instruction word at the current program counter, after
    /// checking it is aligned and inside the executable region.
    pub fn read_op(&self) -> (r: Result<u32, IError>)
        requires
            self.wf(),
        ensures
            (match spec_check_pc(self.data.manifest, self.current_frame.program_counter) {
                Err(e) => r == Err::<u32, IError>(e),
                Ok(()) => r == Ok::<u32, IError>(
                    word32_at(self.data.arena(), self.current_frame.program_counter as int),
                ),
            }),
    {
        let pc = self.current_frame.program_counter;
        match self.check_pc(pc) {
            Ok(()) => {},
            Err(e) => {
                return Err(e);
            },
        }
        proof {
            let end = self.data.manifest.static_exe_end;
            assert(pc + 4 <= end) by (nonlinear_arith)
                requires
                    pc % 4 == 0,
                    end % 4 == 0,
                    pc < end,
            ;
        }
        Ok(self.data.read_op_at_index(pc))
    }

    /// Steps the program counter over the word just consumed.
    pub fn advance_pc(&mut self)
        requires
            old(self).wf(),
            old(self).current_frame.program_counter + 4 <= u32::MAX,
        ensures
            final(self).wf(),
            *final(self) == (Memory {
                current_frame: StackFrame {
                    program_counter: (old(self).current_frame.program_counter + 4) as u32,
                    ..old(self).current_frame
                },
                ..*old(self)
            }),
    {
        self.current_frame.program_counter = self.current_frame.program_counter + 4;
    }

    /// Resolves a logical stack id of the current frame to a pointer into
    /// the allocation backing that slot.
    pub fn stack_ptr(&self, id: u32, offset: u32) -> (r: Result<Ptr, IError>)
        requires
            self.wf(),
        ensures
            (if self.current_frame.map_offset + id < self.stack_pointer_map@.len() {
                r == Ok::<Ptr, IError>(
                    Ptr {
                        alloc_info_id: self.stack_pointer_map@[self.current_frame.map_offset + id],
                        offset,
                    },
                )
            } else {
                r == Err::<Ptr, IError>(IError { kind: IErrorKind::Internal })
            }),
    {
        proof {
            lemma_map_len_bound(self.stack_pointer_map@, self.data.alloc_info@.len() as int);
        }
        let map_len = self.stack_pointer_map.len();
        if (self.current_frame.map_offset as u64) + (id as u64) >= (map_len as u64) {
            return Err(IError::new(IErrorKind::Internal));
        }
        let idx = (self.current_frame.map_offset + id) as usize;
        Ok(Ptr { alloc_info_id: self.stack_pointer_map[idx], offset })
    }

    /// Creates one stack allocation for the current frame: checks the
    /// stack budget and the arena's room, allocates, and records the new
    /// allocation id at the end of the stack pointer map.  The current
    /// program counter is recorded as the allocation's creator.
    pub fn alloc_stack_var(&mut self, len: AllocLen) -> (r: Result<Ptr, IError>)
        requires
            old(self).wf(),
        ensures
            final(self).wf(),
            !len.wf() ==> r == Err::<Ptr, IError>(IError { kind: IErrorKind::Internal }) && *final(self) == *old(self),
            len.wf() && old(self).stack_byte_size + len.spec_len() > MAX_STACK_SIZE ==> r
                == Err::<Ptr, IError>(IError { kind: IErrorKind::StackOverflow }) && *final(self)
                == *old(self),
            len.wf() && old(self).stack_byte_size + len.spec_len() <= MAX_STACK_SIZE && old(self).data.arena().len() > ARENA_LIMIT ==> r == Err::<Ptr, IError>(
                IError { kind: IErrorKind::OutOfMemory },
            ) && *final(self) == *old(self),
            len.wf() && old(self).stack_byte_size + len.spec_len() <= MAX_STACK_SIZE && old(self).data.arena().len() <= ARENA_LIMIT ==> {
                &&& r == Ok::<Ptr, IError>(
                    Ptr {
                        offset: 0,
                        alloc_info_id: (old(self).data.alloc_info@.len() + 1) as u32,
                    },
                )
                &&& final(self).data.alloc_info@ == old(self).data.alloc_info@.push(
                    AllocInfo::StackLive {
                        creation_op: old(self).current_frame.program_counter,
                        start: old(self).data.arena().len() as u32,
                        len,
                    },
                )
                &&& final(self).stack_pointer_map@ == old(self).stack_pointer_map@.push(
                    (old(self).data.alloc_info@.len() + 1) as u32,
                )
                &&& final(self).stack_byte_size == old(self).stack_byte_size + len.spec_len()
                &&& final(self).current_frame == old(self).current_frame
                &&& final(self).stack_frames@ == old(self).stack_frames@
                &&& final(self).data.manifest == old(self).data.manifest
                &&& final(self).data.arena().len() == old(self).data.arena().len() + padded_size(
                    len.spec_len() as int,
                )
                &&& forall|i: int|
                    0 <= i < old(self).data.arena().len() ==> final(self).data.arena()[i] == old(self).data.arena()[i]
                &&& forall|i: int|
                    old(self).data.arena().len() <= i < final(self).data.arena().len() ==> final(self).data.arena()[i] == 0
            },
    {
        if len.power > 24 {
            return Err(IError::new(IErrorKind::Internal));
        }
        let lossy_len = len.len();
        let new_stack_size = (self.stack_byte_size as u64) + (lossy_len as u64);
        if new_stack_size > (MAX_STACK_SIZE as u64) {
            return Err(IError::new(IErrorKind::StackOverflow));
        }
        let new_stack_size = new_stack_size as u32;
        let arena_len = self.data.arena_len();
        if arena_len > ARENA_LIMIT {
            return Err(IError::new(IErrorKind::OutOfMemory));
        }
        proof {
            lemma_padded_size(len.spec_len() as int);
        }
        self.stack_byte_size = new_stack_size;
        let program_counter = self.current_frame.program_counter;
        let ptr = self.data.alloc_stack(len, program_counter);
        self.stack_pointer_map.push(ptr.alloc_info_id);
        proof {
            // The fresh id extends the strictly increasing map, and the new
            // record's length accounts for the growth of the stack total.
            let oldmap = old(self).stack_pointer_map@;
            let oldinfos = old(self).data.alloc_info@;
            let newinfos = self.data.alloc_info@;
            let id = ptr.alloc_info_id;
            assert forall|i: int| 0 <= i < oldmap.len() implies live_len(
                oldinfos,
                #[trigger] oldmap[i],
            ) == live_len(newinfos, oldmap[i]) by {}
            lemma_sum_lens_agree(oldmap, oldinfos, newinfos);
            assert(self.stack_pointer_map@.drop_last() =~= oldmap);
            assert(self.stack_pointer_map@.last() == id);
            assert(live_len(newinfos, id) == len.spec_len());
        }
        Ok(ptr)
    }

    /// Pops `count` entries from the stack pointer map, releasing each
    /// backing allocation in LIFO order.  Asking for more entries than the
    /// current frame owns is an internal over-pop error; the entries above
    /// the frame's offset are released even then.  Records only ever move
    /// from live to dead.
    pub fn drop_stack_vars(&mut self, count: u32) -> (r: Result<(), IError>)
        requires
            old(self).wf(),
        ensures
            final(self).wf(),
            final(self).current_frame == old(self).current_frame,
            final(self).stack_frames@ == old(self).stack_frames@,
            final(self).data.manifest == old(self).data.manifest,
            final(self).data.arena() == old(self).data.arena(),
            final(self).data.alloc_info@.len() == old(self).data.alloc_info@.len(),
            count <= old(self).stack_pointer_map@.len() - old(self).current_frame.map_offset ==> r
                == Ok::<(), IError>(()) && final(self).stack_pointer_map@ == old(self).stack_pointer_map@.take(old(self).stack_pointer_map@.len() - count),
            count > old(self).stack_pointer_map@.len() - old(self).current_frame.map_offset ==> r
                == Err::<(), IError>(IError { kind: IErrorKind::Internal }) && final(self).stack_pointer_map@ == old(self).stack_pointer_map@.take(
                old(self).current_frame.map_offset as int,
            ),
            final(self).data.alloc_info@ == dead_after_pops(
                old(self).data.alloc_info@,
                old(self).stack_pointer_map@,
                final(self).stack_pointer_map@.len() as int,
            ),
            final(self).stack_byte_size == sum_lens(
                final(self).stack_pointer_map@,
                final(self).data.alloc_info@,
            ),
    {
        let ghost oldmap = old(self).stack_pointer_map@;
        let ghost oldinfos = old(self).data.alloc_info@;
        let offset = self.current_frame.map_offset;
        let mut i: u32 = 0;
        while i < count
            invariant
                old(self).wf(),
                self.wf(),
                i <= count,
                offset == old(self).current_frame.map_offset,
                oldmap == old(self).stack_pointer_map@,
                oldinfos == old(self).data.alloc_info@,
                self.current_frame == old(self).current_frame,
                self.stack_frames@ == old(self).stack_frames@,
                self.data.manifest == old(self).data.manifest,
                self.data.arena() == old(self).data.arena(),
                self.data.alloc_info@.len() == oldinfos.len(),
                i <= oldmap.len() - offset,
                self.stack_pointer_map@ == oldmap.take(oldmap.len() - i),
                self.data.alloc_info@ == dead_after_pops(oldinfos, oldmap, oldmap.len() - i),
            decreases count - i,
        {
            if self.stack_pointer_map.len() <= offset as usize {
                return Err(IError::new(IErrorKind::Internal));
            }
            let ghost premap = self.stack_pointer_map@;
            let ghost preinfos = self.data.alloc_info@;
            let mapped = self.stack_pointer_map.pop();
            let alloc_info_id = match mapped {
                Some(x) => x,
                None => {
                    return Err(IError::new(IErrorKind::Internal));
                },
            };
            let ptr = Ptr { alloc_info_id, offset: 0 };
            let len = match self.data.dealloc_stack(ptr) {
                Ok(l) => l,
                Err(e) => {
                    return Err(e);
                },
            };
            proof {
                let id = alloc_info_id;
                assert(id == premap.last());
                // Every remaining entry is smaller than the popped id, so
                // marking its record dead leaves their lengths alone.
                assert forall|k: int| 0 <= k < premap.drop_last().len() implies live_len(
                    preinfos,
                    #[trigger] premap.drop_last()[k],
                ) == live_len(self.data.alloc_info@, premap.drop_last()[k]) by {
                    assert(premap.drop_last()[k] == premap[k]);
                    assert(premap[k] < premap[premap.len() - 1]);
                }
                lemma_sum_lens_agree(premap.drop_last(), preinfos, self.data.alloc_info@);
                lemma_sum_lens_nonneg(premap.drop_last(), preinfos);
                assert(sum_lens(premap, preinfos) == sum_lens(premap.drop_last(), preinfos)
                    + live_len(preinfos, id));
                assert(live_len(preinfos, id) == len);
            }
            self.stack_byte_size = self.stack_byte_size - len;
            i = i + 1;
            proof {
                assert(self.stack_pointer_map@ =~= oldmap.take(oldmap.len() - i));
                assert forall|k: int|
                    0 <= k < self.stack_pointer_map@.len() implies self.data.alloc_info@[(
                #[trigger] self.stack_pointer_map@[k]) - 1] is StackLive by {
                    assert(self.stack_pointer_map@[k] == premap[k]);
                    assert(premap[k] < premap[premap.len() - 1]);
                }
                // One more entry is popped: its record turns dead and, since
                // map ids are strictly increasing, no other index is touched.
                let from = oldmap.len() - i;
                let id = oldmap[from] as int;
                assert(alloc_info_id == oldmap[from]);
                assert forall|j: int| 0 <= j < oldinfos.len() implies self.data.alloc_info@[j]
                    == dead_after_pops(oldinfos, oldmap, from)[j] by {
                    if j == id - 1 {
                        assert(oldmap[from] == j + 1);
                        assert(exists|k: int| from <= k < oldmap.len() && oldmap[k] == j + 1);
                    } else {
                        if exists|k: int| from <= k < oldmap.len() && oldmap[k] == j + 1 {
                            let k = choose|k: int|
                                from <= k < oldmap.len() && oldmap[k] == j + 1;
                            assert(from + 1 <= k < oldmap.len());
                        } else {
                            assert(!(exists|k: int|
                                from + 1 <= k < oldmap.len() && oldmap[k] == j + 1));
                        }
                    }
                }
                assert(self.data.alloc_info@ =~= dead_after_pops(oldinfos, oldmap, from));
            }
        }
        Ok(())
    }

    /// Returns to the caller frame: every stack allocation made since the
    /// current frame's map offset is released (there are exactly
    /// `map length - map_offset` of them), then the previous frame resumes.
    pub fn ret(&mut self) -> (r: Result<(), IError>)
        requires
            old(self).wf(),
        ensures
            final(self).wf(),
            old(self).stack_frames@.len() == 0 ==> r == Err::<(), IError>(
                IError { kind: IErrorKind::NoFramesLeft },
            ) && final(self).stack_frames@ == old(self).stack_frames@ && final(self).stack_pointer_map@ == old(self).stack_pointer_map@ && final(self).data == old(self).data && final(self).current_frame == old(self).current_frame && final(self).stack_byte_size == old(self).stack_byte_size,
            old(self).stack_frames@.len() > 0 ==> {
                &&& r == Ok::<(), IError>(())
                &&& final(self).current_frame == old(self).stack_frames@.last()
                &&& final(self).stack_frames@ == old(self).stack_frames@.drop_last()
                &&& final(self).stack_pointer_map@ == old(self).stack_pointer_map@.take(
                    old(self).current_frame.map_offset as int,
                )
                &&& final(self).data.manifest == old(self).data.manifest
                &&& final(self).data.arena() == old(self).data.arena()
                &&& final(self).data.alloc_info@ == dead_after_pops(
                    old(self).data.alloc_info@,
                    old(self).stack_pointer_map@,
                    old(self).current_frame.map_offset as int,
                )
                &&& final(self).stack_byte_size == sum_lens(
                    final(self).stack_pointer_map@,
                    final(self).data.alloc_info@,
                )
            },
    {
        let previous = match self.stack_frames.pop() {
            Some(p) => p,
            None => {
                return Err(IError::new(IErrorKind::NoFramesLeft));
            },
        };
        proof {
            lemma_map_len_bound(self.stack_pointer_map@, self.data.alloc_info@.len() as int);
        }
        let alloc_count = (self.stack_pointer_map.len() as u32) - self.current_frame.map_offset;
        let r = self.drop_stack_vars(alloc_count);
        proof {
            assert(r is Ok);
        }
        match r {
            Ok(()) => {},
            Err(e) => {
                return Err(e);
            },
        }
        self.current_frame = previous;
        Ok(())
    }

    /// Enters a new frame at `new_pc`: the running frame is suspended, the
    /// callee's stack-slot ids start at the current map length, and a
    /// fresh 256-byte register block is carved out of the arena.  Depth is
    /// capped by the recursion limit.
    pub fn call(&mut self, new_pc: u32) -> (r: Result<(), IError>)
        requires
            old(self).wf(),
        ensures
            final(self).wf(),
            old(self).stack_frames@.len() >= MAX_STACK_FRAMES ==> r == Err::<(), IError>(
                IError { kind: IErrorKind::RecursionLimit },
            ) && *final(self) == *old(self),
            old(self).stack_frames@.len() < MAX_STACK_FRAMES && old(self).data.arena().len()
                > ARENA_LIMIT ==> r == Err::<(), IError>(IError { kind: IErrorKind::OutOfMemory })
                && *final(self) == *old(self),
            old(self).stack_frames@.len() < MAX_STACK_FRAMES && old(self).data.arena().len()
                <= ARENA_LIMIT ==> {
                &&& r == Ok::<(), IError>(())
                &&& final(self).stack_frames@ == old(self).stack_frames@.push(
                    old(self).current_frame,
                )
                &&& final(self).current_frame == (StackFrame {
                    program_counter: new_pc,
                    map_offset: old(self).stack_pointer_map@.len() as u32,
                    registers_start: old(self).data.arena().len() as u32,
                })
                &&& final(self).stack_pointer_map@ == old(self).stack_pointer_map@
                &&& final(self).stack_byte_size == old(self).stack_byte_size
                &&& final(self).data.alloc_info@ == old(self).data.alloc_info@
                &&& final(self).data.manifest == old(self).data.manifest
                &&& final(self).data.arena().len() == old(self).data.arena().len() + 256
                &&& forall|i: int|
                    0 <= i < old(self).data.arena().len() ==> final(self).data.arena()[i] == old(self).data.arena()[i]
                &&& forall|i: int|
                    old(self).data.arena().len() <= i < final(self).data.arena().len() ==> final(self).data.arena()[i] == 0
            },
    {
        if self.stack_frames.len() >= MAX_STACK_FRAMES {
            return Err(IError::new(IErrorKind::RecursionLimit));
        }
        let arena_len = self.data.arena_len();
        if arena_len > ARENA_LIMIT {
            return Err(IError::new(IErrorKind::OutOfMemory));
        }
        // 256 bytes in compressed form
        let reg_len = AllocLen { len: 128, power: 1 };
        proof {
            assert((128u32 << 1u32) == 256) by (bit_vector);
            assert(padded_size(reg_len.spec_len() as int) == 256);
            lemma_map_len_bound(self.stack_pointer_map@, self.data.alloc_info@.len() as int);
        }
        let range = self.data.alloc_range(reg_len);
        self.stack_frames.push(self.current_frame);
        let map_len = self.stack_pointer_map.len() as u32;
        self.current_frame = StackFrame {
            program_counter: new_pc,
            map_offset: map_len,
            registers_start: range.start,
        };
        proof {
            lemma_sum_lens_agree(
                self.stack_pointer_map@,
                old(self).data.alloc_info@,
                self.data.alloc_info@,
            );
        }
        Ok(())
    }

    /// Steps the program counter to the next instruction word, validating
    /// the target like a jump.
    pub fn next_op(&mut self) -> (r: Result<(), IError>)
        requires
            old(self).wf(),
        ensures
            final(self).wf(),
            old(self).current_frame.program_counter + 4 > u32::MAX || spec_check_pc(
                old(self).data.manifest,
                (old(self).current_frame.program_counter + 4) as u32,
            ) is Err ==> r == Err::<(), IError>(IError { kind: IErrorKind::InvalidJump })
                && *final(self) == *old(self),
            old(self).current_frame.program_counter + 4 <= u32::MAX && spec_check_pc(
                old(self).data.manifest,
                (old(self).current_frame.program_counter + 4) as u32,
            ) is Ok ==> r == Ok::<(), IError>(()) && *final(self) == (Memory {
                current_frame: StackFrame {
                    program_counter: (old(self).current_frame.program_counter + 4) as u32,
                    ..old(self).current_frame
                },
                ..*old(self)
            }),
    {
        let pc = self.current_frame.program_counter;
        if pc > u32::MAX - 4 {
            return Err(IError::new(IErrorKind::InvalidJump));
        }
        self.jmp(pc + 4)
    }

    /// Borrows `len` bytes through a pointer, after the bounds check.
    pub fn read_bytes(&self, ptr: Ptr, len: u32) -> (r: Result<&[u8], IError>)
        requires
            self.wf(),
        ensures
            (match spec_get_range(self.data.alloc_info@, ptr, len) {
                Err(e) => r matches Err(e2) && e2 == e,
                Ok(br) => r matches Ok(s) && s@ == self.data.arena().subrange(
                    br.start as int,
                    br.end as int,
                ),
            }),
    {
        self.data.read_bytes(ptr, len)
    }

    /// Copies the given bytes through a pointer, after the bounds check.
    pub fn write_bytes(&mut self, ptr: Ptr, bytes: &[u8]) -> (r: Result<(), IError>)
        requires
            old(self).wf(),
            bytes@.len() <= 0xFFFF_FFFF,
        ensures
            final(self).wf(),
            final(self).data.alloc_info@ == old(self).data.alloc_info@,
            final(self).data.manifest == old(self).data.manifest,
            final(self).data.arena().len() == old(self).data.arena().len(),
            final(self).current_frame == old(self).current_frame,
            final(self).stack_pointer_map@ == old(self).stack_pointer_map@,
            final(self).stack_frames@ == old(self).stack_frames@,
            final(self).stack_byte_size == old(self).stack_byte_size,
            (match spec_get_range(old(self).data.alloc_info@, ptr, bytes@.len() as u32) {
                Err(e) => r matches Err(e2) && e2 == e && final(self).data.arena() == old(
                    self,
                ).data.arena(),
                Ok(br) => r is Ok && (forall|j: int|
                    0 <= j < old(self).data.arena().len() && !(br.start <= j < br.end)
                        ==> final(self).data.arena()[j] == old(self).data.arena()[j]) && (
                forall|k: int|
                    0 <= k < bytes@.len() ==> final(self).data.arena()[br.start + k] == bytes@[k]),
            }),
    {
        self.data.write_bytes(ptr, bytes)
    }

    /// Bounds-checks an access of `len` bytes through a pointer and
    /// returns the absolute arena range it may touch.
    pub fn get_range(&self, ptr: Ptr, len: u32) -> (r: Result<crate::tracker::ByteRange, IError>)
        requires
            self.wf(),
        ensures
            r == crate::tracker::spec_get_range(self.data.alloc_info@, ptr, len),
    {
        self.data.get_range(ptr, len)
    }

    /// Resolves a stack-slot operand (id and byte offset) to a pointer.
    pub fn stack_slot_ptr(&self, slot: crate::regs::StackSlot) -> (r: Result<Ptr, IError>)
        requires
            self.wf(),
        ensures
            (if self.current_frame.map_offset + slot.id < self.stack_pointer_map@.len() {
                r == Ok::<Ptr, IError>(
                    Ptr {
                        alloc_info_id: self.stack_pointer_map@[self.current_frame.map_offset
                            + slot.id],
                        offset: slot.offset as u32,
                    },
                )
            } else {
                r == Err::<Ptr, IError>(IError { kind: IErrorKind::Internal })
            }),
    {
        self.stack_ptr(slot.id as u32, slot.offset as u32)
    }
}

} // verus!
