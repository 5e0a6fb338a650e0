use vstd::prelude::*;

verus! {

use crate::arena::{
    store16_at,
    store32_at,
    store64_at,
    word16_at,
    word32_at,
    word64_at,
    zero_bytes,
};
use crate::errors::{IError, IErrorKind};
use crate::lens::AllocLen;
use crate::memory::{
    dead_after_pops,
    spec_check_pc,
    sum_lens,
    StackFrame,
    ARENA_LIMIT,
    MAX_STACK_FRAMES,
    MAX_STACK_SIZE,
};
use crate::opcode::{EcallKind, Opcode};
use crate::regs::{spec_sign_extend, spec_truncate, InReg, In64Reg, Out64Reg, OutReg, StackSlot};
use crate::tracker::{
    padded_size,
    spec_get_range,
    AllocInfo,
    BinaryManifest,
    Ptr,
};
use crate::decimal::spec_decimal_digits;

// The machine, as mathematics.  One `VmState` is everything one running
// program can observe: the arena bytes, the allocation records, the
// manifest, the live-stack count, the frames, the stack pointer map and
// the output written so far.  `vm_step` is the exact transition the
// interpreter takes for one instruction; `vm_steps` iterates it.  The
// interpreter's `run` is proved to follow this function step for step.

/// The whole observable state of one running program.
#[verifier::ext_equal]
pub ghost struct VmState {
    pub arena: Seq<u8>,
    pub infos: Seq<AllocInfo>,
    pub manifest: BinaryManifest,
    pub stack_byte_size: u32,
    pub current_frame: StackFrame,
    pub map: Seq<u32>,
    pub frames: Seq<StackFrame>,
    pub output: Seq<u8>,
}

/// What one instruction does: moves to the next state, exits the program
/// successfully, or fails with the state as mutated up to the fault.
#[verifier::ext_equal]
pub ghost enum StepResult {
    Next(VmState),
    Exit(VmState),
    Fail(VmState, IError),
}

/// The state with the program counter moved.
pub open spec fn at_pc(s: VmState, new_pc: u32) -> VmState {
    VmState { current_frame: StackFrame { program_counter: new_pc, ..s.current_frame }, ..s }
}

/// The arena address of a register cell of the current frame.
pub open spec fn reg_addr(s: VmState, id: u8) -> int {
    s.current_frame.registers_start + 8 * id
}

/// The raw 64-bit value held in a register of the current frame.
pub open spec fn reg64(s: VmState, id: u8) -> u64 {
    word64_at(s.arena, reg_addr(s, id))
}

/// The state with a register of the current frame overwritten.
pub open spec fn with_reg(s: VmState, id: u8, v: u64) -> VmState {
    VmState { arena: store64_at(s.arena, reg_addr(s, id), v), ..s }
}

/// An internal fault leaving the state as given.
pub open spec fn fail(s: VmState, kind: IErrorKind) -> StepResult {
    StepResult::Fail(s, IError { kind })
}

/// The access width, in bytes, of a size class.
pub open spec fn class_bytes(size_class: u8) -> u32 {
    if size_class == 0 {
        1
    } else if size_class == 1 {
        2
    } else if size_class == 2 {
        4
    } else {
        8
    }
}

pub open spec fn step_stack_alloc(s: VmState, len: AllocLen, save: Out64Reg) -> StepResult {
    let pc = s.current_frame.program_counter;
    if !len.wf() {
        fail(s, IErrorKind::Internal)
    } else if s.stack_byte_size + len.spec_len() > MAX_STACK_SIZE {
        fail(s, IErrorKind::StackOverflow)
    } else if s.arena.len() > ARENA_LIMIT {
        fail(s, IErrorKind::OutOfMemory)
    } else {
        let id = (s.infos.len() + 1) as u32;
        let grown = VmState {
            arena: s.arena + zero_bytes(padded_size(len.spec_len() as int)),
            infos: s.infos.push(
                AllocInfo::StackLive { creation_op: pc, start: s.arena.len() as u32, len },
            ),
            map: s.map.push(id),
            stack_byte_size: (s.stack_byte_size + len.spec_len()) as u32,
            ..s
        };
        let stored = match save.spec_id() {
            Some(rid) => with_reg(grown, rid, (Ptr { offset: 0, alloc_info_id: id }).spec_as_u64()),
            None => grown,
        };
        StepResult::Next(at_pc(stored, (pc + 4) as u32))
    }
}

pub open spec fn step_stack_dealloc(s: VmState, count: u16) -> StepResult {
    let pc = s.current_frame.program_counter;
    let avail = s.map.len() - s.current_frame.map_offset;
    if count <= avail {
        let newlen = s.map.len() - count;
        let infos2 = dead_after_pops(s.infos, s.map, newlen as int);
        let map2 = s.map.take(newlen as int);
        StepResult::Next(
            at_pc(
                VmState {
                    map: map2,
                    infos: infos2,
                    stack_byte_size: sum_lens(map2, infos2) as u32,
                    ..s
                },
                (pc + 4) as u32,
            ),
        )
    } else {
        let off = s.current_frame.map_offset as int;
        let infos2 = dead_after_pops(s.infos, s.map, off);
        let map2 = s.map.take(off);
        fail(
            VmState { map: map2, infos: infos2, stack_byte_size: sum_lens(map2, infos2) as u32, ..s },
            IErrorKind::Internal,
        )
    }
}

pub open spec fn step_make64(s: VmState, register_out: Out64Reg, stack_slot: StackSlot) -> StepResult {
    let pc = s.current_frame.program_counter;
    let s1 = at_pc(s, (pc + 4) as u32);
    match spec_check_pc(s.manifest, (pc + 4) as u32) {
        Err(e) => StepResult::Fail(s1, e),
        Ok(()) => {
            let low = word32_at(s.arena, (pc + 4) as u32 as int) as u64;
            let s2 = at_pc(s, (pc + 8) as u32);
            match spec_check_pc(s.manifest, (pc + 8) as u32) {
                Err(e) => StepResult::Fail(s2, e),
                Ok(()) => {
                    let high = word32_at(s.arena, (pc + 8) as u32 as int) as u64;
                    let value = (high << 32) | low;
                    match register_out.spec_id() {
                        Some(rid) => StepResult::Next(
                            at_pc(with_reg(s, rid, value), (pc + 12) as u32),
                        ),
                        None => {
                            let k = s.current_frame.map_offset + stack_slot.id;
                            if k < s.map.len() {
                                let ptr = Ptr {
                                    alloc_info_id: s.map[k as int],
                                    offset: stack_slot.offset as u32,
                                };
                                match spec_get_range(s.infos, ptr, 8) {
                                    Err(e) => StepResult::Fail(s2, e),
                                    Ok(br) => StepResult::Next(
                                        at_pc(
                                            VmState {
                                                arena: store64_at(s.arena, br.start as int, value),
                                                ..s
                                            },
                                            (pc + 12) as u32,
                                        ),
                                    ),
                                }
                            } else {
                                fail(s2, IErrorKind::Internal)
                            }
                        },
                    }
                },
            }
        },
    }
}

pub open spec fn step_make_fp(s: VmState, register_out: Out64Reg, stack_id: u16) -> StepResult {
    let pc = s.current_frame.program_counter;
    let k = s.current_frame.map_offset + stack_id;
    if k < s.map.len() {
        let ptr = Ptr { alloc_info_id: s.map[k as int], offset: 0 };
        match register_out.spec_id() {
            Some(rid) => StepResult::Next(
                at_pc(with_reg(s, rid, ptr.spec_as_u64()), (pc + 4) as u32),
            ),
            None => fail(s, IErrorKind::Internal),
        }
    } else {
        fail(s, IErrorKind::Internal)
    }
}

pub open spec fn step_set_mem(s: VmState, pointer: In64Reg, value: InReg) -> StepResult {
    let pc = s.current_frame.program_counter;
    match pointer.spec_id() {
        None => fail(s, IErrorKind::Internal),
        Some(pid) => {
            let ptr = Ptr::spec_from_u64(reg64(s, pid));
            match value.spec_id() {
                None => fail(s, IErrorKind::Internal),
                Some(vid) => {
                    let sc = value.spec_size_class();
                    let v = spec_truncate(sc, reg64(s, vid));
                    match spec_get_range(s.infos, ptr, class_bytes(sc)) {
                        Err(e) => StepResult::Fail(s, e),
                        Ok(br) => {
                            let at = br.start as int;
                            let arena2 = if sc == 0 {
                                s.arena.update(at, v as u8)
                            } else if sc == 1 {
                                store16_at(s.arena, at, v as u16)
                            } else if sc == 2 {
                                store32_at(s.arena, at, v as u32)
                            } else {
                                store64_at(s.arena, at, v)
                            };
                            StepResult::Next(at_pc(VmState { arena: arena2, ..s }, (pc + 4) as u32))
                        },
                    }
                },
            }
        },
    }
}

pub open spec fn step_get(s: VmState, register_out: OutReg, pointer: In64Reg) -> StepResult {
    let pc = s.current_frame.program_counter;
    match pointer.spec_id() {
        None => fail(s, IErrorKind::Internal),
        Some(pid) => {
            let ptr = Ptr::spec_from_u64(reg64(s, pid));
            let sc = register_out.spec_size_class();
            match spec_get_range(s.infos, ptr, class_bytes(sc)) {
                Err(e) => StepResult::Fail(s, e),
                Ok(br) => {
                    let at = br.start as int;
                    let raw: u64 = if sc == 0 {
                        s.arena[at] as u64
                    } else if sc == 1 {
                        word16_at(s.arena, at) as u64
                    } else if sc == 2 {
                        word32_at(s.arena, at) as u64
                    } else {
                        word64_at(s.arena, at)
                    };
                    match register_out.spec_id() {
                        None => fail(s, IErrorKind::Internal),
                        Some(rid) => {
                            let value = if register_out.spec_is_signed() {
                                spec_sign_extend(sc, raw) as u64
                            } else {
                                spec_truncate(sc, raw)
                            };
                            StepResult::Next(at_pc(with_reg(s, rid, value), (pc + 4) as u32))
                        },
                    }
                },
            }
        },
    }
}

pub open spec fn step_add(s: VmState, register_out: OutReg, left: InReg, right: InReg) -> StepResult {
    let pc = s.current_frame.program_counter;
    let sc = register_out.spec_size_class();
    if register_out.spec_is_signed() {
        match left.spec_id() {
            None => fail(s, IErrorKind::Internal),
            Some(li) => {
                let l = spec_sign_extend(left.spec_size_class(), reg64(s, li));
                match right.spec_id() {
                    None => fail(s, IErrorKind::Internal),
                    Some(ri) => {
                        let rr = spec_sign_extend(right.spec_size_class(), reg64(s, ri));
                        let sum = vstd::wrapping::i64_specs::wrapping_add(l, rr) as u64;
                        let value = spec_sign_extend(sc, sum) as u64;
                        match register_out.spec_id() {
                            None => fail(s, IErrorKind::Internal),
                            Some(rid) => StepResult::Next(
                                at_pc(with_reg(s, rid, value), (pc + 4) as u32),
                            ),
                        }
                    },
                }
            },
        }
    } else {
        match left.spec_id() {
            None => fail(s, IErrorKind::Internal),
            Some(li) => {
                let l = spec_truncate(left.spec_size_class(), reg64(s, li));
                match right.spec_id() {
                    None => fail(s, IErrorKind::Internal),
                    Some(ri) => {
                        let rr = spec_truncate(right.spec_size_class(), reg64(s, ri));
                        let sum = vstd::wrapping::u64_specs::wrapping_add(l, rr);
                        let value = spec_truncate(sc, sum);
                        match register_out.spec_id() {
                            None => fail(s, IErrorKind::Internal),
                            Some(rid) => StepResult::Next(
                                at_pc(with_reg(s, rid, value), (pc + 4) as u32),
                            ),
                        }
                    },
                }
            },
        }
    }
}

/// The target of a jump word, checked like the executable jumps do: it
/// must fit in 32 bits and pass the program-counter check.
pub open spec fn jump_to(s: VmState, fail_state: VmState, address: u32) -> StepResult {
    let target = s.manifest.static_exe_start + address;
    if target > 0xFFFF_FFFF {
        fail(fail_state, IErrorKind::InvalidJump)
    } else {
        match spec_check_pc(s.manifest, target as u32) {
            Err(_) => fail(fail_state, IErrorKind::InvalidJump),
            Ok(()) => StepResult::Next(at_pc(s, target as u32)),
        }
    }
}

pub open spec fn step_jump(s: VmState) -> StepResult {
    let pc = s.current_frame.program_counter;
    let s1 = at_pc(s, (pc + 4) as u32);
    match spec_check_pc(s.manifest, (pc + 4) as u32) {
        Err(e) => StepResult::Fail(s1, e),
        Ok(()) => jump_to(s, s1, word32_at(s.arena, (pc + 4) as u32 as int)),
    }
}

pub open spec fn step_jump_cond(s: VmState, register_in: InReg, jump_when_zero: bool) -> StepResult {
    let pc = s.current_frame.program_counter;
    let s1 = at_pc(s, (pc + 4) as u32);
    match spec_check_pc(s.manifest, (pc + 4) as u32) {
        Err(e) => StepResult::Fail(s1, e),
        Ok(()) => {
            let address = word32_at(s.arena, (pc + 4) as u32 as int);
            match register_in.spec_id() {
                None => fail(s1, IErrorKind::Internal),
                Some(rid) => {
                    let v = spec_truncate(register_in.spec_size_class(), reg64(s, rid));
                    if (v == 0) == jump_when_zero {
                        jump_to(s, s1, address)
                    } else {
                        StepResult::Next(at_pc(s, (pc + 8) as u32))
                    }
                },
            }
        },
    }
}

pub open spec fn step_call(s: VmState) -> StepResult {
    let pc = s.current_frame.program_counter;
    let s1 = at_pc(s, (pc + 4) as u32);
    match spec_check_pc(s.manifest, (pc + 4) as u32) {
        Err(e) => StepResult::Fail(s1, e),
        Ok(()) => {
            let address = word32_at(s.arena, (pc + 4) as u32 as int);
            let s2 = at_pc(s, (pc + 8) as u32);
            let target = s.manifest.static_exe_start + address;
            if target > 0xFFFF_FFFF {
                fail(s2, IErrorKind::InvalidJump)
            } else if s.frames.len() >= MAX_STACK_FRAMES {
                fail(s2, IErrorKind::RecursionLimit)
            } else if s.arena.len() > ARENA_LIMIT {
                fail(s2, IErrorKind::OutOfMemory)
            } else {
                StepResult::Next(
                    VmState {
                        arena: s.arena + zero_bytes(256),
                        frames: s.frames.push(s2.current_frame),
                        current_frame: StackFrame {
                            program_counter: target as u32,
                            map_offset: s.map.len() as u32,
                            registers_start: s.arena.len() as u32,
                        },
                        ..s
                    },
                )
            }
        },
    }
}

pub open spec fn step_ret(s: VmState) -> StepResult {
    if s.frames.len() == 0 {
        fail(s, IErrorKind::NoFramesLeft)
    } else {
        let off = s.current_frame.map_offset as int;
        let infos2 = dead_after_pops(s.infos, s.map, off);
        let map2 = s.map.take(off);
        StepResult::Next(
            VmState {
                map: map2,
                infos: infos2,
                stack_byte_size: sum_lens(map2, infos2) as u32,
                frames: s.frames.drop_last(),
                current_frame: s.frames.last(),
                ..s
            },
        )
    }
}

pub open spec fn step_ecall(s: VmState, kind: EcallKind, input_1: In64Reg) -> StepResult {
    let pc = s.current_frame.program_counter;
    match kind {
        EcallKind::ExitSuccess => StepResult::Exit(s),
        EcallKind::Print => match input_1.spec_id() {
            None => fail(s, IErrorKind::Internal),
            Some(rid) => StepResult::Next(
                at_pc(
                    VmState {
                        output: s.output + spec_decimal_digits(reg64(s, rid) as nat) + seq![32u8],
                        ..s
                    },
                    (pc + 4) as u32,
                ),
            ),
        },
        EcallKind::PrintNewline => StepResult::Next(
            at_pc(VmState { output: s.output.push(10u8), ..s }, (pc + 4) as u32),
        ),
    }
}

/// One instruction dispatched by opcode; anything not in the supported
/// set halts with `Unimplemented`.
pub open spec fn vm_dispatch(s: VmState, op: Opcode) -> StepResult {
    match op {
        Opcode::StackAlloc { len, save_address } => step_stack_alloc(s, len, save_address),
        Opcode::StackDealloc { count } => step_stack_dealloc(s, count),
        Opcode::Make64 { register_out, stack_slot } => step_make64(s, register_out, stack_slot),
        Opcode::MakeFp { register_out, stack_id } => step_make_fp(s, register_out, stack_id),
        Opcode::SetMem { pointer, value } => step_set_mem(s, pointer, value),
        Opcode::Get { register_out, pointer } => step_get(s, register_out, pointer),
        Opcode::Add { register_out, left, right } => step_add(s, register_out, left, right),
        Opcode::Jump => step_jump(s),
        Opcode::JumpIfZero { register_in, stack_slot } => step_jump_cond(s, register_in, true),
        Opcode::JumpIfNotZero { register_in, stack_slot } => step_jump_cond(s, register_in, false),
        Opcode::Call { register_out, arg_count } => step_call(s),
        Opcode::Ret => step_ret(s),
        Opcode::Ecall { kind, input_1, input_2 } => step_ecall(s, kind, input_1),
        _ => fail(s, IErrorKind::Unimplemented),
    }
}

/// One full machine step: fetch the word at the program counter (with the
/// alignment and range checks), decode it, and dispatch.
pub open spec fn vm_step(s: VmState) -> StepResult {
    let pc = s.current_frame.program_counter;
    match spec_check_pc(s.manifest, pc) {
        Err(e) => StepResult::Fail(s, e),
        Ok(()) => match Opcode::spec_decode(word32_at(s.arena, pc as int)) {
            None => fail(s, IErrorKind::Unimplemented),
            Some(op) => vm_dispatch(s, op),
        },
    }
}

/// A successful exit happens exactly at an `ExitSuccess` ecall: the
/// state is left untouched, its program counter passes the fetch check,
/// and the word there decodes to the exit call.
pub proof fn lemma_exit_shape(s: VmState, s2: VmState)
    requires
        vm_step(s) == StepResult::Exit(s2),
    ensures
        s2 == s,
        spec_check_pc(s.manifest, s.current_frame.program_counter) is Ok,
        Opcode::spec_decode(word32_at(s.arena, s.current_frame.program_counter as int))
            matches Some(Opcode::Ecall { kind: EcallKind::ExitSuccess, .. }),
{
}

/// The machine after `n` steps: the reached state, or the exit or fault
/// the machine ran into on the way.
pub open spec fn vm_steps(s: VmState, n: nat) -> StepResult
    decreases n,
{
    if n == 0 {
        StepResult::Next(s)
    } else {
        match vm_steps(s, (n - 1) as nat) {
            StepResult::Next(s2) => vm_step(s2),
            done => done,
        }
    }
}

} // verus!
