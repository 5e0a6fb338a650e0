use vstd::prelude::*;

verus! {

use crate::arena::{
    lemma_store16_bridge,
    lemma_store32_bridge,
    lemma_store64_bridge,
    zero_bytes,
};
use crate::decimal::{spec_decimal_digits, u64_to_decimal};
use crate::errors::{IError, IErrorKind};
use crate::lens::AllocLen;
use crate::memory::{Memory, ARENA_LIMIT};
use crate::opcode::{EcallKind, Opcode};
use crate::semantics::{
    reg_addr,
    step_add,
    step_call,
    step_ecall,
    step_get,
    step_jump,
    step_jump_cond,
    step_make64,
    step_make_fp,
    step_ret,
    step_set_mem,
    step_stack_alloc,
    step_stack_dealloc,
    vm_dispatch,
    vm_step,
    vm_steps,
    StepResult,
    VmState,
};
use crate::tracker::{padded_size, AllocTracker, Ptr};
use crate::regs::{truncate, sign_extend_and_truncate, InReg, In64Reg, Out64Reg, OutReg, StackSlot};

/// The interpreter: a fetch/decode/execute loop over one memory image.
/// Output written by `Ecall` instructions accumulates in `output`; the
/// caller decides where it goes afterwards.
pub struct Interpreter {
    pub memory: Memory,
    pub output: Vec<u8>,
}

impl Interpreter {
    /// The machine state this interpreter is in, as the semantics sees it.
    pub open spec fn spec_state(self) -> VmState {
        VmState {
            arena: self.memory.data.arena(),
            infos: self.memory.data.alloc_info@,
            manifest: self.memory.data.manifest,
            stack_byte_size: self.memory.stack_byte_size,
            current_frame: self.memory.current_frame,
            map: self.memory.stack_pointer_map@,
            frames: self.memory.stack_frames@,
            output: self.output@,
        }
    }

    /// Wraps a loaded allocation tracker for execution: the root frame
    /// points at the start of the executable region with a fresh zeroed
    /// register block, no stack entries, no suspended frames, no output.
    pub fn new(data: AllocTracker) -> (r: Self)
        requires
            data.wf(),
            data.arena().len() <= ARENA_LIMIT,
        ensures
            r.memory.wf(),
            r.output@ == Seq::<u8>::empty(),
            r.memory.data.manifest == data.manifest,
            r.memory.data.alloc_info@ == data.alloc_info@,
            r.memory.current_frame.program_counter == data.manifest.static_exe_start,
            r.memory.current_frame.map_offset == 0,
            r.memory.current_frame.registers_start == data.arena().len(),
            r.memory.stack_pointer_map@.len() == 0,
            r.memory.stack_frames@.len() == 0,
            r.memory.stack_byte_size == 0,
            r.memory.data.arena().len() == data.arena().len() + 256,
            forall|i: int|
                0 <= i < data.arena().len() ==> r.memory.data.arena()[i] == data.arena()[i],
            forall|i: int|
                data.arena().len() <= i < r.memory.data.arena().len() ==> r.memory.data.arena()[i]
                    == 0,
    {
        Interpreter { memory: Memory::new(data), output: Vec::new() }
    }

    #[verifier::rlimit(60)]
    #[verifier::spinoff_prover]
    fn exec_stack_alloc(&mut self, len: AllocLen, save_address: Out64Reg) -> (r: Result<(), IError>)
        requires
            old(self).memory.wf(),
            crate::memory::spec_check_pc(
                old(self).memory.data.manifest,
                old(self).memory.current_frame.program_counter,
            ) is Ok,
        ensures
            final(self).memory.wf(),
            final(self).output@ == old(self).output@,
            r is Ok ==> step_stack_alloc(old(self).spec_state(), len, save_address) == StepResult::Next(final(self).spec_state()),
            r matches Err(e) ==> step_stack_alloc(old(self).spec_state(), len, save_address) == StepResult::Fail(final(self).spec_state(), e),
    {
        let ghost s0 = old(self).spec_state();
        let ptr = match self.memory.alloc_stack_var(len) {
            Ok(p) => p,
            Err(e) => {
                return Err(e);
            },
        };
        let ghost smid = self.spec_state();
        proof {
            assert(smid.arena =~= s0.arena + zero_bytes(padded_size(len.spec_len() as int)));
        }
        if let Some(id) = save_address.id() {
            match self.memory.write_register(id, ptr.as_u64()) {
                Ok(()) => {},
                Err(e) => {
                    return Err(e);
                },
            }
            proof {
                lemma_store64_bridge(
                    smid.arena,
                    self.spec_state().arena,
                    reg_addr(smid, id),
                    ptr.spec_as_u64(),
                );
            }
        }
        self.memory.advance_pc();
        proof {
            assert(self.spec_state() =~= (match step_stack_alloc(s0, len, save_address) {
                StepResult::Next(s) => s,
                _ => s0,
            }));
        }
        Ok(())
    }

    #[verifier::rlimit(60)]
    #[verifier::spinoff_prover]
    fn exec_stack_dealloc(&mut self, count: u16) -> (r: Result<(), IError>)
        requires
            old(self).memory.wf(),
            crate::memory::spec_check_pc(
                old(self).memory.data.manifest,
                old(self).memory.current_frame.program_counter,
            ) is Ok,
        ensures
            final(self).memory.wf(),
            final(self).output@ == old(self).output@,
            r is Ok ==> step_stack_dealloc(old(self).spec_state(), count) == StepResult::Next(final(self).spec_state()),
            r matches Err(e) ==> step_stack_dealloc(old(self).spec_state(), count) == StepResult::Fail(final(self).spec_state(), e),
    {
        let ghost s0 = old(self).spec_state();
        match self.memory.drop_stack_vars(count as u32) {
            Ok(()) => {},
            Err(e) => {
                proof {
                    assert(self.spec_state() =~= (match step_stack_dealloc(s0, count) {
                        StepResult::Fail(s, _) => s,
                        _ => s0,
                    }));
                }
                return Err(e);
            },
        }
        self.memory.advance_pc();
        proof {
            assert(self.spec_state() =~= (match step_stack_dealloc(s0, count) {
                StepResult::Next(s) => s,
                _ => s0,
            }));
        }
        Ok(())
    }

    #[verifier::rlimit(60)]
    #[verifier::spinoff_prover]
    fn exec_make64(&mut self, register_out: Out64Reg, stack_slot: StackSlot) -> (r: Result<(), IError>)
        requires
            old(self).memory.wf(),
            crate::memory::spec_check_pc(
                old(self).memory.data.manifest,
                old(self).memory.current_frame.program_counter,
            ) is Ok,
        ensures
            final(self).memory.wf(),
            final(self).output@ == old(self).output@,
            r is Ok ==> step_make64(old(self).spec_state(), register_out, stack_slot) == StepResult::Next(final(self).spec_state()),
            r matches Err(e) ==> step_make64(old(self).spec_state(), register_out, stack_slot) == StepResult::Fail(final(self).spec_state(), e),
    {
        let ghost s0 = old(self).spec_state();
        self.memory.advance_pc();
        let low_order = match self.memory.read_op() {
            Ok(w) => w as u64,
            Err(e) => {
                return Err(e);
            },
        };
        self.memory.advance_pc();
        let high_order = match self.memory.read_op() {
            Ok(w) => w as u64,
            Err(e) => {
                return Err(e);
            },
        };
        let value = (high_order << 32) | low_order;
        if let Some(id) = register_out.id() {
            match self.memory.write_register(id, value) {
                Ok(()) => {},
                Err(e) => {
                    return Err(e);
                },
            }
            proof {
                lemma_store64_bridge(s0.arena, self.spec_state().arena, reg_addr(s0, id), value);
            }
        } else {
            let ptr = match self.memory.stack_slot_ptr(stack_slot) {
                Ok(p) => p,
                Err(e) => {
                    return Err(e);
                },
            };
            let ghost br = (match crate::tracker::spec_get_range(s0.infos, ptr, 8) {
                Ok(br) => br,
                Err(_) => crate::tracker::ByteRange { start: 0, end: 0 },
            });
            match self.memory.data.write_u64(ptr, value) {
                Ok(()) => {},
                Err(e) => {
                    return Err(e);
                },
            }
            proof {
                lemma_store64_bridge(s0.arena, self.spec_state().arena, br.start as int, value);
            }
        }
        self.memory.advance_pc();
        proof {
            assert(self.spec_state() =~= (match step_make64(s0, register_out, stack_slot) {
                StepResult::Next(s) => s,
                _ => s0,
            }));
        }
        Ok(())
    }

    #[verifier::rlimit(60)]
    #[verifier::spinoff_prover]
    fn exec_make_fp(&mut self, register_out: Out64Reg, stack_id: u16) -> (r: Result<(), IError>)
        requires
            old(self).memory.wf(),
            crate::memory::spec_check_pc(
                old(self).memory.data.manifest,
                old(self).memory.current_frame.program_counter,
            ) is Ok,
        ensures
            final(self).memory.wf(),
            final(self).output@ == old(self).output@,
            r is Ok ==> step_make_fp(old(self).spec_state(), register_out, stack_id) == StepResult::Next(final(self).spec_state()),
            r matches Err(e) ==> step_make_fp(old(self).spec_state(), register_out, stack_id) == StepResult::Fail(final(self).spec_state(), e),
    {
        let ghost s0 = old(self).spec_state();
        let ptr = match self.memory.stack_ptr(stack_id as u32, 0) {
            Ok(p) => p,
            Err(e) => {
                return Err(e);
            },
        };
        let id = match register_out.expect_id() {
            Ok(id) => id,
            Err(e) => {
                return Err(e);
            },
        };
        match self.memory.write_register(id, ptr.as_u64()) {
            Ok(()) => {},
            Err(e) => {
                return Err(e);
            },
        }
        proof {
            lemma_store64_bridge(
                s0.arena,
                self.spec_state().arena,
                reg_addr(s0, id),
                ptr.spec_as_u64(),
            );
        }
        self.memory.advance_pc();
        proof {
            assert(self.spec_state() =~= (match step_make_fp(s0, register_out, stack_id) {
                StepResult::Next(s) => s,
                _ => s0,
            }));
        }
        Ok(())
    }

    #[verifier::rlimit(60)]
    #[verifier::spinoff_prover]
    fn exec_set_mem(&mut self, pointer: In64Reg, value: InReg) -> (r: Result<(), IError>)
        requires
            old(self).memory.wf(),
            crate::memory::spec_check_pc(
                old(self).memory.data.manifest,
                old(self).memory.current_frame.program_counter,
            ) is Ok,
        ensures
            final(self).memory.wf(),
            final(self).output@ == old(self).output@,
            r is Ok ==> step_set_mem(old(self).spec_state(), pointer, value) == StepResult::Next(final(self).spec_state()),
            r matches Err(e) ==> step_set_mem(old(self).spec_state(), pointer, value) == StepResult::Fail(final(self).spec_state(), e),
    {
        let ghost s0 = old(self).spec_state();
        let size_class = value.size_class();
        let pv = match self.memory.read_reg64(pointer) {
            Ok(v) => v,
            Err(e) => {
                return Err(e);
            },
        };
        let ptr = Ptr::from_u64(pv);
        let v = match self.memory.read_unsigned_reg(value) {
            Ok(v) => v,
            Err(e) => {
                return Err(e);
            },
        };
        let ghost n = crate::semantics::class_bytes(value.spec_size_class());
        let ghost br = (match crate::tracker::spec_get_range(s0.infos, ptr, n) {
            Ok(br) => br,
            Err(_) => crate::tracker::ByteRange { start: 0, end: 0 },
        });
        let wrote = if size_class == 0 {
            self.memory.data.write_u8(ptr, v as u8)
        } else if size_class == 1 {
            self.memory.data.write_u16(ptr, v as u16)
        } else if size_class == 2 {
            self.memory.data.write_u32(ptr, v as u32)
        } else {
            self.memory.data.write_u64(ptr, v)
        };
        match wrote {
            Ok(()) => {},
            Err(e) => {
                return Err(e);
            },
        }
        proof {
            if value.spec_size_class() == 0 {
                assert(self.spec_state().arena =~= s0.arena.update(br.start as int, v as u8));
            } else if value.spec_size_class() == 1 {
                lemma_store16_bridge(s0.arena, self.spec_state().arena, br.start as int, v as u16);
            } else if value.spec_size_class() == 2 {
                lemma_store32_bridge(s0.arena, self.spec_state().arena, br.start as int, v as u32);
            } else {
                lemma_store64_bridge(s0.arena, self.spec_state().arena, br.start as int, v);
            }
        }
        self.memory.advance_pc();
        proof {
            assert(self.spec_state() =~= (match step_set_mem(s0, pointer, value) {
                StepResult::Next(s) => s,
                _ => s0,
            }));
        }
        Ok(())
    }

    #[verifier::rlimit(60)]
    #[verifier::spinoff_prover]
    fn exec_get(&mut self, register_out: OutReg, pointer: In64Reg) -> (r: Result<(), IError>)
        requires
            old(self).memory.wf(),
            crate::memory::spec_check_pc(
                old(self).memory.data.manifest,
                old(self).memory.current_frame.program_counter,
            ) is Ok,
        ensures
            final(self).memory.wf(),
            final(self).output@ == old(self).output@,
            r is Ok ==> step_get(old(self).spec_state(), register_out, pointer) == StepResult::Next(final(self).spec_state()),
            r matches Err(e) ==> step_get(old(self).spec_state(), register_out, pointer) == StepResult::Fail(final(self).spec_state(), e),
    {
        let ghost s0 = old(self).spec_state();
        let pv = match self.memory.read_reg64(pointer) {
            Ok(v) => v,
            Err(e) => {
                return Err(e);
            },
        };
        let ptr = Ptr::from_u64(pv);
        let out_size = register_out.size_class();
        let value: u64 = if out_size == 0 {
            match self.memory.data.read_u8(ptr) {
                Ok(v) => v as u64,
                Err(e) => {
                    return Err(e);
                },
            }
        } else if out_size == 1 {
            match self.memory.data.read_u16(ptr) {
                Ok(v) => v as u64,
                Err(e) => {
                    return Err(e);
                },
            }
        } else if out_size == 2 {
            match self.memory.data.read_u32(ptr) {
                Ok(v) => v as u64,
                Err(e) => {
                    return Err(e);
                },
            }
        } else {
            match self.memory.data.read_u64(ptr) {
                Ok(v) => v,
                Err(e) => {
                    return Err(e);
                },
            }
        };
        let id = match register_out.expect_id() {
            Ok(id) => id,
            Err(e) => {
                return Err(e);
            },
        };
        let value = if register_out.is_signed() {
            sign_extend_and_truncate(out_size, value) as u64
        } else {
            truncate(out_size, value)
        };
        match self.memory.write_register(id, value) {
            Ok(()) => {},
            Err(e) => {
                return Err(e);
            },
        }
        proof {
            lemma_store64_bridge(s0.arena, self.spec_state().arena, reg_addr(s0, id), value);
        }
        self.memory.advance_pc();
        proof {
            assert(self.spec_state() =~= (match step_get(s0, register_out, pointer) {
                StepResult::Next(s) => s,
                _ => s0,
            }));
        }
        Ok(())
    }

    #[verifier::rlimit(60)]
    #[verifier::spinoff_prover]
    fn exec_add(&mut self, register_out: OutReg, left: InReg, right: InReg) -> (r: Result<(), IError>)
        requires
            old(self).memory.wf(),
            crate::memory::spec_check_pc(
                old(self).memory.data.manifest,
                old(self).memory.current_frame.program_counter,
            ) is Ok,
        ensures
            final(self).memory.wf(),
            final(self).output@ == old(self).output@,
            r is Ok ==> step_add(old(self).spec_state(), register_out, left, right) == StepResult::Next(final(self).spec_state()),
            r matches Err(e) ==> step_add(old(self).spec_state(), register_out, left, right) == StepResult::Fail(final(self).spec_state(), e),
    {
        let ghost s0 = old(self).spec_state();
        let sign_extend = register_out.is_signed();
        let out_size = register_out.size_class();
        let result = if sign_extend {
            let left = match self.memory.read_signed_reg(left) {
                Ok(v) => v,
                Err(e) => {
                    return Err(e);
                },
            };
            let right = match self.memory.read_signed_reg(right) {
                Ok(v) => v,
                Err(e) => {
                    return Err(e);
                },
            };
            let result = left.wrapping_add(right) as u64;
            sign_extend_and_truncate(out_size, result) as u64
        } else {
            let left = match self.memory.read_unsigned_reg(left) {
                Ok(v) => v,
                Err(e) => {
                    return Err(e);
                },
            };
            let right = match self.memory.read_unsigned_reg(right) {
                Ok(v) => v,
                Err(e) => {
                    return Err(e);
                },
            };
            let result = left.wrapping_add(right);
            truncate(out_size, result)
        };
        let out = match register_out.expect_id() {
            Ok(id) => id,
            Err(e) => {
                return Err(e);
            },
        };
        match self.memory.write_register(out, result) {
            Ok(()) => {},
            Err(e) => {
                return Err(e);
            },
        }
        proof {
            lemma_store64_bridge(s0.arena, self.spec_state().arena, reg_addr(s0, out), result);
        }
        self.memory.advance_pc();
        proof {
            assert(self.spec_state() =~= (match step_add(s0, register_out, left, right) {
                StepResult::Next(s) => s,
                _ => s0,
            }));
        }
        Ok(())
    }

    #[verifier::rlimit(60)]
    #[verifier::spinoff_prover]
    fn exec_jump(&mut self) -> (r: Result<(), IError>)
        requires
            old(self).memory.wf(),
            crate::memory::spec_check_pc(
                old(self).memory.data.manifest,
                old(self).memory.current_frame.program_counter,
            ) is Ok,
        ensures
            final(self).memory.wf(),
            final(self).output@ == old(self).output@,
            r is Ok ==> step_jump(old(self).spec_state()) == StepResult::Next(final(self).spec_state()),
            r matches Err(e) ==> step_jump(old(self).spec_state()) == StepResult::Fail(final(self).spec_state(), e),
    {
        let ghost s0 = old(self).spec_state();
        self.memory.advance_pc();
        let address = match self.memory.read_op() {
            Ok(w) => w,
            Err(e) => {
                return Err(e);
            },
        };
        let target = (self.memory.data.manifest.static_exe_start as u64) + (address as u64);
        if target > 0xFFFF_FFFF {
            return Err(IError::new(IErrorKind::InvalidJump));
        }
        match self.memory.jmp(target as u32) {
            Ok(()) => {},
            Err(e) => {
                return Err(e);
            },
        }
        Ok(())
    }

    #[verifier::rlimit(60)]
    #[verifier::spinoff_prover]
    fn exec_jump_if_zero(&mut self, register_in: InReg) -> (r: Result<(), IError>)
        requires
            old(self).memory.wf(),
            crate::memory::spec_check_pc(
                old(self).memory.data.manifest,
                old(self).memory.current_frame.program_counter,
            ) is Ok,
        ensures
            final(self).memory.wf(),
            final(self).output@ == old(self).output@,
            r is Ok ==> step_jump_cond(old(self).spec_state(), register_in, true) == StepResult::Next(final(self).spec_state()),
            r matches Err(e) ==> step_jump_cond(old(self).spec_state(), register_in, true) == StepResult::Fail(final(self).spec_state(), e),
    {
        let ghost s0 = old(self).spec_state();
        self.memory.advance_pc();
        let address = match self.memory.read_op() {
            Ok(w) => w,
            Err(e) => {
                return Err(e);
            },
        };
        let v = match self.memory.read_unsigned_reg(register_in) {
            Ok(v) => v,
            Err(e) => {
                return Err(e);
            },
        };
        if v == 0 {
            let target = (self.memory.data.manifest.static_exe_start as u64) + (address as u64);
            if target > 0xFFFF_FFFF {
                return Err(IError::new(IErrorKind::InvalidJump));
            }
            match self.memory.jmp(target as u32) {
                Ok(()) => {},
                Err(e) => {
                    return Err(e);
                },
            }
        } else {
            self.memory.advance_pc();
        }
        Ok(())
    }

    #[verifier::rlimit(60)]
    #[verifier::spinoff_prover]
    fn exec_jump_if_not_zero(&mut self, register_in: InReg) -> (r: Result<(), IError>)
        requires
            old(self).memory.wf(),
            crate::memory::spec_check_pc(
                old(self).memory.data.manifest,
                old(self).memory.current_frame.program_counter,
            ) is Ok,
        ensures
            final(self).memory.wf(),
            final(self).output@ == old(self).output@,
            r is Ok ==> step_jump_cond(old(self).spec_state(), register_in, false) == StepResult::Next(final(self).spec_state()),
            r matches Err(e) ==> step_jump_cond(old(self).spec_state(), register_in, false) == StepResult::Fail(final(self).spec_state(), e),
    {
        let ghost s0 = old(self).spec_state();
        self.memory.advance_pc();
        let address = match self.memory.read_op() {
            Ok(w) => w,
            Err(e) => {
                return Err(e);
            },
        };
        let v = match self.memory.read_unsigned_reg(register_in) {
            Ok(v) => v,
            Err(e) => {
                return Err(e);
            },
        };
        if v != 0 {
            let target = (self.memory.data.manifest.static_exe_start as u64) + (address as u64);
            if target > 0xFFFF_FFFF {
                return Err(IError::new(IErrorKind::InvalidJump));
            }
            match self.memory.jmp(target as u32) {
                Ok(()) => {},
                Err(e) => {
                    return Err(e);
                },
            }
        } else {
            self.memory.advance_pc();
        }
        Ok(())
    }

    #[verifier::rlimit(60)]
    #[verifier::spinoff_prover]
    fn exec_call(&mut self) -> (r: Result<(), IError>)
        requires
            old(self).memory.wf(),
            crate::memory::spec_check_pc(
                old(self).memory.data.manifest,
                old(self).memory.current_frame.program_counter,
            ) is Ok,
        ensures
            final(self).memory.wf(),
            final(self).output@ == old(self).output@,
            r is Ok ==> step_call(old(self).spec_state()) == StepResult::Next(final(self).spec_state()),
            r matches Err(e) ==> step_call(old(self).spec_state()) == StepResult::Fail(final(self).spec_state(), e),
    {
        let ghost s0 = old(self).spec_state();
        self.memory.advance_pc();
        let address = match self.memory.read_op() {
            Ok(w) => w,
            Err(e) => {
                return Err(e);
            },
        };
        self.memory.advance_pc();
        let target = (self.memory.data.manifest.static_exe_start as u64) + (address as u64);
        if target > 0xFFFF_FFFF {
            return Err(IError::new(IErrorKind::InvalidJump));
        }
        match self.memory.call(target as u32) {
            Ok(()) => {},
            Err(e) => {
                return Err(e);
            },
        }
        proof {
            assert(self.spec_state().arena =~= s0.arena + zero_bytes(256));
            assert(self.spec_state() =~= (match step_call(s0) {
                StepResult::Next(s) => s,
                _ => s0,
            }));
        }
        Ok(())
    }

    #[verifier::rlimit(60)]
    #[verifier::spinoff_prover]
    fn exec_ret(&mut self) -> (r: Result<(), IError>)
        requires
            old(self).memory.wf(),
            crate::memory::spec_check_pc(
                old(self).memory.data.manifest,
                old(self).memory.current_frame.program_counter,
            ) is Ok,
        ensures
            final(self).memory.wf(),
            final(self).output@ == old(self).output@,
            r is Ok ==> step_ret(old(self).spec_state()) == StepResult::Next(final(self).spec_state()),
            r matches Err(e) ==> step_ret(old(self).spec_state()) == StepResult::Fail(final(self).spec_state(), e),
    {
        let ghost s0 = old(self).spec_state();
        match self.memory.ret() {
            Ok(()) => {},
            Err(e) => {
                return Err(e);
            },
        }
        proof {
            assert(self.spec_state() =~= (match step_ret(s0) {
                StepResult::Next(s) => s,
                _ => s0,
            }));
        }
        Ok(())
    }

    #[verifier::rlimit(60)]
    #[verifier::spinoff_prover]
    fn exec_ecall(&mut self, kind: EcallKind, input_1: In64Reg) -> (r: Result<bool, IError>)
        requires
            old(self).memory.wf(),
            crate::memory::spec_check_pc(
                old(self).memory.data.manifest,
                old(self).memory.current_frame.program_counter,
            ) is Ok,
        ensures
            final(self).memory.wf(),
            old(self).output@.is_prefix_of(final(self).output@),
            r == Ok::<bool, IError>(true) ==> step_ecall(old(self).spec_state(), kind, input_1) == StepResult::Next(
                final(self).spec_state(),
            ),
            r == Ok::<bool, IError>(false) ==> step_ecall(old(self).spec_state(), kind, input_1) == StepResult::Exit(
                final(self).spec_state(),
            ),
            r matches Err(e) ==> step_ecall(old(self).spec_state(), kind, input_1) == StepResult::Fail(final(self).spec_state(), e),
    {
        let ghost s0 = old(self).spec_state();
        match kind {
            EcallKind::ExitSuccess => {
                return Ok(false);
            },
            EcallKind::Print => {
                let left = match self.memory.read_reg64(input_1) {
                    Ok(v) => v,
                    Err(e) => {
                        return Err(e);
                    },
                };
                let ghost pre = self.output@;
                let mut digits = u64_to_decimal(left);
                self.output.append(&mut digits);
                self.output.push(32);
                proof {
                    assert(self.output@ =~= pre + spec_decimal_digits(left as nat) + seq![32u8]);
                }
                self.memory.advance_pc();
                proof {
                    assert(self.spec_state() =~= (match step_ecall(s0, kind, input_1) {
                        StepResult::Next(s) => s,
                        _ => s0,
                    }));
                }
            },
            EcallKind::PrintNewline => {
                self.output.push(10);
                self.memory.advance_pc();
                proof {
                    assert(self.spec_state() =~= (match step_ecall(s0, kind, input_1) {
                        StepResult::Next(s) => s,
                        _ => s0,
                    }));
                }
            },
        }
        Ok(true)
    }

    /// Executes exactly one instruction.  The outcome is precisely one
    /// `vm_step` of the machine state: `Ok(true)` continues into the next
    /// state, `Ok(false)` is a successful exit, and an error leaves the
    /// state exactly as the failing step does.
    #[verifier::rlimit(100)]
    #[verifier::spinoff_prover]
    fn step(&mut self) -> (r: Result<bool, IError>)
        requires
            old(self).memory.wf(),
        ensures
            final(self).memory.wf(),
            old(self).output@.is_prefix_of(final(self).output@),
            r == Ok::<bool, IError>(true) ==> vm_step(old(self).spec_state()) == StepResult::Next(
                final(self).spec_state(),
            ),
            r == Ok::<bool, IError>(false) ==> vm_step(old(self).spec_state()) == StepResult::Exit(
                final(self).spec_state(),
            ),
            r matches Err(e) ==> vm_step(old(self).spec_state()) == StepResult::Fail(
                final(self).spec_state(),
                e,
            ),
    {
        let ghost s0 = old(self).spec_state();
        let word = match self.memory.read_op() {
            Ok(w) => w,
            Err(e) => {
                return Err(e);
            },
        };
        let opcode = match Opcode::decode(word) {
            Some(op) => op,
            None => {
                return Err(IError::new(IErrorKind::Unimplemented));
            },
        };
        proof {
            assert(vm_step(s0) == vm_dispatch(s0, opcode));
        }

        match opcode {
            Opcode::StackAlloc { len, save_address } => {
                match self.exec_stack_alloc(len, save_address) {
                    Ok(()) => Ok(true),
                    Err(e) => Err(e),
                }
            },
            Opcode::StackDealloc { count } => {
                match self.exec_stack_dealloc(count) {
                    Ok(()) => Ok(true),
                    Err(e) => Err(e),
                }
            },
            Opcode::Make64 { register_out, stack_slot } => {
                match self.exec_make64(register_out, stack_slot) {
                    Ok(()) => Ok(true),
                    Err(e) => Err(e),
                }
            },
            Opcode::MakeFp { register_out, stack_id } => {
                match self.exec_make_fp(register_out, stack_id) {
                    Ok(()) => Ok(true),
                    Err(e) => Err(e),
                }
            },
            Opcode::SetMem { pointer, value } => {
                match self.exec_set_mem(pointer, value) {
                    Ok(()) => Ok(true),
                    Err(e) => Err(e),
                }
            },
            Opcode::Get { register_out, pointer } => {
                match self.exec_get(register_out, pointer) {
                    Ok(()) => Ok(true),
                    Err(e) => Err(e),
                }
            },
            Opcode::Add { register_out, left, right } => {
                match self.exec_add(register_out, left, right) {
                    Ok(()) => Ok(true),
                    Err(e) => Err(e),
                }
            },
            Opcode::Jump => {
                match self.exec_jump() {
                    Ok(()) => Ok(true),
                    Err(e) => Err(e),
                }
            },
            Opcode::JumpIfZero { register_in, stack_slot } => {
                match self.exec_jump_if_zero(register_in) {
                    Ok(()) => Ok(true),
                    Err(e) => Err(e),
                }
            },
            Opcode::JumpIfNotZero { register_in, stack_slot } => {
                match self.exec_jump_if_not_zero(register_in) {
                    Ok(()) => Ok(true),
                    Err(e) => Err(e),
                }
            },
            Opcode::Call { register_out, arg_count } => {
                match self.exec_call() {
                    Ok(()) => Ok(true),
                    Err(e) => Err(e),
                }
            },
            Opcode::Ret => {
                match self.exec_ret() {
                    Ok(()) => Ok(true),
                    Err(e) => Err(e),
                }
            },
            Opcode::Ecall { kind, input_1, input_2 } => self.exec_ecall(kind, input_1),
            _ => Err(IError::new(IErrorKind::Unimplemented)),
        }
    }

    /// Runs the program until it exits or fails.  The run follows the
    /// machine semantics step for step: `Ok` means some number of steps
    /// from the initial state reaches a successful exit in exactly the
    /// final state, and an error is the fault of the first failing step,
    /// with the state left as that step left it.  The memory invariant
    /// holds throughout and the output only ever grows.  The loop carries
    /// a step budget so that every run is a finite computation; giving up
    /// when it is exhausted (an internal fault after nearly 2^64
    /// instructions, centuries of work) leaves a still-running machine.
    pub fn run(&mut self) -> (r: Result<(), IError>)
        requires
            old(self).memory.wf(),
        ensures
            final(self).memory.wf(),
            old(self).output@.is_prefix_of(final(self).output@),
            r is Ok ==> exists|n: nat|
                vm_steps(old(self).spec_state(), n) == StepResult::Exit(final(self).spec_state()),
            r is Ok ==> crate::memory::spec_check_pc(
                final(self).memory.data.manifest,
                final(self).memory.current_frame.program_counter,
            ) is Ok && Opcode::spec_decode(
                crate::arena::word32_at(
                    final(self).memory.data.arena(),
                    final(self).memory.current_frame.program_counter as int,
                ),
            ) matches Some(Opcode::Ecall { kind: EcallKind::ExitSuccess, .. }),
            r matches Err(e) ==> (exists|n: nat|
                vm_steps(old(self).spec_state(), n) == StepResult::Fail(
                    final(self).spec_state(),
                    e,
                )) || (e.kind == IErrorKind::Internal && vm_steps(
                old(self).spec_state(),
                0xFFFF_FFFF_FFFF_FFFF as nat,
            ) == StepResult::Next(final(self).spec_state())),
    {
        let ghost s_init = old(self).spec_state();
        let ghost mut steps: nat = 0;
        let mut budget: u64 = u64::MAX;
        while budget > 0
            invariant
                self.memory.wf(),
                old(self).output@.is_prefix_of(self.output@),
                s_init == old(self).spec_state(),
                steps == u64::MAX - budget,
                vm_steps(s_init, steps) == StepResult::Next(self.spec_state()),
            decreases budget,
        {
            budget = budget - 1;
            let ghost pre = self.spec_state();
            let outcome = self.step();
            proof {
                steps = steps + 1;
                assert(vm_steps(s_init, steps) == (match vm_steps(s_init, (steps - 1) as nat) {
                    StepResult::Next(s2) => vm_step(s2),
                    done => done,
                }));
            }
            match outcome {
                Ok(true) => {},
                Ok(false) => {
                    proof {
                        assert(vm_steps(s_init, steps) == StepResult::Exit(self.spec_state()));
                        crate::semantics::lemma_exit_shape(pre, self.spec_state());
                    }
                    return Ok(());
                },
                Err(e) => {
                    proof {
                        assert(vm_steps(s_init, steps) == StepResult::Fail(self.spec_state(), e));
                    }
                    return Err(e);
                },
            }
        }
        Err(IError::new(IErrorKind::Internal))
    }
}

} // verus!
