use vstd::prelude::*;

verus! {

use crate::graph::{Graph, GraphOpKind, Operand};
use crate::lens::{AllocLen, MAX_ALLOC_LEN};
use crate::memory::ARENA_LIMIT;
use crate::opcode::{EcallKind, Opcode};
use crate::regs::{InReg, In64Reg, Out64Reg, OutReg, RegSignedness, RegSize, StackSlot};
use crate::tracker::AllocTracker;

/// Whether an operand can be lowered: a register operand must name a
/// usable general-purpose register.
pub open spec fn operand_ok(op: Operand) -> bool {
    match op {
        Operand::RegisterValue { id } => 0 < id < 32,
        _ => true,
    }
}

/// Whether one graph op can be lowered to the instruction set: requested
/// sizes must be compressible, and everything written must land in a
/// stack slot (registers only carry temporaries between ops).
pub open spec fn lowerable(kind: GraphOpKind) -> bool {
    match kind {
        GraphOpKind::DeclareStack { size } => size <= MAX_ALLOC_LEN,
        GraphOpKind::StackDealloc { .. } => true,
        GraphOpKind::ConstantU64 { target, .. } => target matches Operand::StackLocal { .. },
        GraphOpKind::Add { target, left, right } => (target matches Operand::StackLocal { .. })
            && operand_ok(left) && operand_ok(right),
        GraphOpKind::Print { value } => operand_ok(value),
        GraphOpKind::PrintNewline => true,
        GraphOpKind::ExitSuccess => true,
    }
}

/// Lowers intermediate operations into the bytecode stream and packs the
/// stream into a fresh allocation tracker.
pub struct Assembler {
    pub exe_bytes: Vec<u32>,
}

impl Assembler {
    pub fn new() -> (r: Self)
        ensures
            r.exe_bytes@.len() == 0,
    {
        Assembler { exe_bytes: Vec::new() }
    }

    /// Appends one word to the bytecode stream.
    pub fn push(&mut self, val: u32)
        ensures
            final(self).exe_bytes@ == old(self).exe_bytes@.push(val),
    {
        self.exe_bytes.push(val);
    }

    /// Emits code placing an operand's value in a register and returns
    /// the register id; `temp_register` receives the value when it is not
    /// in a register already.
    pub fn operand(&mut self, op: Operand, temp_register: u8) -> (r: u8)
        requires
            operand_ok(op),
            0 < temp_register < 32,
        ensures
            0 < r < 32,
            final(self).exe_bytes@.len() <= old(self).exe_bytes@.len() + 2,
            forall|i: int|
                0 <= i < old(self).exe_bytes@.len() ==> final(self).exe_bytes@[i] == old(
                    self,
                ).exe_bytes@[i],
            (match op {
                Operand::StackLocal { id } => {
                    &&& r == temp_register
                    &&& final(self).exe_bytes@.len() == old(self).exe_bytes@.len() + 2
                    &&& Opcode::spec_decode(
                        final(self).exe_bytes@[old(self).exe_bytes@.len() as int],
                    ) matches Some(Opcode::MakeFp { register_out, stack_id })
                        && register_out.spec_id() == Some(31u8) && stack_id == id
                    &&& Opcode::spec_decode(
                        final(self).exe_bytes@[old(self).exe_bytes@.len() as int + 1],
                    ) matches Some(Opcode::Get { register_out, pointer })
                        && register_out.spec_id() == Some(temp_register)
                        && register_out.spec_size_class() == 3 && !register_out.spec_is_signed()
                        && pointer.spec_id() == Some(31u8)
                },
                Operand::RegisterValue { id } => r == id && final(self).exe_bytes@ == old(
                    self,
                ).exe_bytes@,
                Operand::Null => {
                    &&& r == temp_register
                    &&& final(self).exe_bytes@.len() == old(self).exe_bytes@.len() + 1
                    &&& Opcode::spec_decode(
                        final(self).exe_bytes@[old(self).exe_bytes@.len() as int],
                    ) matches Some(Opcode::Make16 { register_out, value })
                        && register_out.spec_id() == Some(temp_register) && value == 0
                },
            }),
    {
        match op {
            Operand::StackLocal { id } => {
                let frame_ptr = Opcode::MakeFp { register_out: Out64Reg::new(31), stack_id: id };
                self.push(frame_ptr.encode());
                proof {
                    crate::opcode::lemma_opcode_roundtrip(frame_ptr);
                }
                let fetch = Opcode::Get {
                    pointer: In64Reg::new(31),
                    register_out: OutReg::new(
                        RegSignedness::RegUnsigned,
                        RegSize::RegSize64,
                        temp_register,
                    ),
                };
                self.push(fetch.encode());
                proof {
                    crate::opcode::lemma_opcode_roundtrip(fetch);
                }
                temp_register
            },
            Operand::RegisterValue { id } => id,
            Operand::Null => {
                let load = Opcode::Make16 {
                    register_out: OutReg::new(
                        RegSignedness::RegUnsigned,
                        RegSize::RegSize64,
                        temp_register,
                    ),
                    value: 0,
                };
                self.push(load.encode());
                proof {
                    crate::opcode::lemma_opcode_roundtrip(load);
                }
                temp_register
            },
        }
    }

    /// Emits code storing a register's value, at the given width, into a
    /// stack-slot target.
    pub fn write_to_operand(&mut self, op: Operand, size: RegSize, register: u8)
        requires
            op matches Operand::StackLocal { .. },
            register < 32,
        ensures
            final(self).exe_bytes@.len() == old(self).exe_bytes@.len() + 2,
            forall|i: int|
                0 <= i < old(self).exe_bytes@.len() ==> final(self).exe_bytes@[i] == old(
                    self,
                ).exe_bytes@[i],
            op matches Operand::StackLocal { id } ==> Opcode::spec_decode(
                final(self).exe_bytes@[old(self).exe_bytes@.len() as int],
            ) matches Some(Opcode::MakeFp { register_out, stack_id })
                && register_out.spec_id() == Some(31u8) && stack_id == id,
            Opcode::spec_decode(
                final(self).exe_bytes@[old(self).exe_bytes@.len() as int + 1],
            ) matches Some(Opcode::SetMem { pointer, value }) && pointer.spec_id() == Some(31u8)
                && value.spec_id() == Some(register)
                && value.spec_size_class() == size.spec_class(),
    {
        if let Operand::StackLocal { id } = op {
            let frame_ptr = Opcode::MakeFp { register_out: Out64Reg::new(31), stack_id: id };
            self.push(frame_ptr.encode());
            let store = Opcode::SetMem {
                pointer: In64Reg::new(31),
                value: InReg::new(size, register),
            };
            self.push(store.encode());
            proof {
                crate::opcode::lemma_opcode_roundtrip(frame_ptr);
                crate::opcode::lemma_opcode_roundtrip(store);
            }
        }
    }

    /// Lowers one basic block and loads the result into a fresh tracker.
    /// What this guarantees is the byte-level contract the interpreter
    /// consumes: a well-formed image, small enough to execute, whose
    /// manifest starts at the beginning of the arena.
    pub fn assemble(self, graph: &Graph, entry_block: u32) -> (r: AllocTracker)
        requires
            self.exe_bytes@.len() == 0,
            graph.wf(),
            entry_block < graph.blocks@.len(),
            graph.blocks@[entry_block as int].ops.end - graph.blocks@[entry_block as int].ops.start
                <= 0x0010_0000,
            forall|i: int|
                graph.blocks@[entry_block as int].ops.start <= i < graph.blocks@[
                    entry_block as int].ops.end ==> lowerable((#[trigger] graph.ops@[i]).kind),
        ensures
            r.wf(),
            r.arena().len() <= ARENA_LIMIT,
            r.manifest.static_exe_start == 0,
            r.manifest.static_exe_end >= 4 * (graph.blocks@[entry_block as int].ops.end - graph.blocks@[
                entry_block as int].ops.start),
            r.manifest.static_exe_end <= 32 * (graph.blocks@[entry_block as int].ops.end - graph.blocks@[
                entry_block as int].ops.start),
    {
        let mut this = self;
        let block = graph.blocks[entry_block as usize];
        let mut i: u32 = block.ops.start;
        while i < block.ops.end
            invariant
                graph.wf(),
                entry_block < graph.blocks@.len(),
                block == graph.blocks@[entry_block as int],
                block.ops.start <= i <= block.ops.end,
                block.ops.end - block.ops.start <= 0x0010_0000,
                forall|j: int|
                    block.ops.start <= j < block.ops.end ==> lowerable(
                        (#[trigger] graph.ops@[j]).kind,
                    ),
                i - block.ops.start <= this.exe_bytes@.len() <= 8 * (i - block.ops.start),
            decreases block.ops.end - i,
        {
            let op = graph.ops[i as usize];

            match op.kind {
                GraphOpKind::DeclareStack { size } => {
                    let len = AllocLen::new(size);
                    this.push(
                        Opcode::StackAlloc { len, save_address: Out64Reg::null() }.encode(),
                    );
                },
                GraphOpKind::StackDealloc { count } => {
                    this.push(Opcode::StackDealloc { count }.encode());
                },
                GraphOpKind::ConstantU64 { target, value } => {
                    let register_out = Out64Reg::new(30);

                    this.push(
                        Opcode::Make64 { register_out, stack_slot: StackSlot::new(0) }.encode(),
                    );

                    this.push(value as u32);
                    this.push((value >> 32) as u32);

                    this.write_to_operand(target, RegSize::RegSize64, 30);
                },
                GraphOpKind::Add { target, left, right } => {
                    let op1 = this.operand(left, 29);
                    let op2 = this.operand(right, 30);

                    this.push(
                        Opcode::Add {
                            register_out: OutReg::new(
                                RegSignedness::RegUnsigned,
                                RegSize::RegSize64,
                                30,
                            ),
                            left: InReg::new(RegSize::RegSize64, op1),
                            right: InReg::new(RegSize::RegSize64, op2),
                        }.encode(),
                    );

                    this.write_to_operand(target, RegSize::RegSize64, 30);
                },
                GraphOpKind::Print { value } => {
                    let op_reg = this.operand(value, 30);

                    this.push(
                        Opcode::Ecall {
                            kind: EcallKind::Print,
                            input_1: In64Reg::new(op_reg),
                            input_2: In64Reg::null(),
                        }.encode(),
                    );
                },
                GraphOpKind::PrintNewline => {
                    this.push(
                        Opcode::Ecall {
                            kind: EcallKind::PrintNewline,
                            input_1: In64Reg::null(),
                            input_2: In64Reg::null(),
                        }.encode(),
                    );
                },
                GraphOpKind::ExitSuccess => {
                    this.push(
                        Opcode::Ecall {
                            kind: EcallKind::ExitSuccess,
                            input_1: In64Reg::null(),
                            input_2: In64Reg::null(),
                        }.encode(),
                    );
                },
            }
            i = i + 1;
        }

        let mut binary = AllocTracker::new();
        binary.alloc_exe(&this.exe_bytes);
        binary
    }
}

} // verus!
