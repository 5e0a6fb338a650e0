use vstd::prelude::*;

verus! {

use crate::lens::AllocLen;
use crate::regs::{InReg, In64Reg, Out64Reg, OutReg, StackSlot};

/// The environment calls the virtual machine offers: printing a value,
/// printing a line terminator, and halting with success.
#[derive(Debug, Clone, Copy, PartialEq, Eq, Structural)]
pub enum EcallKind {
    Print,
    PrintNewline,
    ExitSuccess,
}

impl EcallKind {
    pub open spec fn spec_byte(self) -> u8 {
        match self {
            EcallKind::Print => 0,
            EcallKind::PrintNewline => 1,
            EcallKind::ExitSuccess => 2,
        }
    }

    pub fn byte(self) -> (r: u8)
        ensures
            r == self.spec_byte(),
    {
        match self {
            EcallKind::Print => 0,
            EcallKind::PrintNewline => 1,
            EcallKind::ExitSuccess => 2,
        }
    }
}

/// The low byte of a 16-bit operand field.
pub open spec fn lo16(v: u16) -> u8 {
    (v & 0xFF) as u8
}

/// The high byte of a 16-bit operand field.
pub open spec fn hi16(v: u16) -> u8 {
    (v >> 8) as u8
}

/// A 16-bit operand field from its two little-endian bytes.
pub open spec fn u16_from(lo: u8, hi: u8) -> u16 {
    (lo as u16) | ((hi as u16) << 8)
}

/// The four little-endian bytes of an instruction word, packed back into
/// the word.
pub open spec fn pack_bytes(b0: u8, b1: u8, b2: u8, b3: u8) -> u32 {
    (b0 as u32) | ((b1 as u32) << 8) | ((b2 as u32) << 16) | ((b3 as u32) << 24)
}

/// Packing four bytes into a word and taking them apart again gives the
/// bytes back, and a 16-bit field survives its byte split the same way.
proof fn lemma_pack_unpack(b0: u8, b1: u8, b2: u8, b3: u8)
    by (bit_vector)
    ensures
        (pack_bytes(b0, b1, b2, b3) & 0xFF) as u8 == b0,
        ((pack_bytes(b0, b1, b2, b3) >> 8) & 0xFF) as u8 == b1,
        ((pack_bytes(b0, b1, b2, b3) >> 16) & 0xFF) as u8 == b2,
        ((pack_bytes(b0, b1, b2, b3) >> 24) & 0xFF) as u8 == b3,
{
}

/// A 16-bit field split into bytes and reassembled is unchanged.
proof fn lemma_u16_split(v: u16)
    by (bit_vector)
    ensures
        u16_from(lo16(v), hi16(v)) == v,
{
}

/// One decoded instruction.  Instructions are 4-byte tagged words; a few
/// (`Make32`, `Make64`, the jumps and `Call`) are followed by one or two
/// raw 32-bit words that carry an immediate value or target address and
/// are not themselves tagged instructions.
#[derive(Debug, Clone, Copy, PartialEq, Eq, Structural)]
#[non_exhaustive]
#[allow(inconsistent_fields)]
pub enum Opcode {
    // opcode u8 u16
    Func,
    // opcode u8-len-power u8-len u8-register-output
    StackAlloc { len: AllocLen, save_address: Out64Reg },
    // opcode u8 u16-count
    StackDealloc { count: u16 },
    // opcode u8-register-output u8-register-64-input u8
    HeapAlloc { register_out: Out64Reg, register_64_in: In64Reg },
    // opcode u8-register-64-input u16
    HeapDealloc { register_64_in: In64Reg },
    // opcode u8-register-output u16-value
    Make16 { register_out: OutReg, value: u16 },
    // opcode u8-register-output u16-stack-slot, one raw value word follows
    Make32 { register_out: OutReg, stack_slot: u16 },
    // opcode u8-register-output u16-stack-slot, two raw value words follow
    Make64 { register_out: Out64Reg, stack_slot: StackSlot },
    // opcode u8-register-output u16-stack-id
    MakeFp { register_out: Out64Reg, stack_id: u16 },
    // opcode u8-register-output u16-stack-slot
    Truncate { register_out: OutReg, stack_slot: u16 },
    // opcode u8-register-output u16-stack-slot, ignores sign extension
    BoolNorm { register_out: OutReg, stack_slot: u16 },
    // opcode u8-register-output u16-stack-slot, ignores sign extension
    BoolNot { register_out: OutReg, stack_slot: u16 },
    // opcode u8-register-output u16-value
    Add16 { register_out: Out64Reg, value: u16 },
    // opcode u8-register-output u8-register-pointer-input u8
    Get { register_out: OutReg, pointer: In64Reg },
    // opcode u8-register-pointer-input u8-register-input u8
    SetMem { pointer: In64Reg, value: InReg },
    // opcode u8-register-pointer-input u8-register-pointer-input u8-register-64-input
    MemCopy { source: In64Reg, dest: In64Reg, byte_count: In64Reg },
    // opcode u8-register-output u8-register-input u8-register-input
    Add { register_out: OutReg, left: InReg, right: InReg },
    // opcode u8-register-output u8-register-input u8-register-input
    Sub { register_out: OutReg, left: InReg, right: InReg },
    // opcode u8-register-output u8-register-input u8-register-input
    Mul { register_out: OutReg, left: InReg, right: InReg },
    // opcode u8-register-output u8-register-input u8-register-input
    Div { register_out: OutReg, left: InReg, right: InReg },
    // opcode u8-register-output u8-register-input u8-register-input
    Mod { register_out: OutReg, left: InReg, right: InReg },
    // opcode u8-register-output u8-register-input u8-register-input
    RShift { register_out: OutReg, left: InReg, right: InReg },
    // opcode u8-register-output u8-register-input u8-register-input
    LShift { register_out: OutReg, left: InReg, right: InReg },
    // opcode u8-register-output u8-register-input u8-register-input
    BitAnd { register_out: OutReg, left: InReg, right: InReg },
    // opcode u8-register-output u8-register-input u8-register-input
    BitOr { register_out: OutReg, left: InReg, right: InReg },
    // opcode u8-register-output u8-register-input u8-register-input
    BitXor { register_out: OutReg, left: InReg, right: InReg },
    // opcode u8-register-output u8-register-input u8-register-input
    BitNot { register_out: OutReg, left: InReg, right: InReg },
    // reserved floating-point encoding
    FAdd { register_out: u8, left: InReg, right: InReg },
    // reserved floating-point encoding
    FSub { register_out: u8, left: InReg, right: InReg },
    // reserved floating-point encoding
    FMul { register_out: u8, left: InReg, right: InReg },
    // reserved floating-point encoding
    FDiv { register_out: u8, left: InReg, right: InReg },
    // reserved floating-point encoding
    FMod { register_out: u8, left: InReg, right: InReg },
    // opcode u8-register-output u8-register-input u8-register-input
    CompLt { register_out: OutReg, left: InReg, right: InReg },
    // opcode u8-register-output u8-register-input u8-register-input
    CompLeq { register_out: OutReg, left: InReg, right: InReg },
    // opcode u8-register-output u8-register-input u8-register-input
    CompEq { register_out: OutReg, left: InReg, right: InReg },
    // opcode u8-register-output u8-register-input u8-register-input
    CompNeq { register_out: OutReg, left: InReg, right: InReg },
    // opcode u8 u16, one raw address word follows
    Jump,
    // opcode u8-register-input u16-stack-slot, one raw address word follows
    JumpIfZero { register_in: InReg, stack_slot: u16 },
    // opcode u8-register-input u16-stack-slot, one raw address word follows
    JumpIfNotZero { register_in: InReg, stack_slot: u16 },
    // opcode u8 u16
    Ret,
    // opcode u8-register-output u8-arg-count u8, one raw address word follows
    Call { register_out: Out64Reg, arg_count: u8 },
    // opcode u8-ecall-type u8-register-64-input u8-register-64-input
    Ecall { kind: EcallKind, input_1: In64Reg, input_2: In64Reg },
    // opcode u8-skip-frames u8-register-pointer-input u8-register-64-input
    Throw { skip_frames: u8, message_ptr: In64Reg, message_len: In64Reg },
}

impl Opcode {
    /// The instruction word this opcode encodes to.
    pub open spec fn spec_encode(self) -> u32 {
        match self {
            Opcode::Func => pack_bytes(0, 0, 0, 0),
            Opcode::StackAlloc { len, save_address } => pack_bytes(1, len.power, len.len, save_address.0),
            Opcode::StackDealloc { count } => pack_bytes(2, 0, lo16(count), hi16(count)),
            Opcode::HeapAlloc { register_out, register_64_in } => pack_bytes(3, register_out.0, register_64_in.0, 0),
            Opcode::HeapDealloc { register_64_in } => pack_bytes(4, register_64_in.0, 0, 0),
            Opcode::Make16 { register_out, value } => pack_bytes(5, register_out.0, lo16(value), hi16(value)),
            Opcode::Make32 { register_out, stack_slot } => pack_bytes(6, register_out.0, lo16(stack_slot), hi16(stack_slot)),
            Opcode::Make64 { register_out, stack_slot } => pack_bytes(7, register_out.0, stack_slot.id, stack_slot.offset),
            Opcode::MakeFp { register_out, stack_id } => pack_bytes(8, register_out.0, lo16(stack_id), hi16(stack_id)),
            Opcode::Truncate { register_out, stack_slot } => pack_bytes(9, register_out.0, lo16(stack_slot), hi16(stack_slot)),
            Opcode::BoolNorm { register_out, stack_slot } => pack_bytes(10, register_out.0, lo16(stack_slot), hi16(stack_slot)),
            Opcode::BoolNot { register_out, stack_slot } => pack_bytes(11, register_out.0, lo16(stack_slot), hi16(stack_slot)),
            Opcode::Add16 { register_out, value } => pack_bytes(12, register_out.0, lo16(value), hi16(value)),
            Opcode::Get { register_out, pointer } => pack_bytes(13, register_out.0, pointer.0, 0),
            Opcode::SetMem { pointer, value } => pack_bytes(14, pointer.0, value.0, 0),
            Opcode::MemCopy { source, dest, byte_count } => pack_bytes(15, source.0, dest.0, byte_count.0),
            Opcode::Add { register_out, left, right } => pack_bytes(16, register_out.0, left.0, right.0),
            Opcode::Sub { register_out, left, right } => pack_bytes(17, register_out.0, left.0, right.0),
            Opcode::Mul { register_out, left, right } => pack_bytes(18, register_out.0, left.0, right.0),
            Opcode::Div { register_out, left, right } => pack_bytes(19, register_out.0, left.0, right.0),
            Opcode::Mod { register_out, left, right } => pack_bytes(20, register_out.0, left.0, right.0),
            Opcode::RShift { register_out, left, right } => pack_bytes(21, register_out.0, left.0, right.0),
            Opcode::LShift { register_out, left, right } => pack_bytes(22, register_out.0, left.0, right.0),
            Opcode::BitAnd { register_out, left, right } => pack_bytes(23, register_out.0, left.0, right.0),
            Opcode::BitOr { register_out, left, right } => pack_bytes(24, register_out.0, left.0, right.0),
            Opcode::BitXor { register_out, left, right } => pack_bytes(25, register_out.0, left.0, right.0),
            Opcode::BitNot { register_out, left, right } => pack_bytes(26, register_out.0, left.0, right.0),
            Opcode::FAdd { register_out, left, right } => pack_bytes(27, register_out, left.0, right.0),
            Opcode::FSub { register_out, left, right } => pack_bytes(28, register_out, left.0, right.0),
            Opcode::FMul { register_out, left, right } => pack_bytes(29, register_out, left.0, right.0),
            Opcode::FDiv { register_out, left, right } => pack_bytes(30, register_out, left.0, right.0),
            Opcode::FMod { register_out, left, right } => pack_bytes(31, register_out, left.0, right.0),
            Opcode::CompLt { register_out, left, right } => pack_bytes(32, register_out.0, left.0, right.0),
            Opcode::CompLeq { register_out, left, right } => pack_bytes(33, register_out.0, left.0, right.0),
            Opcode::CompEq { register_out, left, right } => pack_bytes(34, register_out.0, left.0, right.0),
            Opcode::CompNeq { register_out, left, right } => pack_bytes(35, register_out.0, left.0, right.0),
            Opcode::Jump => pack_bytes(36, 0, 0, 0),
            Opcode::JumpIfZero { register_in, stack_slot } => pack_bytes(37, register_in.0, lo16(stack_slot), hi16(stack_slot)),
            Opcode::JumpIfNotZero { register_in, stack_slot } => pack_bytes(38, register_in.0, lo16(stack_slot), hi16(stack_slot)),
            Opcode::Ret => pack_bytes(39, 0, 0, 0),
            Opcode::Call { register_out, arg_count } => pack_bytes(40, register_out.0, arg_count, 0),
            Opcode::Ecall { kind, input_1, input_2 } => pack_bytes(41, kind.spec_byte(), input_1.0, input_2.0),
            Opcode::Throw { skip_frames, message_ptr, message_len } => pack_bytes(42, skip_frames, message_ptr.0, message_len.0),
        }
    }
    /// The opcode an instruction word decodes to, or `None` when the tag
    /// or an ecall type byte matches nothing.
    pub open spec fn spec_decode(w: u32) -> Option<Opcode> {
        let b1 = ((w >> 8) & 0xFF) as u8;
        let b2 = ((w >> 16) & 0xFF) as u8;
        let b3 = ((w >> 24) & 0xFF) as u8;
        match (w & 0xFF) as u8 {
            0u8 => Some(Opcode::Func),
            1u8 => Some(Opcode::StackAlloc { len: AllocLen { len: b2, power: b1 }, save_address: Out64Reg(b3) }),
            2u8 => Some(Opcode::StackDealloc { count: u16_from(b2, b3) }),
            3u8 => Some(Opcode::HeapAlloc { register_out: Out64Reg(b1), register_64_in: In64Reg(b2) }),
            4u8 => Some(Opcode::HeapDealloc { register_64_in: In64Reg(b1) }),
            5u8 => Some(Opcode::Make16 { register_out: OutReg(b1), value: u16_from(b2, b3) }),
            6u8 => Some(Opcode::Make32 { register_out: OutReg(b1), stack_slot: u16_from(b2, b3) }),
            7u8 => Some(Opcode::Make64 { register_out: Out64Reg(b1), stack_slot: StackSlot { id: b2, offset: b3 } }),
            8u8 => Some(Opcode::MakeFp { register_out: Out64Reg(b1), stack_id: u16_from(b2, b3) }),
            9u8 => Some(Opcode::Truncate { register_out: OutReg(b1), stack_slot: u16_from(b2, b3) }),
            10u8 => Some(Opcode::BoolNorm { register_out: OutReg(b1), stack_slot: u16_from(b2, b3) }),
            11u8 => Some(Opcode::BoolNot { register_out: OutReg(b1), stack_slot: u16_from(b2, b3) }),
            12u8 => Some(Opcode::Add16 { register_out: Out64Reg(b1), value: u16_from(b2, b3) }),
            13u8 => Some(Opcode::Get { register_out: OutReg(b1), pointer: In64Reg(b2) }),
            14u8 => Some(Opcode::SetMem { pointer: In64Reg(b1), value: InReg(b2) }),
            15u8 => Some(Opcode::MemCopy { source: In64Reg(b1), dest: In64Reg(b2), byte_count: In64Reg(b3) }),
            16u8 => Some(Opcode::Add { register_out: OutReg(b1), left: InReg(b2), right: InReg(b3) }),
            17u8 => Some(Opcode::Sub { register_out: OutReg(b1), left: InReg(b2), right: InReg(b3) }),
            18u8 => Some(Opcode::Mul { register_out: OutReg(b1), left: InReg(b2), right: InReg(b3) }),
            19u8 => Some(Opcode::Div { register_out: OutReg(b1), left: InReg(b2), right: InReg(b3) }),
            20u8 => Some(Opcode::Mod { register_out: OutReg(b1), left: InReg(b2), right: InReg(b3) }),
            21u8 => Some(Opcode::RShift { register_out: OutReg(b1), left: InReg(b2), right: InReg(b3) }),
            22u8 => Some(Opcode::LShift { register_out: OutReg(b1), left: InReg(b2), right: InReg(b3) }),
            23u8 => Some(Opcode::BitAnd { register_out: OutReg(b1), left: InReg(b2), right: InReg(b3) }),
            24u8 => Some(Opcode::BitOr { register_out: OutReg(b1), left: InReg(b2), right: InReg(b3) }),
            25u8 => Some(Opcode::BitXor { register_out: OutReg(b1), left: InReg(b2), right: InReg(b3) }),
            26u8 => Some(Opcode::BitNot { register_out: OutReg(b1), left: InReg(b2), right: InReg(b3) }),
            27u8 => Some(Opcode::FAdd { register_out: b1, left: InReg(b2), right: InReg(b3) }),
            28u8 => Some(Opcode::FSub { register_out: b1, left: InReg(b2), right: InReg(b3) }),
            29u8 => Some(Opcode::FMul { register_out: b1, left: InReg(b2), right: InReg(b3) }),
            30u8 => Some(Opcode::FDiv { register_out: b1, left: InReg(b2), right: InReg(b3) }),
            31u8 => Some(Opcode::FMod { register_out: b1, left: InReg(b2), right: InReg(b3) }),
            32u8 => Some(Opcode::CompLt { register_out: OutReg(b1), left: InReg(b2), right: InReg(b3) }),
            33u8 => Some(Opcode::CompLeq { register_out: OutReg(b1), left: InReg(b2), right: InReg(b3) }),
            34u8 => Some(Opcode::CompEq { register_out: OutReg(b1), left: InReg(b2), right: InReg(b3) }),
            35u8 => Some(Opcode::CompNeq { register_out: OutReg(b1), left: InReg(b2), right: InReg(b3) }),
            36u8 => Some(Opcode::Jump),
            37u8 => Some(Opcode::JumpIfZero { register_in: InReg(b1), stack_slot: u16_from(b2, b3) }),
            38u8 => Some(Opcode::JumpIfNotZero { register_in: InReg(b1), stack_slot: u16_from(b2, b3) }),
            39u8 => Some(Opcode::Ret),
            40u8 => Some(Opcode::Call { register_out: Out64Reg(b1), arg_count: b2 }),
            41u8 => match b1 {
                0u8 => Some(Opcode::Ecall { kind: EcallKind::Print, input_1: In64Reg(b2), input_2: In64Reg(b3) }),
                1u8 => Some(Opcode::Ecall { kind: EcallKind::PrintNewline, input_1: In64Reg(b2), input_2: In64Reg(b3) }),
                2u8 => Some(Opcode::Ecall { kind: EcallKind::ExitSuccess, input_1: In64Reg(b2), input_2: In64Reg(b3) }),
                _ => None,
            },
            42u8 => Some(Opcode::Throw { skip_frames: b1, message_ptr: In64Reg(b2), message_len: In64Reg(b3) }),
            _ => None,
        }
    }
    /// Encodes the opcode into its instruction word.
    pub fn encode(self) -> (r: u32)
        ensures
            r == self.spec_encode(),
    {
        let (b0, b1, b2, b3): (u8, u8, u8, u8) = match self {
            Opcode::Func => (0, 0, 0, 0),
            Opcode::StackAlloc { len, save_address } => (1, len.power, len.len, save_address.0),
            Opcode::StackDealloc { count } => (2, 0, exec_lo16(count), exec_hi16(count)),
            Opcode::HeapAlloc { register_out, register_64_in } => (3, register_out.0, register_64_in.0, 0),
            Opcode::HeapDealloc { register_64_in } => (4, register_64_in.0, 0, 0),
            Opcode::Make16 { register_out, value } => (5, register_out.0, exec_lo16(value), exec_hi16(value)),
            Opcode::Make32 { register_out, stack_slot } => (6, register_out.0, exec_lo16(stack_slot), exec_hi16(stack_slot)),
            Opcode::Make64 { register_out, stack_slot } => (7, register_out.0, stack_slot.id, stack_slot.offset),
            Opcode::MakeFp { register_out, stack_id } => (8, register_out.0, exec_lo16(stack_id), exec_hi16(stack_id)),
            Opcode::Truncate { register_out, stack_slot } => (9, register_out.0, exec_lo16(stack_slot), exec_hi16(stack_slot)),
            Opcode::BoolNorm { register_out, stack_slot } => (10, register_out.0, exec_lo16(stack_slot), exec_hi16(stack_slot)),
            Opcode::BoolNot { register_out, stack_slot } => (11, register_out.0, exec_lo16(stack_slot), exec_hi16(stack_slot)),
            Opcode::Add16 { register_out, value } => (12, register_out.0, exec_lo16(value), exec_hi16(value)),
            Opcode::Get { register_out, pointer } => (13, register_out.0, pointer.0, 0),
            Opcode::SetMem { pointer, value } => (14, pointer.0, value.0, 0),
            Opcode::MemCopy { source, dest, byte_count } => (15, source.0, dest.0, byte_count.0),
            Opcode::Add { register_out, left, right } => (16, register_out.0, left.0, right.0),
            Opcode::Sub { register_out, left, right } => (17, register_out.0, left.0, right.0),
            Opcode::Mul { register_out, left, right } => (18, register_out.0, left.0, right.0),
            Opcode::Div { register_out, left, right } => (19, register_out.0, left.0, right.0),
            Opcode::Mod { register_out, left, right } => (20, register_out.0, left.0, right.0),
            Opcode::RShift { register_out, left, right } => (21, register_out.0, left.0, right.0),
            Opcode::LShift { register_out, left, right } => (22, register_out.0, left.0, right.0),
            Opcode::BitAnd { register_out, left, right } => (23, register_out.0, left.0, right.0),
            Opcode::BitOr { register_out, left, right } => (24, register_out.0, left.0, right.0),
            Opcode::BitXor { register_out, left, right } => (25, register_out.0, left.0, right.0),
            Opcode::BitNot { register_out, left, right } => (26, register_out.0, left.0, right.0),
            Opcode::FAdd { register_out, left, right } => (27, register_out, left.0, right.0),
            Opcode::FSub { register_out, left, right } => (28, register_out, left.0, right.0),
            Opcode::FMul { register_out, left, right } => (29, register_out, left.0, right.0),
            Opcode::FDiv { register_out, left, right } => (30, register_out, left.0, right.0),
            Opcode::FMod { register_out, left, right } => (31, register_out, left.0, right.0),
            Opcode::CompLt { register_out, left, right } => (32, register_out.0, left.0, right.0),
            Opcode::CompLeq { register_out, left, right } => (33, register_out.0, left.0, right.0),
            Opcode::CompEq { register_out, left, right } => (34, register_out.0, left.0, right.0),
            Opcode::CompNeq { register_out, left, right } => (35, register_out.0, left.0, right.0),
            Opcode::Jump => (36, 0, 0, 0),
            Opcode::JumpIfZero { register_in, stack_slot } => (37, register_in.0, exec_lo16(stack_slot), exec_hi16(stack_slot)),
            Opcode::JumpIfNotZero { register_in, stack_slot } => (38, register_in.0, exec_lo16(stack_slot), exec_hi16(stack_slot)),
            Opcode::Ret => (39, 0, 0, 0),
            Opcode::Call { register_out, arg_count } => (40, register_out.0, arg_count, 0),
            Opcode::Ecall { kind, input_1, input_2 } => (41, kind.byte(), input_1.0, input_2.0),
            Opcode::Throw { skip_frames, message_ptr, message_len } => (42, skip_frames, message_ptr.0, message_len.0),
        };
        (b0 as u32) | ((b1 as u32) << 8) | ((b2 as u32) << 16) | ((b3 as u32) << 24)
    }
    /// Decodes an instruction word; unknown tags decode to `None` and the
    /// interpreter treats them as `Unimplemented`.
    pub fn decode(w: u32) -> (r: Option<Opcode>)
        ensures
            r == Opcode::spec_decode(w),
    {
        let b0 = (w & 0xFF) as u8;
        let b1 = ((w >> 8) & 0xFF) as u8;
        let b2 = ((w >> 16) & 0xFF) as u8;
        let b3 = ((w >> 24) & 0xFF) as u8;
        match b0 {
            0u8 => Some(Opcode::Func),
            1u8 => Some(Opcode::StackAlloc { len: AllocLen { len: b2, power: b1 }, save_address: Out64Reg(b3) }),
            2u8 => Some(Opcode::StackDealloc { count: exec_u16_from(b2, b3) }),
            3u8 => Some(Opcode::HeapAlloc { register_out: Out64Reg(b1), register_64_in: In64Reg(b2) }),
            4u8 => Some(Opcode::HeapDealloc { register_64_in: In64Reg(b1) }),
            5u8 => Some(Opcode::Make16 { register_out: OutReg(b1), value: exec_u16_from(b2, b3) }),
            6u8 => Some(Opcode::Make32 { register_out: OutReg(b1), stack_slot: exec_u16_from(b2, b3) }),
            7u8 => Some(Opcode::Make64 { register_out: Out64Reg(b1), stack_slot: StackSlot { id: b2, offset: b3 } }),
            8u8 => Some(Opcode::MakeFp { register_out: Out64Reg(b1), stack_id: exec_u16_from(b2, b3) }),
            9u8 => Some(Opcode::Truncate { register_out: OutReg(b1), stack_slot: exec_u16_from(b2, b3) }),
            10u8 => Some(Opcode::BoolNorm { register_out: OutReg(b1), stack_slot: exec_u16_from(b2, b3) }),
            11u8 => Some(Opcode::BoolNot { register_out: OutReg(b1), stack_slot: exec_u16_from(b2, b3) }),
            12u8 => Some(Opcode::Add16 { register_out: Out64Reg(b1), value: exec_u16_from(b2, b3) }),
            13u8 => Some(Opcode::Get { register_out: OutReg(b1), pointer: In64Reg(b2) }),
            14u8 => Some(Opcode::SetMem { pointer: In64Reg(b1), value: InReg(b2) }),
            15u8 => Some(Opcode::MemCopy { source: In64Reg(b1), dest: In64Reg(b2), byte_count: In64Reg(b3) }),
            16u8 => Some(Opcode::Add { register_out: OutReg(b1), left: InReg(b2), right: InReg(b3) }),
            17u8 => Some(Opcode::Sub { register_out: OutReg(b1), left: InReg(b2), right: InReg(b3) }),
            18u8 => Some(Opcode::Mul { register_out: OutReg(b1), left: InReg(b2), right: InReg(b3) }),
            19u8 => Some(Opcode::Div { register_out: OutReg(b1), left: InReg(b2), right: InReg(b3) }),
            20u8 => Some(Opcode::Mod { register_out: OutReg(b1), left: InReg(b2), right: InReg(b3) }),
            21u8 => Some(Opcode::RShift { register_out: OutReg(b1), left: InReg(b2), right: InReg(b3) }),
            22u8 => Some(Opcode::LShift { register_out: OutReg(b1), left: InReg(b2), right: InReg(b3) }),
            23u8 => Some(Opcode::BitAnd { register_out: OutReg(b1), left: InReg(b2), right: InReg(b3) }),
            24u8 => Some(Opcode::BitOr { register_out: OutReg(b1), left: InReg(b2), right: InReg(b3) }),
            25u8 => Some(Opcode::BitXor { register_out: OutReg(b1), left: InReg(b2), right: InReg(b3) }),
            26u8 => Some(Opcode::BitNot { register_out: OutReg(b1), left: InReg(b2), right: InReg(b3) }),
            27u8 => Some(Opcode::FAdd { register_out: b1, left: InReg(b2), right: InReg(b3) }),
            28u8 => Some(Opcode::FSub { register_out: b1, left: InReg(b2), right: InReg(b3) }),
            29u8 => Some(Opcode::FMul { register_out: b1, left: InReg(b2), right: InReg(b3) }),
            30u8 => Some(Opcode::FDiv { register_out: b1, left: InReg(b2), right: InReg(b3) }),
            31u8 => Some(Opcode::FMod { register_out: b1, left: InReg(b2), right: InReg(b3) }),
            32u8 => Some(Opcode::CompLt { register_out: OutReg(b1), left: InReg(b2), right: InReg(b3) }),
            33u8 => Some(Opcode::CompLeq { register_out: OutReg(b1), left: InReg(b2), right: InReg(b3) }),
            34u8 => Some(Opcode::CompEq { register_out: OutReg(b1), left: InReg(b2), right: InReg(b3) }),
            35u8 => Some(Opcode::CompNeq { register_out: OutReg(b1), left: InReg(b2), right: InReg(b3) }),
            36u8 => Some(Opcode::Jump),
            37u8 => Some(Opcode::JumpIfZero { register_in: InReg(b1), stack_slot: exec_u16_from(b2, b3) }),
            38u8 => Some(Opcode::JumpIfNotZero { register_in: InReg(b1), stack_slot: exec_u16_from(b2, b3) }),
            39u8 => Some(Opcode::Ret),
            40u8 => Some(Opcode::Call { register_out: Out64Reg(b1), arg_count: b2 }),
            41u8 => match b1 {
                0u8 => Some(Opcode::Ecall { kind: EcallKind::Print, input_1: In64Reg(b2), input_2: In64Reg(b3) }),
                1u8 => Some(Opcode::Ecall { kind: EcallKind::PrintNewline, input_1: In64Reg(b2), input_2: In64Reg(b3) }),
                2u8 => Some(Opcode::Ecall { kind: EcallKind::ExitSuccess, input_1: In64Reg(b2), input_2: In64Reg(b3) }),
                _ => None,
            },
            42u8 => Some(Opcode::Throw { skip_frames: b1, message_ptr: In64Reg(b2), message_len: In64Reg(b3) }),
            _ => None,
        }
    }
}

fn exec_lo16(v: u16) -> (r: u8)
    ensures
        r == lo16(v),
{
    (v & 0xFF) as u8
}

fn exec_hi16(v: u16) -> (r: u8)
    ensures
        r == hi16(v),
{
    (v >> 8) as u8
}

fn exec_u16_from(lo: u8, hi: u8) -> (r: u16)
    ensures
        r == u16_from(lo, hi),
{
    (lo as u16) | ((hi as u16) << 8)
}

/// Every opcode survives the trip through its instruction word: decoding
/// what `encode` produced gives the opcode back, field for field.
pub proof fn lemma_opcode_roundtrip(op: Opcode)
    ensures
        Opcode::spec_decode(op.spec_encode()) == Some(op),
{
    match op {
        Opcode::Func => {
            lemma_pack_unpack(0, 0, 0, 0);
        },
        Opcode::StackAlloc { len, save_address } => {
            lemma_pack_unpack(1, len.power, len.len, save_address.0);
        },
        Opcode::StackDealloc { count } => {
            lemma_pack_unpack(2, 0, lo16(count), hi16(count));
            lemma_u16_split(count);
        },
        Opcode::HeapAlloc { register_out, register_64_in } => {
            lemma_pack_unpack(3, register_out.0, register_64_in.0, 0);
        },
        Opcode::HeapDealloc { register_64_in } => {
            lemma_pack_unpack(4, register_64_in.0, 0, 0);
        },
        Opcode::Make16 { register_out, value } => {
            lemma_pack_unpack(5, register_out.0, lo16(value), hi16(value));
            lemma_u16_split(value);
        },
        Opcode::Make32 { register_out, stack_slot } => {
            lemma_pack_unpack(6, register_out.0, lo16(stack_slot), hi16(stack_slot));
            lemma_u16_split(stack_slot);
        },
        Opcode::Make64 { register_out, stack_slot } => {
            lemma_pack_unpack(7, register_out.0, stack_slot.id, stack_slot.offset);
        },
        Opcode::MakeFp { register_out, stack_id } => {
            lemma_pack_unpack(8, register_out.0, lo16(stack_id), hi16(stack_id));
            lemma_u16_split(stack_id);
        },
        Opcode::Truncate { register_out, stack_slot } => {
            lemma_pack_unpack(9, register_out.0, lo16(stack_slot), hi16(stack_slot));
            lemma_u16_split(stack_slot);
        },
        Opcode::BoolNorm { register_out, stack_slot } => {
            lemma_pack_unpack(10, register_out.0, lo16(stack_slot), hi16(stack_slot));
            lemma_u16_split(stack_slot);
        },
        Opcode::BoolNot { register_out, stack_slot } => {
            lemma_pack_unpack(11, register_out.0, lo16(stack_slot), hi16(stack_slot));
            lemma_u16_split(stack_slot);
        },
        Opcode::Add16 { register_out, value } => {
            lemma_pack_unpack(12, register_out.0, lo16(value), hi16(value));
            lemma_u16_split(value);
        },
        Opcode::Get { register_out, pointer } => {
            lemma_pack_unpack(13, register_out.0, pointer.0, 0);
        },
        Opcode::SetMem { pointer, value } => {
            lemma_pack_unpack(14, pointer.0, value.0, 0);
        },
        Opcode::MemCopy { source, dest, byte_count } => {
            lemma_pack_unpack(15, source.0, dest.0, byte_count.0);
        },
        Opcode::Add { register_out, left, right } => {
            lemma_pack_unpack(16, register_out.0, left.0, right.0);
        },
        Opcode::Sub { register_out, left, right } => {
            lemma_pack_unpack(17, register_out.0, left.0, right.0);
        },
        Opcode::Mul { register_out, left, right } => {
            lemma_pack_unpack(18, register_out.0, left.0, right.0);
        },
        Opcode::Div { register_out, left, right } => {
            lemma_pack_unpack(19, register_out.0, left.0, right.0);
        },
        Opcode::Mod { register_out, left, right } => {
            lemma_pack_unpack(20, register_out.0, left.0, right.0);
        },
        Opcode::RShift { register_out, left, right } => {
            lemma_pack_unpack(21, register_out.0, left.0, right.0);
        },
        Opcode::LShift { register_out, left, right } => {
            lemma_pack_unpack(22, register_out.0, left.0, right.0);
        },
        Opcode::BitAnd { register_out, left, right } => {
            lemma_pack_unpack(23, register_out.0, left.0, right.0);
        },
        Opcode::BitOr { register_out, left, right } => {
            lemma_pack_unpack(24, register_out.0, left.0, right.0);
        },
        Opcode::BitXor { register_out, left, right } => {
            lemma_pack_unpack(25, register_out.0, left.0, right.0);
        },
        Opcode::BitNot { register_out, left, right } => {
            lemma_pack_unpack(26, register_out.0, left.0, right.0);
        },
        Opcode::FAdd { register_out, left, right } => {
            lemma_pack_unpack(27, register_out, left.0, right.0);
        },
        Opcode::FSub { register_out, left, right } => {
            lemma_pack_unpack(28, register_out, left.0, right.0);
        },
        Opcode::FMul { register_out, left, right } => {
            lemma_pack_unpack(29, register_out, left.0, right.0);
        },
        Opcode::FDiv { register_out, left, right } => {
            lemma_pack_unpack(30, register_out, left.0, right.0);
        },
        Opcode::FMod { register_out, left, right } => {
            lemma_pack_unpack(31, register_out, left.0, right.0);
        },
        Opcode::CompLt { register_out, left, right } => {
            lemma_pack_unpack(32, register_out.0, left.0, right.0);
        },
        Opcode::CompLeq { register_out, left, right } => {
            lemma_pack_unpack(33, register_out.0, left.0, right.0);
        },
        Opcode::CompEq { register_out, left, right } => {
            lemma_pack_unpack(34, register_out.0, left.0, right.0);
        },
        Opcode::CompNeq { register_out, left, right } => {
            lemma_pack_unpack(35, register_out.0, left.0, right.0);
        },
        Opcode::Jump => {
            lemma_pack_unpack(36, 0, 0, 0);
        },
        Opcode::JumpIfZero { register_in, stack_slot } => {
            lemma_pack_unpack(37, register_in.0, lo16(stack_slot), hi16(stack_slot));
            lemma_u16_split(stack_slot);
        },
        Opcode::JumpIfNotZero { register_in, stack_slot } => {
            lemma_pack_unpack(38, register_in.0, lo16(stack_slot), hi16(stack_slot));
            lemma_u16_split(stack_slot);
        },
        Opcode::Ret => {
            lemma_pack_unpack(39, 0, 0, 0);
        },
        Opcode::Call { register_out, arg_count } => {
            lemma_pack_unpack(40, register_out.0, arg_count, 0);
        },
        Opcode::Ecall { kind, input_1, input_2 } => {
            lemma_pack_unpack(41, kind.spec_byte(), input_1.0, input_2.0);
        },
        Opcode::Throw { skip_frames, message_ptr, message_len } => {
            lemma_pack_unpack(42, skip_frames, message_ptr.0, message_len.0);
        },
    }
}

} // verus!
