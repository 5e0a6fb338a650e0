use bytevm::errors::IErrorKind;
use bytevm::interp::Interpreter;
use bytevm::lens::AllocLen;
use bytevm::opcode::{EcallKind, Opcode};
use bytevm::regs::{In64Reg, InReg, Out64Reg, OutReg, RegSignedness, RegSize, StackSlot};
use bytevm::tracker::AllocTracker;

use RegSignedness::{RegSigned, RegUnsigned};
use RegSize::{RegSize16, RegSize64};

#[test]
fn simple() {
    let mut data = AllocTracker::new();

    let mut ops: Vec<u32> = Vec::new();

    let value_2_16: u64 = 65536;
    let value_2_15: u64 = 32768;

    ops.push(
        Opcode::StackAlloc {
            len: AllocLen::new(8),
            save_address: Out64Reg::new(1),
        }
        .encode(),
    );

    ops.push(
        Opcode::Make64 {
            register_out: Out64Reg::new(2),
            stack_slot: StackSlot { id: 0, offset: 0 },
        }
        .encode(),
    );

    ops.push(value_2_16 as u32);
    ops.push(0);

    ops.push(
        Opcode::Make64 {
            register_out: Out64Reg::new(3),
            stack_slot: StackSlot { id: 0, offset: 0 },
        }
        .encode(),
    );

    ops.push(value_2_15 as u32);
    ops.push(0);

    ops.push(
        Opcode::Add {
            register_out: OutReg::new(RegUnsigned, RegSize64, 4),
            left: InReg::new(RegSize16, 2),
            right: InReg::new(RegSize16, 3),
        }
        .encode(),
    );

    ops.push(
        Opcode::Add {
            register_out: OutReg::new(RegUnsigned, RegSize16, 5),
            left: InReg::new(RegSize16, 2),
            right: InReg::new(RegSize16, 3),
        }
        .encode(),
    );

    ops.push(
        Opcode::Add {
            register_out: OutReg::new(RegUnsigned, RegSize64, 6),
            left: InReg::new(RegSize16, 2),
            right: InReg::new(RegSize16, 3),
        }
        .encode(),
    );

    ops.push(
        Opcode::Add {
            register_out: OutReg::new(RegUnsigned, RegSize64, 7),
            left: InReg::new(RegSize64, 2),
            right: InReg::new(RegSize64, 3),
        }
        .encode(),
    );

    ops.push(
        Opcode::Add {
            register_out: OutReg::new(RegSigned, RegSize16, 8),
            left: InReg::new(RegSize64, 2),
            right: InReg::new(RegSize64, 3),
        }
        .encode(),
    );

    ops.push(Opcode::StackDealloc { count: 1 }.encode());

    ops.push(
        Opcode::Ecall {
            kind: EcallKind::ExitSuccess,
            input_1: In64Reg::null(),
            input_2: In64Reg::null(),
        }
        .encode(),
    );

    data.alloc_exe(&ops);

    let mut interp = Interpreter::new(data);

    let result = interp.run();

    let sum = value_2_16 + value_2_15;
    let sign_extended = value_2_15 as i16 as i64 as u64;
    assert_eq!(interp.memory.read_register(2).unwrap(), value_2_16);
    assert_eq!(interp.memory.read_register(3).unwrap(), value_2_15);
    assert_eq!(interp.memory.read_register(4).unwrap(), value_2_15);
    assert_eq!(interp.memory.read_register(5).unwrap(), value_2_15);
    assert_eq!(interp.memory.read_register(6).unwrap(), value_2_15);
    assert_eq!(interp.memory.read_register(7).unwrap(), sum);
    assert_eq!(interp.memory.read_register(8).unwrap(), sign_extended);

    match result {
        Ok(_) => {}
        Err(e) => {
            println!("{:?}", e);

            println!(
                "pc after error: {}",
                interp.memory.current_frame.program_counter
            );

            let manifest = interp.memory.data.manifest;
            println!(
                "static_exe: {}..{}",
                manifest.static_exe_start, manifest.static_exe_end
            );

            panic!("Failed");
        }
    }
}

#[test]
fn scenario_get_after_stack_dealloc() {
    let mut data = AllocTracker::new();
    let mut ops: Vec<u32> = Vec::new();

    ops.push(
        Opcode::StackAlloc {
            len: AllocLen::new(8),
            save_address: Out64Reg::new(1),
        }
        .encode(),
    );
    ops.push(Opcode::StackDealloc { count: 1 }.encode());
    ops.push(
        Opcode::Get {
            register_out: OutReg::new(RegUnsigned, RegSize64, 2),
            pointer: In64Reg::new(1),
        }
        .encode(),
    );
    ops.push(
        Opcode::Ecall {
            kind: EcallKind::ExitSuccess,
            input_1: In64Reg::null(),
            input_2: In64Reg::null(),
        }
        .encode(),
    );

    data.alloc_exe(&ops);
    let mut interp = Interpreter::new(data);
    let result = interp.run();

    assert_eq!(result.unwrap_err().kind, IErrorKind::InvalidPointer);
}

#[test]
fn scenario_recursion_limit() {
    let mut data = AllocTracker::new();
    let mut ops: Vec<u32> = Vec::new();

    // A single `Call` that targets itself: nested calls with no `Ret`.
    ops.push(
        Opcode::Call {
            register_out: Out64Reg::null(),
            arg_count: 0,
        }
        .encode(),
    );
    ops.push(0);

    data.alloc_exe(&ops);
    let mut interp = Interpreter::new(data);
    let result = interp.run();

    assert_eq!(result.unwrap_err().kind, IErrorKind::RecursionLimit);
    assert_eq!(interp.memory.stack_frames.len(), 4000);
}

#[test]
fn over_pop_is_internal_error() {
    let mut data = AllocTracker::new();
    let mut ops: Vec<u32> = Vec::new();

    ops.push(
        Opcode::StackAlloc {
            len: AllocLen::new(8),
            save_address: Out64Reg::null(),
        }
        .encode(),
    );
    ops.push(Opcode::StackDealloc { count: 2 }.encode());
    ops.push(
        Opcode::Ecall {
            kind: EcallKind::ExitSuccess,
            input_1: In64Reg::null(),
            input_2: In64Reg::null(),
        }
        .encode(),
    );

    data.alloc_exe(&ops);
    let mut interp = Interpreter::new(data);
    let result = interp.run();

    assert_eq!(result.unwrap_err().kind, IErrorKind::Internal);
}

#[test]
fn print_writes_unsigned_decimal() {
    let mut data = AllocTracker::new();
    let mut ops: Vec<u32> = Vec::new();

    ops.push(
        Opcode::Make64 {
            register_out: Out64Reg::new(2),
            stack_slot: StackSlot { id: 0, offset: 0 },
        }
        .encode(),
    );
    ops.push(10250);
    ops.push(0);
    ops.push(
        Opcode::Ecall {
            kind: EcallKind::Print,
            input_1: In64Reg::new(2),
            input_2: In64Reg::null(),
        }
        .encode(),
    );
    ops.push(
        Opcode::Ecall {
            kind: EcallKind::PrintNewline,
            input_1: In64Reg::null(),
            input_2: In64Reg::null(),
        }
        .encode(),
    );
    ops.push(
        Opcode::Ecall {
            kind: EcallKind::ExitSuccess,
            input_1: In64Reg::null(),
            input_2: In64Reg::null(),
        }
        .encode(),
    );

    data.alloc_exe(&ops);
    let mut interp = Interpreter::new(data);
    let result = interp.run();

    assert!(result.is_ok());
    assert_eq!(interp.output, b"10250 \n".to_vec());
}

#[test]
fn ret_without_caller_reported() {
    let mut data = AllocTracker::new();
    let mut ops: Vec<u32> = Vec::new();
    ops.push(Opcode::Ret.encode());

    data.alloc_exe(&ops);
    let mut interp = Interpreter::new(data);
    let result = interp.run();

    assert_eq!(result.unwrap_err().kind, IErrorKind::NoFramesLeft);
}

#[test]
fn stack_overflow_reported() {
    let mut data = AllocTracker::new();
    let mut ops: Vec<u32> = Vec::new();

    // One allocation far beyond the 4 MiB stack budget.
    ops.push(
        Opcode::StackAlloc {
            len: AllocLen { len: 255, power: 24 },
            save_address: Out64Reg::null(),
        }
        .encode(),
    );
    ops.push(
        Opcode::Ecall {
            kind: EcallKind::ExitSuccess,
            input_1: In64Reg::null(),
            input_2: In64Reg::null(),
        }
        .encode(),
    );

    data.alloc_exe(&ops);
    let mut interp = Interpreter::new(data);
    let result = interp.run();

    assert_eq!(result.unwrap_err().kind, IErrorKind::StackOverflow);
}

#[test]
fn unknown_opcode_unimplemented() {
    let mut data = AllocTracker::new();
    let mut ops: Vec<u32> = Vec::new();
    ops.push(200);

    data.alloc_exe(&ops);
    let mut interp = Interpreter::new(data);
    let result = interp.run();

    assert_eq!(result.unwrap_err().kind, IErrorKind::Unimplemented);
}

#[test]
fn reserved_opcode_unimplemented() {
    let mut data = AllocTracker::new();
    let mut ops: Vec<u32> = Vec::new();
    ops.push(
        Opcode::Sub {
            register_out: OutReg::new(RegUnsigned, RegSize64, 4),
            left: InReg::new(RegSize64, 2),
            right: InReg::new(RegSize64, 3),
        }
        .encode(),
    );

    data.alloc_exe(&ops);
    let mut interp = Interpreter::new(data);
    let result = interp.run();

    assert_eq!(result.unwrap_err().kind, IErrorKind::Unimplemented);
}

#[test]
fn jump_skips_over_instructions() {
    let mut data = AllocTracker::new();
    let mut ops: Vec<u32> = Vec::new();

    // Jump over a Make64 that would set register 2, then exit; register 2
    // keeps its initial zero.
    ops.push(Opcode::Jump.encode());
    ops.push(5 * 4);
    ops.push(
        Opcode::Make64 {
            register_out: Out64Reg::new(2),
            stack_slot: StackSlot { id: 0, offset: 0 },
        }
        .encode(),
    );
    ops.push(77);
    ops.push(0);
    ops.push(
        Opcode::Ecall {
            kind: EcallKind::ExitSuccess,
            input_1: In64Reg::null(),
            input_2: In64Reg::null(),
        }
        .encode(),
    );

    data.alloc_exe(&ops);
    let mut interp = Interpreter::new(data);
    let result = interp.run();

    assert!(result.is_ok());
    assert_eq!(interp.memory.read_register(2).unwrap(), 0);
}

#[test]
fn unaligned_jump_rejected() {
    let mut data = AllocTracker::new();
    let mut ops: Vec<u32> = Vec::new();

    ops.push(Opcode::Jump.encode());
    ops.push(2);
    ops.push(
        Opcode::Ecall {
            kind: EcallKind::ExitSuccess,
            input_1: In64Reg::null(),
            input_2: In64Reg::null(),
        }
        .encode(),
    );

    data.alloc_exe(&ops);
    let mut interp = Interpreter::new(data);
    let result = interp.run();

    assert_eq!(result.unwrap_err().kind, IErrorKind::InvalidJump);
}

#[test]
fn conditional_jumps_follow_register() {
    let mut data = AllocTracker::new();
    let mut ops: Vec<u32> = Vec::new();

    // Register 2 stays zero, so JumpIfZero takes the branch over an
    // instruction that would load 55 into register 3.
    ops.push(
        Opcode::JumpIfZero {
            register_in: InReg::new(RegSize64, 2),
            stack_slot: 0,
        }
        .encode(),
    );
    ops.push(5 * 4);
    ops.push(
        Opcode::Make64 {
            register_out: Out64Reg::new(3),
            stack_slot: StackSlot { id: 0, offset: 0 },
        }
        .encode(),
    );
    ops.push(55);
    ops.push(0);
    // JumpIfNotZero on the still-zero register falls through to the load
    // of register 4.
    ops.push(
        Opcode::JumpIfNotZero {
            register_in: InReg::new(RegSize64, 2),
            stack_slot: 0,
        }
        .encode(),
    );
    ops.push(0);
    ops.push(
        Opcode::Make64 {
            register_out: Out64Reg::new(4),
            stack_slot: StackSlot { id: 0, offset: 0 },
        }
        .encode(),
    );
    ops.push(66);
    ops.push(0);
    ops.push(
        Opcode::Ecall {
            kind: EcallKind::ExitSuccess,
            input_1: In64Reg::null(),
            input_2: In64Reg::null(),
        }
        .encode(),
    );

    data.alloc_exe(&ops);
    let mut interp = Interpreter::new(data);
    let result = interp.run();

    assert!(result.is_ok());
    assert_eq!(interp.memory.read_register(3).unwrap(), 0);
    assert_eq!(interp.memory.read_register(4).unwrap(), 66);
}

#[test]
fn call_and_ret_resume_after_call() {
    let mut data = AllocTracker::new();
    let mut ops: Vec<u32> = Vec::new();

    // Call a routine that just returns, then load register 2 and exit.
    ops.push(
        Opcode::Call {
            register_out: Out64Reg::null(),
            arg_count: 0,
        }
        .encode(),
    );
    ops.push(6 * 4);
    ops.push(
        Opcode::Make64 {
            register_out: Out64Reg::new(2),
            stack_slot: StackSlot { id: 0, offset: 0 },
        }
        .encode(),
    );
    ops.push(42);
    ops.push(0);
    ops.push(
        Opcode::Ecall {
            kind: EcallKind::ExitSuccess,
            input_1: In64Reg::null(),
            input_2: In64Reg::null(),
        }
        .encode(),
    );
    ops.push(Opcode::Ret.encode());

    data.alloc_exe(&ops);
    let mut interp = Interpreter::new(data);
    let result = interp.run();

    assert!(result.is_ok());
    assert_eq!(interp.memory.read_register(2).unwrap(), 42);
}

#[test]
fn set_and_get_through_pointer() {
    let mut data = AllocTracker::new();
    let mut ops: Vec<u32> = Vec::new();

    // Allocate a slot, keep its pointer in register 1, store a 64-bit
    // value through it, and load it back into register 3 ("memory round
    // trip" through SetMem/Get).
    ops.push(
        Opcode::StackAlloc {
            len: AllocLen::new(8),
            save_address: Out64Reg::new(1),
        }
        .encode(),
    );
    ops.push(
        Opcode::Make64 {
            register_out: Out64Reg::new(2),
            stack_slot: StackSlot { id: 0, offset: 0 },
        }
        .encode(),
    );
    ops.push(0x89ABCDEF);
    ops.push(0x01234567);
    ops.push(
        Opcode::SetMem {
            pointer: In64Reg::new(1),
            value: InReg::new(RegSize64, 2),
        }
        .encode(),
    );
    ops.push(
        Opcode::Get {
            register_out: OutReg::new(RegUnsigned, RegSize64, 3),
            pointer: In64Reg::new(1),
        }
        .encode(),
    );
    ops.push(
        Opcode::Ecall {
            kind: EcallKind::ExitSuccess,
            input_1: In64Reg::null(),
            input_2: In64Reg::null(),
        }
        .encode(),
    );

    data.alloc_exe(&ops);
    let mut interp = Interpreter::new(data);
    let result = interp.run();

    assert!(result.is_ok());
    assert_eq!(
        interp.memory.read_register(3).unwrap(),
        0x01234567_89ABCDEF
    );
}

#[test]
fn unaligned_program_counter_reported() {
    let mut data = AllocTracker::new();
    let mut ops: Vec<u32> = Vec::new();
    ops.push(
        Opcode::Ecall {
            kind: EcallKind::ExitSuccess,
            input_1: In64Reg::null(),
            input_2: In64Reg::null(),
        }
        .encode(),
    );
    data.alloc_exe(&ops);
    let mut interp = Interpreter::new(data);
    interp.memory.current_frame.program_counter += 2;
    let result = interp.run();
    assert_eq!(
        result.unwrap_err().kind,
        IErrorKind::UnalignedProgramCounter
    );
}

#[test]
fn running_off_the_end_reported() {
    let mut data = AllocTracker::new();
    let mut ops: Vec<u32> = Vec::new();
    // One instruction that neither jumps nor exits: the next fetch leaves
    // the executable region.
    ops.push(Opcode::StackDealloc { count: 0 }.encode());
    data.alloc_exe(&ops);
    let mut interp = Interpreter::new(data);
    let result = interp.run();
    assert_eq!(
        result.unwrap_err().kind,
        IErrorKind::OutOfBoundsExecutable
    );
}

#[test]
fn memory_byte_access_roundtrip() {
    let mut data = AllocTracker::new();
    let mut ops: Vec<u32> = Vec::new();
    ops.push(Opcode::Ret.encode());
    data.alloc_exe(&ops);
    let mut memory = bytevm::memory::Memory::new(data);

    let ptr = memory.alloc_stack_var(AllocLen::new(16)).unwrap();
    memory.write_bytes(ptr, &[4, 5, 6]).unwrap();
    assert_eq!(memory.read_bytes(ptr, 3).unwrap(), &[4, 5, 6]);

    let range = memory.get_range(ptr, 3).unwrap();
    assert_eq!(range.end - range.start, 3);
    assert_eq!(
        memory.read_bytes(ptr, 17).unwrap_err().kind,
        IErrorKind::InvalidPointer
    );

    // next_op walks the program counter like a jump, so it refuses to
    // step past the executable region.
    assert_eq!(
        memory.next_op().unwrap_err().kind,
        IErrorKind::InvalidJump
    );
}
