use bytevm::lens::AllocLen;
use bytevm::opcode::{EcallKind, Opcode};
use bytevm::regs::{
    sign_extend_and_truncate, truncate, In64Reg, InReg, Out64Reg, OutReg, RegSignedness, RegSize,
    StackSlot,
};
use bytevm::tracker::Ptr;

#[test]
fn opcode_words_decode_back() {
    let samples = vec![
        Opcode::Func,
        Opcode::StackAlloc {
            len: AllocLen::new(24),
            save_address: Out64Reg::new(5),
        },
        Opcode::StackDealloc { count: 513 },
        Opcode::Make64 {
            register_out: Out64Reg::new(2),
            stack_slot: StackSlot { id: 3, offset: 9 },
        },
        Opcode::MakeFp {
            register_out: Out64Reg::new(31),
            stack_id: 0xBEEF,
        },
        Opcode::SetMem {
            pointer: In64Reg::new(1),
            value: InReg::new(RegSize::RegSize32, 2),
        },
        Opcode::Get {
            register_out: OutReg::new(RegSignedness::RegSigned, RegSize::RegSize8, 7),
            pointer: In64Reg::new(1),
        },
        Opcode::Add {
            register_out: OutReg::new(RegSignedness::RegUnsigned, RegSize::RegSize64, 30),
            left: InReg::new(RegSize::RegSize16, 2),
            right: InReg::new(RegSize::RegSize16, 3),
        },
        Opcode::Jump,
        Opcode::Ret,
        Opcode::Call {
            register_out: Out64Reg::null(),
            arg_count: 4,
        },
        Opcode::Ecall {
            kind: EcallKind::PrintNewline,
            input_1: In64Reg::null(),
            input_2: In64Reg::null(),
        },
    ];
    for op in samples {
        assert_eq!(Opcode::decode(op.encode()), Some(op));
    }
}

#[test]
fn unknown_words_decode_to_none() {
    assert_eq!(Opcode::decode(200), None);
    assert_eq!(Opcode::decode(0xFFFF_FFFF), None);
    // An ecall word with an unknown ecall type byte decodes to nothing.
    assert_eq!(Opcode::decode(41 | (9 << 8)), None);
}

#[test]
fn truncate_keeps_low_bytes() {
    assert_eq!(truncate(0, 0x1234), 0x34);
    assert_eq!(truncate(1, 0x123456), 0x3456);
    assert_eq!(truncate(2, 0x123456789A), 0x3456789A);
    assert_eq!(truncate(3, 0x123456789A), 0x123456789A);
}

#[test]
fn truncate_is_idempotent_at_each_width() {
    for class in 0u8..4 {
        for &v in &[0u64, 1, 0x80, 0x8000, 0xFFFF_FFFF, u64::MAX] {
            let once = truncate(class, v);
            assert_eq!(truncate(class, once), once);
        }
    }
}

#[test]
fn sign_extension_of_high_bit_is_negative() {
    assert_eq!(sign_extend_and_truncate(0, 0x80), -128);
    assert_eq!(sign_extend_and_truncate(1, 0x8000), -32768);
    assert_eq!(sign_extend_and_truncate(2, 0x8000_0000), -(1i64 << 31));
    assert!(sign_extend_and_truncate(3, 0x8000_0000_0000_0000) < 0);
    // low bits survive the extension
    assert_eq!(sign_extend_and_truncate(1, 0xFF01), -255);
    assert_eq!(sign_extend_and_truncate(1, 0x7F01), 0x7F01);
}

#[test]
fn sign_extension_is_idempotent_at_each_width() {
    for class in 0u8..4 {
        for &v in &[0u64, 5, 0x80, 0x8000, 0x8000_0000, u64::MAX] {
            let once = sign_extend_and_truncate(class, v);
            assert_eq!(sign_extend_and_truncate(class, once as u64), once);
        }
    }
}

#[test]
fn pointer_packing_roundtrip() {
    let p = Ptr {
        offset: 0x1234_5678,
        alloc_info_id: 0x9ABC_DEF0,
    };
    let packed = p.as_u64();
    let q = Ptr::from_u64(packed);
    assert_eq!(q.offset, p.offset);
    assert_eq!(q.alloc_info_id, p.alloc_info_id);
    assert_eq!(packed & 0xFFFF_FFFF, 0x1234_5678);
}

#[test]
fn register_operand_bits() {
    let r = OutReg::new(RegSignedness::RegSigned, RegSize::RegSize16, 9);
    assert_eq!(r.id(), Some(9));
    assert_eq!(r.size_class(), 1);
    assert!(r.is_signed());

    let n = OutReg::null(RegSignedness::RegUnsigned, RegSize::RegSize32);
    assert_eq!(n.id(), None);
    assert_eq!(n.size_class(), 2);
    assert!(!n.is_signed());

    let i = InReg::new(RegSize::RegSize8, 0);
    assert_eq!(i.id(), Some(0));
    assert_eq!(i.size_class(), 0);
    assert_eq!(InReg::null().id(), None);

    let w = In64Reg::new(17);
    assert_eq!(w.id(), Some(17));
    assert!(In64Reg::null().expect_id().is_err());
    assert_eq!(Out64Reg::new(31).id(), Some(31));
    assert_eq!(Out64Reg::null().id(), None);
}
