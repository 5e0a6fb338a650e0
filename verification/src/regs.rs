use vstd::prelude::*;

verus! {

use crate::errors::{IError, IErrorKind};

/// Register id reserved for the call/return convention; general-purpose
/// output operands may never name it.
pub const REGISTER_CALL_ID: u8 = 0;

/// Whether a register operand is read or written with sign extension.
#[derive(Debug, Clone, Copy, PartialEq, Eq, Structural)]
pub enum RegSignedness {
    RegUnsigned,
    RegSigned,
}

/// The width class of a register operand: 8, 16, 32 or 64 bits.
#[derive(Debug, Clone, Copy, PartialEq, Eq, Structural)]
pub enum RegSize {
    RegSize8,
    RegSize16,
    RegSize32,
    RegSize64,
}

impl RegSignedness {
    pub open spec fn spec_bit(self) -> u8 {
        if self is RegSigned {
            1
        } else {
            0
        }
    }

    pub fn bit(self) -> (r: u8)
        ensures
            r == self.spec_bit(),
    {
        match self {
            RegSignedness::RegUnsigned => 0,
            RegSignedness::RegSigned => 1,
        }
    }
}

impl RegSize {
    pub open spec fn spec_class(self) -> u8 {
        match self {
            RegSize::RegSize8 => 0,
            RegSize::RegSize16 => 1,
            RegSize::RegSize32 => 2,
            RegSize::RegSize64 => 3,
        }
    }

    pub fn class(self) -> (r: u8)
        ensures
            r == self.spec_class(),
            r <= 3,
    {
        match self {
            RegSize::RegSize8 => 0,
            RegSize::RegSize16 => 1,
            RegSize::RegSize32 => 2,
            RegSize::RegSize64 => 3,
        }
    }
}

// Operand descriptor bytes.  All four register operand kinds pack into one
// byte: the highest bit marks presence (inputs) or signedness (outputs),
// the next two bits the width class where one applies, and the low five
// bits the register id.

/// A sized register input: presence bit, width class, register id.
#[derive(Debug, Clone, Copy, PartialEq, Eq, Hash, Structural)]
pub struct InReg(pub u8);

/// A 64-bit register input: presence bit and register id.
#[derive(Debug, Clone, Copy, PartialEq, Eq, Hash, Structural)]
pub struct In64Reg(pub u8);

/// A 64-bit register output; id 0 stands for "no register".
#[derive(Debug, Clone, Copy, PartialEq, Eq, Hash, Structural)]
pub struct Out64Reg(pub u8);

/// A sized register output: sign bit, width class, register id; id 0
/// stands for "no register".
#[derive(Debug, Clone, Copy, PartialEq, Eq, Hash, Structural)]
pub struct OutReg(pub u8);

impl InReg {
    pub open spec fn spec_byte(self) -> u8 {
        self.0
    }

    pub open spec fn spec_id(self) -> Option<u8> {
        if self.0 == 0 {
            None
        } else {
            Some((self.0 & 31) as u8)
        }
    }

    pub open spec fn spec_size_class(self) -> u8 {
        (self.0 & 127) >> 5
    }

    /// The absent input operand.
    pub fn null() -> (r: Self)
        ensures
            r.spec_id() is None,
            r.spec_byte() == 0,
    {
        InReg(0)
    }

    pub fn new(size_class: RegSize, id: u8) -> (r: Self)
        requires
            id < 32,
        ensures
            r.spec_id() == Some(id),
            r.spec_size_class() == size_class.spec_class(),
    {
        let not_null: u8 = 1u8 << 7;
        let class: u8 = size_class.class() << 5;
        let b: u8 = not_null | class | id;
        proof {
            let c = size_class.spec_class();
            assert(b != 0 && b & 31 == id && (b & 127) >> 5 == c) by (bit_vector)
                requires
                    id < 32,
                    c <= 3,
                    b == (1u8 << 7) | (c << 5) | id,
            ;
        }
        InReg(b)
    }

    pub fn id(self) -> (r: Option<u8>)
        ensures
            r == self.spec_id(),
            r matches Some(i) ==> i < 32,
    {
        proof {
            let b = self.0;
            assert(b & 31 < 32) by (bit_vector);
        }
        if self.0 == 0 {
            None
        } else {
            Some(self.0 & 31)
        }
    }

    pub fn size_class(self) -> (r: u8)
        ensures
            r == self.spec_size_class(),
            r <= 3,
    {
        proof {
            let b = self.0;
            assert((b & 127) >> 5 <= 3) by (bit_vector);
        }
        (self.0 & 127) >> 5
    }

    pub fn expect_id(self) -> (r: Result<u8, IError>)
        ensures
            (match self.spec_id() {
                Some(i) => r == Ok::<u8, IError>(i) && i < 32,
                None => r == Err::<u8, IError>(IError { kind: IErrorKind::Internal }),
            }),
    {
        match self.id() {
            Some(id) => Ok(id),
            None => Err(IError::new(IErrorKind::Internal)),
        }
    }
}

impl In64Reg {
    pub open spec fn spec_byte(self) -> u8 {
        self.0
    }

    pub open spec fn spec_id(self) -> Option<u8> {
        if self.0 == 0 {
            None
        } else {
            Some((self.0 & 31) as u8)
        }
    }

    /// The absent input operand.
    pub fn null() -> (r: Self)
        ensures
            r.spec_id() is None,
            r.spec_byte() == 0,
    {
        In64Reg(0)
    }

    pub fn new(id: u8) -> (r: Self)
        requires
            id < 32,
        ensures
            r.spec_id() == Some(id),
    {
        let not_null: u8 = 1u8 << 7;
        let b: u8 = not_null | id;
        proof {
            assert(b != 0 && b & 31 == id) by (bit_vector)
                requires
                    id < 32,
                    b == (1u8 << 7) | id,
            ;
        }
        In64Reg(b)
    }

    pub fn id(self) -> (r: Option<u8>)
        ensures
            r == self.spec_id(),
            r matches Some(i) ==> i < 32,
    {
        proof {
            let b = self.0;
            assert(b & 31 < 32) by (bit_vector);
        }
        if self.0 == 0 {
            None
        } else {
            Some(self.0 & 31)
        }
    }

    pub fn expect_id(self) -> (r: Result<u8, IError>)
        ensures
            (match self.spec_id() {
                Some(i) => r == Ok::<u8, IError>(i) && i < 32,
                None => r == Err::<u8, IError>(IError { kind: IErrorKind::Internal }),
            }),
    {
        match self.id() {
            Some(id) => Ok(id),
            None => Err(IError::new(IErrorKind::Internal)),
        }
    }
}

impl Out64Reg {
    pub open spec fn spec_byte(self) -> u8 {
        self.0
    }

    pub open spec fn spec_id(self) -> Option<u8> {
        if self.0 & 31 == 0 {
            None
        } else {
            Some((self.0 & 31) as u8)
        }
    }

    /// The absent output operand.
    pub fn null() -> (r: Self)
        ensures
            r.spec_id() is None,
            r.spec_byte() == 0,
    {
        proof {
            assert(0u8 & 31 == 0) by (bit_vector);
        }
        Out64Reg(0)
    }

    pub fn new(id: u8) -> (r: Self)
        requires
            0 < id < 32,
        ensures
            r.spec_id() == Some(id),
    {
        proof {
            assert(id & 31 == id) by (bit_vector)
                requires
                    id < 32,
            ;
        }
        Out64Reg(id)
    }

    pub fn id(self) -> (r: Option<u8>)
        ensures
            r == self.spec_id(),
            r matches Some(i) ==> i < 32,
    {
        proof {
            let b = self.0;
            assert(b & 31 < 32) by (bit_vector);
        }
        let id = self.0 & 31;
        if id == 0 {
            None
        } else {
            Some(id)
        }
    }

    pub fn expect_id(self) -> (r: Result<u8, IError>)
        ensures
            (match self.spec_id() {
                Some(i) => r == Ok::<u8, IError>(i) && i < 32,
                None => r == Err::<u8, IError>(IError { kind: IErrorKind::Internal }),
            }),
    {
        match self.id() {
            Some(id) => Ok(id),
            None => Err(IError::new(IErrorKind::Internal)),
        }
    }
}

impl OutReg {
    pub open spec fn spec_byte(self) -> u8 {
        self.0
    }

    pub open spec fn spec_id(self) -> Option<u8> {
        if self.0 & 31 == 0 {
            None
        } else {
            Some((self.0 & 31) as u8)
        }
    }

    pub open spec fn spec_size_class(self) -> u8 {
        (self.0 & 127) >> 5
    }

    pub open spec fn spec_is_signed(self) -> bool {
        self.0 & 128 != 0
    }

    /// An output operand that names no register but still carries sign and
    /// width bits.
    pub fn null(signed: RegSignedness, size_class: RegSize) -> (r: Self)
        ensures
            r.spec_id() is None,
            r.spec_size_class() == size_class.spec_class(),
            r.spec_is_signed() == (signed is RegSigned),
    {
        let sign_bit: u8 = signed.bit() << 7;
        let class: u8 = size_class.class() << 5;
        let b: u8 = sign_bit | class;
        proof {
            let s = signed.spec_bit();
            let c = size_class.spec_class();
            assert(b & 31 == 0 && (b & 127) >> 5 == c && (b & 128 != 0) == (s == 1)) by (bit_vector)
                requires
                    s <= 1,
                    c <= 3,
                    b == (s << 7) | (c << 5),
            ;
        }
        OutReg(b)
    }

    pub fn new(signed: RegSignedness, size_class: RegSize, id: u8) -> (r: Self)
        requires
            0 < id < 32,
        ensures
            r.spec_id() == Some(id),
            r.spec_size_class() == size_class.spec_class(),
            r.spec_is_signed() == (signed is RegSigned),
    {
        let sign_bit: u8 = signed.bit() << 7;
        let class: u8 = size_class.class() << 5;
        let b: u8 = sign_bit | class | id;
        proof {
            let s = signed.spec_bit();
            let c = size_class.spec_class();
            assert(b & 31 == id && (b & 127) >> 5 == c && (b & 128 != 0) == (s == 1))
                by (bit_vector)
                requires
                    0 < id < 32,
                    s <= 1,
                    c <= 3,
                    b == (s << 7) | (c << 5) | id,
            ;
        }
        OutReg(b)
    }

    pub fn id(self) -> (r: Option<u8>)
        ensures
            r == self.spec_id(),
            r matches Some(i) ==> i < 32,
    {
        proof {
            let b = self.0;
            assert(b & 31 < 32) by (bit_vector);
        }
        let id = self.0 & 31;
        if id == 0 {
            None
        } else {
            Some(id)
        }
    }

    pub fn size_class(self) -> (r: u8)
        ensures
            r == self.spec_size_class(),
            r <= 3,
    {
        proof {
            let b = self.0;
            assert((b & 127) >> 5 <= 3) by (bit_vector);
        }
        (self.0 & 127) >> 5
    }

    pub fn is_signed(self) -> (r: bool)
        ensures
            r == self.spec_is_signed(),
    {
        self.0 & 128 != 0
    }

    pub fn expect_id(self) -> (r: Result<u8, IError>)
        ensures
            (match self.spec_id() {
                Some(i) => r == Ok::<u8, IError>(i) && i < 32,
                None => r == Err::<u8, IError>(IError { kind: IErrorKind::Internal }),
            }),
    {
        match self.id() {
            Some(id) => Ok(id),
            None => Err(IError::new(IErrorKind::Internal)),
        }
    }
}

/// A stack slot operand: the logical stack id within the current frame and
/// a byte offset into that allocation.
#[derive(Debug, Clone, Copy, PartialEq, Eq, Hash, Structural)]
pub struct StackSlot {
    pub id: u8,
    pub offset: u8,
}

impl StackSlot {
    pub fn new(id: u8) -> (r: Self)
        ensures
            r.id == id,
            r.offset == 0,
    {
        StackSlot { id, offset: 0 }
    }
}

// Width handling.  A value read from or written to a sized register operand
// is reduced to the operand's width: `truncate` keeps the low bytes as an
// unsigned value, `sign_extend_and_truncate` widens the low bytes' sign bit
// through the full 64 bits.

/// The low bytes of `value` at the given width, as an unsigned value.
pub open spec fn spec_truncate(size_class: u8, value: u64) -> u64 {
    if size_class == 0 {
        value & 0xFF
    } else if size_class == 1 {
        value & 0xFFFF
    } else if size_class == 2 {
        value & 0xFFFF_FFFF
    } else {
        value
    }
}

/// The low bytes of `value` at the given width, sign-extended to 64 bits.
pub open spec fn spec_sign_extend(size_class: u8, value: u64) -> i64 {
    if size_class == 0 {
        if value & 0x80 != 0 {
            ((value & 0xFF) | 0xFFFF_FFFF_FFFF_FF00) as i64
        } else {
            (value & 0xFF) as i64
        }
    } else if size_class == 1 {
        if value & 0x8000 != 0 {
            ((value & 0xFFFF) | 0xFFFF_FFFF_FFFF_0000) as i64
        } else {
            (value & 0xFFFF) as i64
        }
    } else if size_class == 2 {
        if value & 0x8000_0000 != 0 {
            ((value & 0xFFFF_FFFF) | 0xFFFF_FFFF_0000_0000) as i64
        } else {
            (value & 0xFFFF_FFFF) as i64
        }
    } else {
        value as i64
    }
}

/// The mask of the sign bit at the given width.
pub open spec fn high_bit_mask(size_class: u8) -> u64 {
    if size_class == 0 {
        0x80
    } else if size_class == 1 {
        0x8000
    } else if size_class == 2 {
        0x8000_0000
    } else {
        0x8000_0000_0000_0000
    }
}

pub fn truncate(size_class: u8, value: u64) -> (r: u64)
    requires
        size_class <= 3,
    ensures
        r == spec_truncate(size_class, value),
{
    let sc = size_class as u32;
    let value_size: u32 = 1u32 << sc;
    proof {
        assert(1 <= value_size <= 8) by (bit_vector)
            requires
                sc <= 3,
                value_size == 1u32 << sc,
        ;
    }
    let shift_size: u32 = (8 - value_size) * 8;
    let truncated_value = value << (shift_size as u64);
    let r = truncated_value >> (shift_size as u64);
    proof {
        assert(r == spec_truncate(size_class, value)) by (bit_vector)
            requires
                size_class <= 3,
                sc == size_class as u32,
                value_size == 1u32 << sc,
                1 <= value_size <= 8,
                shift_size == (8 - value_size) * 8,
                truncated_value == value << (shift_size as u64),
                r == truncated_value >> (shift_size as u64),
        ;
    }
    r
}

pub fn sign_extend_and_truncate(size_class: u8, value: u64) -> (r: i64)
    requires
        size_class <= 3,
    ensures
        r == spec_sign_extend(size_class, value),
{
    let sc = size_class as u32;
    let value_size: u32 = 1u32 << sc;
    proof {
        assert(1 <= value_size <= 8) by (bit_vector)
            requires
                sc <= 3,
                value_size == 1u32 << sc,
        ;
    }
    let shift_size: u32 = (8 - value_size) * 8;
    let truncated_value = value << (shift_size as u64);
    let r = (truncated_value as i64) >> (shift_size as u64);
    proof {
        assert(r == spec_sign_extend(size_class, value)) by (bit_vector)
            requires
                size_class <= 3,
                sc == size_class as u32,
                value_size == 1u32 << sc,
                1 <= value_size <= 8,
                shift_size == (8 - value_size) * 8,
                truncated_value == value << (shift_size as u64),
                r == (truncated_value as i64) >> (shift_size as u64),
        ;
    }
    r
}

/// Truncating twice at the same width gives the same value as truncating
/// once.
pub proof fn lemma_truncate_idempotent(size_class: u8, value: u64)
    requires
        size_class <= 3,
    ensures
        spec_truncate(size_class, spec_truncate(size_class, value)) == spec_truncate(
            size_class,
            value,
        ),
{
    assert(spec_truncate(size_class, spec_truncate(size_class, value)) == spec_truncate(
        size_class,
        value,
    )) by (bit_vector);
}

/// Sign-extending an already sign-extended value at the same width gives
/// it back unchanged.
pub proof fn lemma_sign_extend_idempotent(size_class: u8, value: u64)
    requires
        size_class <= 3,
    ensures
        spec_sign_extend(size_class, spec_sign_extend(size_class, value) as u64)
            == spec_sign_extend(size_class, value),
{
    assert(spec_sign_extend(size_class, spec_sign_extend(size_class, value) as u64)
        == spec_sign_extend(size_class, value)) by (bit_vector);
}

/// Sign-extending a value whose sign bit at the width is set yields a
/// negative 64-bit result.
pub proof fn lemma_sign_extend_negative(size_class: u8, value: u64)
    requires
        size_class <= 3,
        value & high_bit_mask(size_class) != 0,
    ensures
        spec_sign_extend(size_class, value) < 0,
{
    assert(value & high_bit_mask(size_class) != 0 ==> spec_sign_extend(size_class, value) < 0)
        by (bit_vector);
}

} // verus!
