use vstd::prelude::*;

verus! {

use vstd::std_specs::bits::{
    u32_leading_zeros,
    u32_trailing_zeros,
    axiom_u32_leading_zeros,
    axiom_u32_trailing_zeros,
};

/// Largest byte length the compressed form can represent: mantissa 255 with
/// shift 24.
pub const MAX_ALLOC_LEN: u32 = 0xFF00_0000;

/// A compressed byte length: an 8-bit mantissa and an 8-bit shift, decoding
/// to `len << power`.  Compression never rounds down, so the decoded length
/// is always at least the requested one.
#[derive(Debug, Clone, Copy, PartialEq, Eq, Hash, Structural)]
pub struct AllocLen {
    pub len: u8,
    pub power: u8,
}

/// Whether `n` can be stored exactly: its binary representation needs at
/// most 8 significant bits above its trailing zeros.
pub open spec fn fits_compressed(n: u32) -> bool {
    32 - u32_leading_zeros(n) <= 8 + u32_trailing_zeros(n)
}

impl AllocLen {
    /// A stored shift never exceeds 24; larger shifts cannot arise from
    /// compressing a 32-bit length.
    pub open spec fn wf(self) -> bool {
        self.power <= 24
    }

    /// The byte length this compressed value decodes to.
    pub open spec fn spec_len(self) -> u32 {
        (self.len as u32) << (self.power as u32)
    }

    /// Compresses a requested byte length, rounding up to the next
    /// representable value when the length does not fit exactly.
    pub fn new(input_len: u32) -> (r: Self)
        requires
            input_len <= MAX_ALLOC_LEN,
        ensures
            r.wf(),
            r.spec_len() >= input_len,
            fits_compressed(input_len) ==> r.spec_len() == input_len,
            !fits_compressed(input_len) ==> r.spec_len() > input_len,
            input_len > 0 ==> r.spec_len() < 2 * input_len,
            r.spec_len() <= MAX_ALLOC_LEN,
            forall|m: u8, p: u8|
                p <= 24 && input_len <= ((m as u32) << (p as u32)) ==> r.spec_len() <= ((
                #[trigger] ((m as u32) << (p as u32)))),
    {
        let lz = input_len.leading_zeros();
        let tz = input_len.trailing_zeros();
        proof {
            axiom_u32_leading_zeros(input_len);
            axiom_u32_trailing_zeros(input_len);
        }
        // Number of significant bits in the input.
        let sig = 32 - lz;
        let power: u32 = if sig >= 8 {
            sig - 8
        } else {
            0
        };
        assert(input_len >> power < 256) by (bit_vector)
            requires
                input_len >> sig == 0,
                sig + lz == 32,
                (sig >= 8 && power + 8 == sig) || (sig < 8 && power == 0),
        ;

        if power <= tz {
            let len = (input_len >> power) as u8;
            let low = 32 - tz;
            proof {
                assert((input_len >> power) << power == input_len) by (bit_vector)
                    requires
                        low + tz == 32,
                        input_len << low == 0,
                        power <= tz,
                        power <= 24,
                ;
            }
            return AllocLen { len, power: power as u8 };
        }
        // The requested length has set bits below the shift, so the exact
        // mantissa would lose them: round the mantissa up instead.
        assert(input_len != 0 && lz <= 31 && sig >= 8);
        // Position of the highest set bit.
        let hb = sig - 1;
        let m = (input_len >> power) + 1;
        proof {
            assert(128 <= input_len >> power) by (bit_vector)
                requires
                    (input_len >> hb) & 1 != 0,
                    hb + 1 == sig,
                    sig >= 8,
                    sig <= 32,
                    power + 8 == sig,
            ;
            assert(!fits_compressed(input_len));
        }

        if m == 256 {
            // Mantissa overflow: the result is exactly one power of two
            // above the mantissa range, so shift once more.
            proof {
                assert(power == 24 ==> input_len == 0xFF00_0000u32) by (bit_vector)
                    requires
                        input_len <= 0xFF00_0000u32,
                        input_len >> power == 255,
                ;
                assert(input_len == 0xFF00_0000u32 && tz < 32 ==> tz >= 24) by (bit_vector)
                    requires
                        (input_len >> tz) & 1 == 1 || tz >= 32,
                ;
                // power == 24 would force input_len == MAX_ALLOC_LEN, whose
                // 24 trailing zeros put it on the exact path instead.
                assert(power <= 23);
            }
            let p1 = power + 1;
            proof {
                assert((128u32 << p1) > input_len && (128u32 << p1) < input_len + input_len && (
                128u32 << p1) <= 0xFF00_0000u32) by (bit_vector)
                    requires
                        power <= 23,
                        power + 8 == sig,
                        p1 == power + 1,
                        input_len >> sig == 0,
                        input_len >> power == 255,
                ;
                assert((input_len >> power) << power < input_len) by (bit_vector)
                    requires
                        tz < power,
                        power <= 24,
                        tz < 32,
                        (input_len >> tz) & 1 == 1,
                ;
                // Minimality, as below: no representable value between the
                // request and the next power of two can exist.
                assert forall|mc: u8, pc: u8|
                    pc <= 24 && input_len <= #[trigger] ((mc as u32) << (pc as u32)) implies (
                128u32 << p1) <= ((mc as u32) << (pc as u32)) by {
                    let c = (mc as u32) << (pc as u32);
                    assert((128u32 << p1) <= c) by (bit_vector)
                        requires
                            power <= 23,
                            power + 8 == sig,
                            p1 == power + 1,
                            input_len >> sig == 0,
                            input_len >> power == 255,
                            (input_len >> power) << power < input_len,
                            c == (mc as u32) << (pc as u32),
                            pc <= 24,
                            input_len <= c,
                    ;
                }
            }
            return AllocLen { len: 128, power: p1 as u8 };
        }

        proof {
            assert((m << power) > input_len && (m << power) < input_len + input_len && (m << power)
                <= 0xFF00_0000u32) by (bit_vector)
                requires
                    power <= 24,
                    1 <= power,
                    m == (input_len >> power) + 1,
                    128 <= input_len >> power,
                    input_len >> power <= 254,
            ;
            assert((input_len >> power) << power < input_len) by (bit_vector)
                requires
                    tz < power,
                    power <= 24,
                    tz < 32,
                    (input_len >> tz) & 1 == 1,
            ;
            // Minimality: any representable value at least as large as the
            // request is at least the rounded result.  A candidate with a
            // smaller shift cannot reach the request's magnitude, and one
            // with a shift at least `power` is a multiple of `1 << power`,
            // hence no smaller than the next such multiple above the
            // request.
            assert forall|mc: u8, pc: u8|
                pc <= 24 && input_len <= #[trigger] ((mc as u32) << (pc as u32)) implies (m
                << power) <= ((mc as u32) << (pc as u32)) by {
                let c = (mc as u32) << (pc as u32);
                assert((m << power) <= c) by (bit_vector)
                    requires
                        power <= 24,
                        1 <= power,
                        m == (input_len >> power) + 1,
                        128 <= input_len >> power,
                        input_len >> power <= 254,
                        (input_len >> power) << power < input_len,
                        input_len >> sig == 0,
                        power + 8 == sig,
                        c == (mc as u32) << (pc as u32),
                        pc <= 24,
                        input_len <= c,
                ;
            }
        }
        AllocLen { len: m as u8, power: power as u8 }
    }

    /// Decodes the compressed length.
    pub fn len(self) -> (r: u32)
        requires
            self.wf(),
        ensures
            r == self.spec_len(),
    {
        (self.len as u32) << (self.power as u32)
    }
}

} // verus!
