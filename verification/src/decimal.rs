use vstd::prelude::*;

verus! {

/// The decimal digits of `v`, most significant first, as ASCII bytes.
pub open spec fn spec_decimal_digits(v: nat) -> Seq<u8>
    decreases v,
{
    if v < 10 {
        seq![(48 + v) as u8]
    } else {
        spec_decimal_digits(v / 10).push((48 + v % 10) as u8)
    }
}

/// Formats a value as its unsigned decimal digits.
pub fn u64_to_decimal(v: u64) -> (r: Vec<u8>)
    ensures
        r@ == spec_decimal_digits(v as nat),
{
    let mut out: Vec<u8> = Vec::new();
    let mut n: u64 = v;
    proof {
        assert(spec_decimal_digits(v as nat) =~= spec_decimal_digits(n as nat) + out@);
    }
    while n >= 10
        invariant
            spec_decimal_digits(v as nat) == spec_decimal_digits(n as nat) + out@,
        decreases n,
    {
        let ghost pre = out@;
        let d = (n % 10) as u8;
        out.insert(0, 48 + d);
        n = n / 10;
        proof {
            assert(out@ =~= seq![(48 + d) as u8] + pre);
            assert(spec_decimal_digits(v as nat) =~= spec_decimal_digits(n as nat) + out@);
        }
    }
    let ghost pre = out@;
    let d = n as u8;
    out.insert(0, 48 + d);
    proof {
        assert(out@ =~= seq![(48 + d) as u8] + pre);
        assert(spec_decimal_digits(n as nat) =~= seq![(48 + d) as u8]);
        assert(out@ =~= spec_decimal_digits(v as nat));
    }
    out
}

} // verus!
