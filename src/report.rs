//! The results record: one line of nine decimal integers separated by spaces.
use vstd::prelude::*;

use crate::stats::Stats;

verus! {

/// Byte value of `' '`.
pub const SPACE: u8 = 32;

/// The decimal digits of `n`, most significant first, without leading zeros.
pub open spec fn decimal(n: nat) -> Seq<u8>
    decreases n,
{
    if n < 10 {
        seq![(48 + n) as u8]
    } else {
        decimal(n / 10).push((48 + n % 10) as u8)
    }
}

/// The results line of `s`: count, mean, standard deviation, maximum, minimum
/// and the percentiles at ranks 50, 90, 99 and 99.9, separated by single spaces.
pub open spec fn results_line_of(s: Stats) -> Seq<u8> {
    decimal(s.num_entries as nat) + seq![SPACE] + decimal(s.mean as nat) + seq![SPACE] + decimal(
        s.stddev as nat,
    ) + seq![SPACE] + decimal(s.max as nat) + seq![SPACE] + decimal(s.min as nat) + seq![SPACE]
        + decimal(s.p50 as nat) + seq![SPACE] + decimal(s.p90 as nat) + seq![SPACE] + decimal(
        s.p99 as nat,
    ) + seq![SPACE] + decimal(s.p999 as nat)
}

/// Appends the decimal digits of `n` to `out`.
pub fn push_decimal(out: &mut Vec<u8>, n: u64)
    ensures
        final(out)@ == old(out)@ + decimal(n as nat),
    decreases n,
{
    if n >= 10 {
        push_decimal(out, n / 10);
    }
    out.push(48 + (n % 10) as u8);
    assert(out@ =~= old(out)@ + decimal(n as nat));
}

impl Stats {
    /// The results line, as bytes.
    pub fn results_line(&self) -> (r: Vec<u8>)
        ensures
            r@ == results_line_of(*self),
    {
        let mut out: Vec<u8> = Vec::new();
        push_decimal(&mut out, self.num_entries);
        out.push(SPACE);
        push_decimal(&mut out, self.mean);
        out.push(SPACE);
        push_decimal(&mut out, self.stddev);
        out.push(SPACE);
        push_decimal(&mut out, self.max);
        out.push(SPACE);
        push_decimal(&mut out, self.min);
        out.push(SPACE);
        push_decimal(&mut out, self.p50);
        out.push(SPACE);
        push_decimal(&mut out, self.p90);
        out.push(SPACE);
        push_decimal(&mut out, self.p99);
        out.push(SPACE);
        push_decimal(&mut out, self.p999);
        assert(out@ =~= results_line_of(*self));
        out
    }
}

} // verus!
