//! How large the next search batch is, and how fast the last one ran.
//!
//! Times are whole nanoseconds and the wanted rate is given in executions per
//! thousand seconds, so that everything here is integer arithmetic.

use vstd::prelude::*;
use vstd::string::StringExecFns;
use crate::text::{decimal, decimal_text, digit, digit_text};

verus! {

/// The most that a batch may be after one of `last` units: sixteen times as
/// many, as far as the machine can count.
pub open spec fn growth_limit(last: u64) -> nat {
    if last * 16 > u64::MAX {
        u64::MAX as nat
    } else {
        (last * 16) as nat
    }
}

/// The batch size that would take exactly the wanted time, given that the
/// last batch of `last` units took `nanos` nanoseconds; rounded down. There is
/// none where nothing was measured yet or no rate is asked for.
pub open spec fn desired_batch(last: u64, nanos: u64, rate_milli: u64) -> Option<nat> {
    if rate_milli * nanos == 0 {
        None
    } else {
        Some(((last * 1_000_000_000_000) / (rate_milli * nanos)) as nat)
    }
}

/// The size of the next batch: the desired size, but no more than the growth
/// limit and no less than one.
pub open spec fn next_batch_spec(last: u64, nanos: u64, rate_milli: u64) -> nat {
    let limit = growth_limit(last);
    let wanted = match desired_batch(last, nanos, rate_milli) {
        Some(d) => if d < limit {
            d
        } else {
            limit
        },
        None => limit,
    };
    if wanted < 1 {
        1
    } else {
        wanted
    }
}

/// Computes the size of the next batch from the size and the duration of the
/// last one and the wanted rate.
pub fn next_batch(last: u64, nanos: u64, rate_milli: u64) -> (r: u64)
    ensures
        r == next_batch_spec(last, nanos, rate_milli),
        r >= 1,
        last >= 1 ==> r <= last * 16,
        last == 1 && nanos == 0 ==> r == 16,
{
    let limit: u64 = if last > u64::MAX / 16 {
        u64::MAX
    } else {
        last * 16
    };
    assert(rate_milli * nanos <= 0xFFFF_FFFF_FFFF_FFFF * 0xFFFF_FFFF_FFFF_FFFF) by (nonlinear_arith)
        requires
            rate_milli <= 0xFFFF_FFFF_FFFF_FFFF,
            nanos <= 0xFFFF_FFFF_FFFF_FFFF,
    ;
    let per_batch: u128 = (rate_milli as u128) * (nanos as u128);
    let wanted: u64 = if per_batch == 0 {
        limit
    } else {
        let d: u128 = ((last as u128) * 1_000_000_000_000u128) / per_batch;
        if d < limit as u128 {
            d as u64
        } else {
            limit
        }
    };
    if wanted < 1 {
        1
    } else {
        wanted
    }
}

/// A batch is never empty and never more than sixteen times the one before.
pub proof fn lemma_batch_bounds(last: u64, nanos: u64, rate_milli: u64)
    requires
        last >= 1,
    ensures
        1 <= next_batch_spec(last, nanos, rate_milli) <= last * 16,
        next_batch_spec(last, nanos, rate_milli) <= u64::MAX,
{
}

/// With nothing measured yet, the batch after a batch of one is sixteen
/// units, whatever rate is asked for.
pub proof fn lemma_first_batch(rate_milli: u64)
    ensures
        next_batch_spec(1, 0, rate_milli) == 16,
{
    assert(rate_milli * 0 == 0);
}

/// The whole number nearest to `num / den`; of two that are equally near,
/// the even one.
pub open spec fn nearest(num: nat, den: nat) -> nat {
    let below = num / den;
    let rest = num % den;
    if 2 * rest < den {
        below
    } else if 2 * rest > den {
        below + 1
    } else if below % 2 == 0 {
        below
    } else {
        below + 1
    }
}

/// Rounds `num / den` to the nearest whole number, a tie to the even one.
pub fn round_nearest(num: u128, den: u128) -> (r: u128)
    requires
        den > 0,
        num < u128::MAX,
    ensures
        r == nearest(num as nat, den as nat),
{
    let below: u128 = num / den;
    let rest: u128 = num % den;
    let other: u128 = den - rest;
    if rest < other {
        below
    } else if rest > other {
        below + 1
    } else if below % 2 == 0 {
        below
    } else {
        below + 1
    }
}

/// No whole number is nearer to `num / den` than `nearest(num, den)`: it is
/// at most half a unit away.
pub proof fn lemma_nearest_is_nearest(num: nat, den: nat)
    requires
        den > 0,
    ensures
        2 * (nearest(num, den) * den - num) <= den,
        2 * (num - nearest(num, den) * den) <= den,
{
    let below = num / den;
    let rest = num % den;
    vstd::arithmetic::div_mod::lemma_fundamental_div_mod(num as int, den as int);
    assert(num == den * below + rest);
    assert(den * below == below * den) by (nonlinear_arith);
    assert((below + 1) * den == below * den + den) by (nonlinear_arith);
}

/// Observed throughput: so many hashes in so many nanoseconds.
#[derive(Debug, Clone, Copy, PartialEq, Eq, Structural)]
pub struct Hashrate {
    pub hashes: u64,
    pub nanos: u64,
}

impl Hashrate {
    /// Hashes per second, rounded down; where no time passed, or the number
    /// is too large to hold, the largest number there is.
    pub open spec fn per_second_spec(self) -> nat {
        if self.nanos == 0 || (self.hashes * 1_000_000_000) / (self.nanos as int) > u64::MAX {
            u64::MAX as nat
        } else {
            ((self.hashes * 1_000_000_000) / (self.nanos as int)) as nat
        }
    }

    /// How many times a rate can be divided by a thousand before it falls
    /// under a thousand; four at most.
    pub open spec fn magnitude_of(per_second: nat) -> nat {
        if per_second < 1_000 {
            0
        } else if per_second < 1_000_000 {
            1
        } else if per_second < 1_000_000_000 {
            2
        } else if per_second < 1_000_000_000_000 {
            3
        } else {
            4
        }
    }

    /// A thousand to the power of `magnitude`, for the magnitudes up to four.
    pub open spec fn unit_of(magnitude: nat) -> nat {
        if magnitude == 0 {
            1
        } else if magnitude == 1 {
            1_000
        } else if magnitude == 2 {
            1_000_000
        } else if magnitude == 3 {
            1_000_000_000
        } else {
            1_000_000_000_000
        }
    }

    /// The letter that stands for a magnitude: none, K, M, G or T.
    pub open spec fn letter_of(magnitude: nat) -> Seq<char> {
        if magnitude == 0 {
            ""@
        } else if magnitude == 1 {
            "K"@
        } else if magnitude == 2 {
            "M"@
        } else if magnitude == 3 {
            "G"@
        } else {
            "T"@
        }
    }

    /// Hashes per second, rounded down.
    pub fn per_second(&self) -> (r: u64)
        ensures
            r == self.per_second_spec(),
    {
        if self.nanos == 0 {
            return u64::MAX;
        }
        let q: u128 = ((self.hashes as u128) * 1_000_000_000u128) / (self.nanos as u128);
        if q > u64::MAX as u128 {
            u64::MAX
        } else {
            q as u64
        }
    }

    /// The magnitude of the rate: 0 for plain hashes per second, 1 for
    /// thousands, and so on up to 4.
    pub fn magnitude(&self) -> (r: usize)
        ensures
            r == Self::magnitude_of(self.per_second_spec()),
            r <= 4,
    {
        let ps: u64 = self.per_second();
        if ps < 1_000 {
            0
        } else if ps < 1_000_000 {
            1
        } else if ps < 1_000_000_000 {
            2
        } else if ps < 1_000_000_000_000 {
            3
        } else {
            4
        }
    }

    /// The letter that stands for the rate's magnitude: none, K, M, G or T.
    pub fn si_prefix(&self) -> (r: &'static str)
        ensures
            r@ == Self::letter_of(Self::magnitude_of(self.per_second_spec())),
    {
        let m: usize = self.magnitude();
        if m == 0 {
            ""
        } else if m == 1 {
            "K"
        } else if m == 2 {
            "M"
        } else if m == 3 {
            "G"
        } else {
            "T"
        }
    }

    /// Whether the rate is too large to hold, or no time passed: the largest
    /// number of hashes per second then stands for it.
    pub open spec fn beyond_count(self) -> bool {
        self.nanos == 0 || (self.hashes * 1_000_000_000) / (self.nanos as int) > u64::MAX
    }

    /// The rate in units of its magnitude, in hundredths, rounded to the
    /// nearest, a tie to the even one: the number to show with two decimals
    /// before the prefix letter. The magnitude is that of the rate itself,
    /// so a rate just under a thousand may show as `1000.00`.
    pub open spec fn scaled_hundredths_spec(self) -> nat {
        let unit = Self::unit_of(Self::magnitude_of(self.per_second_spec()));
        if self.beyond_count() {
            nearest((u64::MAX * 100) as nat, unit)
        } else {
            nearest((self.hashes * 100_000_000_000) as nat, (self.nanos * unit) as nat)
        }
    }

    /// The rate as text: the number in units of its magnitude with two
    /// decimals, rounded to the nearest, a space, the letter of the
    /// magnitude, `H/s`.
    pub open spec fn render_spec(self) -> Seq<char> {
        let h = self.scaled_hundredths_spec();
        decimal_text(h / 100) + "."@ + digit_text((h % 100) / 10) + digit_text(h % 10) + " "@
            + Self::letter_of(Self::magnitude_of(self.per_second_spec())) + "H/s"@
    }

    /// The rate in units of its magnitude, in hundredths, rounded to the
    /// nearest.
    pub fn scaled_hundredths(&self) -> (r: u128)
        ensures
            r == self.scaled_hundredths_spec(),
    {
        let m: usize = self.magnitude();
        let unit: u128 = if m == 0 {
            1
        } else if m == 1 {
            1_000
        } else if m == 2 {
            1_000_000
        } else if m == 3 {
            1_000_000_000
        } else {
            1_000_000_000_000
        };
        let most: u128 = (u64::MAX as u128) * 100;
        if self.nanos == 0 {
            return round_nearest(most, unit);
        }
        let whole: u128 = ((self.hashes as u128) * 1_000_000_000u128) / (self.nanos as u128);
        if whole > u64::MAX as u128 {
            round_nearest(most, unit)
        } else {
            assert(self.nanos * unit <= 0xFFFF_FFFF_FFFF_FFFF * 1_000_000_000_000) by (nonlinear_arith)
                requires
                    self.nanos <= 0xFFFF_FFFF_FFFF_FFFF,
                    unit <= 1_000_000_000_000,
            ;
            round_nearest(
                (self.hashes as u128) * 100_000_000_000u128,
                (self.nanos as u128) * unit,
            )
        }
    }

    /// Writes the rate out, as in `1.60 KH/s`.
    pub fn render(&self) -> (r: String)
        ensures
            r@ == self.render_spec(),
    {
        let h: u128 = self.scaled_hundredths();
        let mut out: String = decimal(h / 100);
        out.append(".");
        out.append(digit(((h % 100) / 10) as u8));
        out.append(digit((h % 10) as u8));
        out.append(" ");
        out.append(self.si_prefix());
        out.append("H/s");
        out
    }
}

} // verus!
