//! Conversion between a target tick rate in Hz and the 16-bit countdown that
//! the programmable interval timer latches from its register byte pair.

use vstd::prelude::*;

verus! {

/// The base oscillator of the programmable interval timer, in Hz.
pub const PIT_OSCILLATOR_HZ: u32 = 1193180;

/// The largest countdown a timer channel can latch.
pub const MAX_COUNTDOWN: u16 = 65535;

/// The countdown that a target rate in Hz asks for: the base oscillator
/// divided by the target, truncating toward zero.
pub open spec fn spec_countdown_for(target_hz: u32) -> int {
    PIT_OSCILLATOR_HZ as int / target_hz as int
}

/// A target rate is programmable exactly when it is positive and its
/// countdown is neither zero (hardware would treat it as the maximum
/// period) nor too wide for the 16-bit register pair.
pub open spec fn valid_target(target_hz: u32) -> bool {
    &&& target_hz >= 1
    &&& 1 <= spec_countdown_for(target_hz) <= MAX_COUNTDOWN
}

/// The byte pair that a countdown value splits into.
pub open spec fn frequency_of_countdown(c: int) -> Frequency {
    Frequency { high: (c / 256) as u8, low: (c % 256) as u8 }
}

/// The error reported for a target rate whose countdown cannot be
/// programmed.
#[derive(Clone, Copy, Debug, PartialEq, Eq, Structural)]
pub enum FrequencyError {
    InvalidFrequency,
}

/// A 16-bit timer countdown, split into the high and low register bytes in
/// which a channel's data port consumes it.
#[derive(Clone, Copy, Debug, PartialEq, Eq, Structural)]
pub struct Frequency {
    pub high: u8,
    pub low: u8,
}

impl Frequency {
    /// The countdown the byte pair stands for.
    pub open spec fn spec_countdown(&self) -> int {
        self.high * 256 + self.low
    }

    /// A countdown of zero must never reach the hardware: zero is latched
    /// as the maximum period, not as "never fire".
    pub open spec fn well_formed(&self) -> bool {
        self.spec_countdown() >= 1
    }

    /// Splits a countdown into its register byte pair.
    pub fn from_countdown(val: u16) -> (r: Frequency)
        requires
            val >= 1,
        ensures
            r.high == val / 256,
            r.low == val % 256,
            r == frequency_of_countdown(val as int),
            r.spec_countdown() == val,
            r.well_formed(),
    {
        proof {
            vstd::arithmetic::div_mod::lemma_fundamental_div_mod(val as int, 256);
        }
        Frequency { high: (val / 256) as u8, low: (val % 256) as u8 }
    }

    /// Derives the countdown for a target rate in Hz.
    ///
    /// Fails with [`FrequencyError::InvalidFrequency`] when the target is
    /// zero, when the countdown would be zero, or when it would not fit the
    /// 16-bit register pair; no byte pair is produced on those inputs.
    pub fn from_freq(val: u32) -> (r: Result<Frequency, FrequencyError>)
        ensures
            r is Ok <==> valid_target(val),
            (match r {
                Ok(f) => f == frequency_of_countdown(spec_countdown_for(val))
                    && f.spec_countdown() == spec_countdown_for(val) && f.well_formed(),
                Err(e) => e == FrequencyError::InvalidFrequency,
            }),
    {
        if val == 0 {
            return Err(FrequencyError::InvalidFrequency);
        }
        let countdown: u32 = PIT_OSCILLATOR_HZ / val;
        if countdown == 0 || countdown > MAX_COUNTDOWN as u32 {
            return Err(FrequencyError::InvalidFrequency);
        }
        Ok(Frequency::from_countdown(countdown as u16))
    }

    /// Reassembles the countdown from the byte pair.
    pub fn countdown(&self) -> (r: u16)
        ensures
            r == self.spec_countdown(),
    {
        (self.high as u16) * 256 + (self.low as u16)
    }
}

/// Law: for a programmable target rate whose division remainder is smaller
/// than twice its countdown, re-deriving the rate from the countdown lands
/// within one unit of the target. (The countdown truncates, so the
/// re-derived rate can only be equal or one higher.)
pub proof fn lemma_countdown_round_trip(f: u32)
    requires
        valid_target(f),
        (PIT_OSCILLATOR_HZ as int % f as int) < 2 * spec_countdown_for(f),
    ensures
        f <= PIT_OSCILLATOR_HZ as int / spec_countdown_for(f) <= f + 1,
{
    let n = PIT_OSCILLATOR_HZ as int;
    let fi = f as int;
    let c = n / fi;
    let r = n % fi;
    vstd::arithmetic::div_mod::lemma_fundamental_div_mod(n, fi);
    vstd::arithmetic::div_mod::lemma_mod_bound(n, fi);
    let c2 = n / c;
    let r2 = n % c;
    vstd::arithmetic::div_mod::lemma_fundamental_div_mod(n, c);
    vstd::arithmetic::div_mod::lemma_mod_bound(n, c);
    assert(fi <= c2 <= fi + 1) by (nonlinear_arith)
        requires
            n == fi * c + r,
            0 <= r < fi,
            r < 2 * c,
            n == c * c2 + r2,
            0 <= r2 < c,
            c >= 1,
            fi >= 1,
    ;
}

} // verus!
