//! The parameter model: the authoritative filter configuration and the
//! conversions between normalized control values and the raw values the
//! filter reads.
//!
//! All control values are fixed-point (see [`crate::fixed`]): a normalized
//! value of 1.0 is [`SCALE`]. The resonance control is scaled by four on the
//! way in and divided by four on the way out; drive by five. The pole control
//! exists twice, as a continuous value and as the derived output-tap index
//! `round(value * 3)` clamped to the four stages. Writing the index back
//! derives the continuous value as `index / 4`; the two maps are not inverses
//! of one another, and that asymmetry is kept deliberately, since hosts may
//! rely on either direction as it stands.
//!
//! The cutoff control is stored as the normalized knob value itself. The
//! exponential taper to hertz and the bilinear-transform coefficient `g`
//! derived from it are transcendental maps that the hosting layer computes;
//! it must re-derive them whenever it writes the knob or changes the sample
//! rate, which is also why changing the sample rate alone deliberately leaves
//! the stored cutoff untouched.

use vstd::prelude::*;

use crate::carnyx::CarnyxModel;
use crate::fixed::{clamp128, clamp_i64, tdiv, SCALE};
use crate::text::{dec_seq, fixed3_seq, format_fixed_3, u64_string};

verus! {

/// Half of [`SCALE`], the rounding offset of the pole-index derivation.
pub const HALF_SCALE: i64 = 500_000;

/// A quarter of [`SCALE`]: the continuous pole value derived for one step of
/// the output-tap index.
pub const QUARTER_SCALE: i64 = 250_000;

/// The shared filter configuration. One writer (host automation or the
/// editor) updates single fields at a time; the processing side reads them.
pub struct LadderShared {
    /// The normalized cutoff control, 1.0 at the top of the range.
    pub cutoff: i64,
    /// The sample rate in hertz, kept for the hosting layer's coefficient
    /// derivation. Changing it does not touch `cutoff`: the host must push
    /// the cutoff again afterwards, or its derived coefficient goes stale.
    pub sample_rate: u32,
    /// The resonance feedback amount: the normalized control times four.
    pub res: i64,
    /// The output-tap index, always one of the four stages.
    pub poles: usize,
    /// The continuous representation of the pole control, kept so the pole
    /// setting can also be read back as a normalized value.
    pub pole_value: i64,
    /// The drive amount: the normalized control times five.
    pub drive: i64,
}

/// The immutable value object an editor binds to: the four user-facing
/// values of a [`LadderShared`], compared by value to detect edits.
#[derive(Clone, Copy, Debug, PartialEq, Eq, Structural)]
pub struct LadderParametersSnap {
    /// The normalized cutoff control.
    pub cutoff: i64,
    /// The raw resonance amount (normalized control times four).
    pub res: i64,
    /// The output-tap index.
    pub poles: usize,
    /// The raw drive amount (normalized control times five).
    pub drive: i64,
}

/// The raw resonance stored for a normalized control value: four times the
/// value, saturated.
pub open spec fn res_raw_of(v: int) -> int {
    clamp_i64(4 * v)
}

/// The normalized resonance read back from the raw value.
pub open spec fn res_norm_of(raw: int) -> int {
    tdiv(raw, 4)
}

/// The raw drive stored for a normalized control value: five times the
/// value, saturated.
pub open spec fn drive_raw_of(v: int) -> int {
    clamp_i64(5 * v)
}

/// The normalized drive read back from the raw value.
pub open spec fn drive_norm_of(raw: int) -> int {
    tdiv(raw, 5)
}

/// The output-tap index derived from the continuous pole control:
/// `round(value * 3)`, clamped into the four stages. Values at or below zero
/// select the first stage.
pub open spec fn pole_index_of(v: int) -> int {
    if v <= 0 {
        0
    } else if (3 * v + HALF_SCALE as int) / (SCALE as int) >= 3 {
        3
    } else {
        (3 * v + HALF_SCALE as int) / (SCALE as int)
    }
}

/// The index clamped into the four stages, as the index setter stores it.
pub open spec fn pole_clamp(i: int) -> int {
    if i > 3 {
        3
    } else {
        i
    }
}

/// The continuous pole value derived when the index is set directly:
/// a quarter per step. This is deliberately not the inverse of
/// [`pole_index_of`].
pub open spec fn pole_value_of(i: int) -> int {
    QUARTER_SCALE as int * pole_clamp(i)
}

impl LadderShared {
    /// The output-tap index always addresses one of the four stages.
    pub open spec fn wf(&self) -> bool {
        self.poles <= 3
    }

    /// Stores the normalized cutoff control. The hosting layer derives the
    /// cutoff frequency and the filter coefficient from it afterwards.
    pub fn set_cutoff(&mut self, value: i64)
        ensures
            *final(self) == (LadderShared { cutoff: value, ..*old(self) }),
    {
        self.cutoff = value;
    }

    /// Reads back exactly the value the cutoff setter stored.
    pub fn get_cutoff(&self) -> (r: i64)
        ensures
            r == self.cutoff,
    {
        self.cutoff
    }

    /// Stores the continuous pole control and derives the output-tap index
    /// from it, always landing on one of the four stages.
    pub fn set_poles(&mut self, value: i64)
        ensures
            *final(self) == (LadderShared {
                pole_value: value,
                poles: pole_index_of(value as int) as usize,
                ..*old(self)
            }),
            final(self).wf(),
    {
        self.pole_value = value;
        if value <= 0 {
            self.poles = 0;
        } else {
            let t: i128 = 3 * (value as i128) + (HALF_SCALE as i128);
            let idx: i128 = t / (SCALE as i128);
            if idx >= 3 {
                self.poles = 3;
            } else {
                self.poles = idx as usize;
            }
        }
    }

    /// Sets the output-tap index directly, clamping it into the four stages,
    /// and derives the continuous pole value as a quarter per step.
    pub fn set_poles_usize(&mut self, value: usize)
        ensures
            *final(self) == (LadderShared {
                pole_value: pole_value_of(value as int) as i64,
                poles: pole_clamp(value as int) as usize,
                ..*old(self)
            }),
            final(self).wf(),
    {
        let v = if value > 3 {
            3
        } else {
            value
        };
        self.pole_value = (v as i64) * QUARTER_SCALE;
        self.poles = v;
    }

    /// Stores the sample rate. Deliberately leaves the stored cutoff and the
    /// other controls untouched: the hosting layer must push the cutoff again
    /// to refresh its derived coefficient.
    pub fn set_sample_rate(&mut self, rate: u32)
        ensures
            *final(self) == (LadderShared { sample_rate: rate, ..*old(self) }),
    {
        self.sample_rate = rate;
    }

    /// Writes one parameter by its index from a normalized control value:
    /// cutoff, resonance (scaled by four), pole control, drive (scaled by
    /// five). Any other index is ignored.
    pub fn set_parameter(&mut self, index: i32, value: i64)
        ensures
            index == 0 ==> *final(self) == (LadderShared { cutoff: value, ..*old(self) }),
            index == 1 ==> *final(self) == (LadderShared {
                res: res_raw_of(value as int) as i64,
                ..*old(self)
            }),
            index == 2 ==> *final(self) == (LadderShared {
                pole_value: value,
                poles: pole_index_of(value as int) as usize,
                ..*old(self)
            }),
            index == 3 ==> *final(self) == (LadderShared {
                drive: drive_raw_of(value as int) as i64,
                ..*old(self)
            }),
            !(0 <= index <= 3) ==> *final(self) == *old(self),
            old(self).wf() ==> final(self).wf(),
    {
        if index == 0 {
            self.set_cutoff(value);
        } else if index == 1 {
            self.res = clamp128(4 * (value as i128));
        } else if index == 2 {
            self.set_poles(value);
        } else if index == 3 {
            self.drive = clamp128(5 * (value as i128));
        }
    }

    /// The name of the parameter at an index, for the host's parameter list.
    /// Any other index names nothing.
    pub fn get_parameter_name(&self, index: i32) -> (r: String)
        ensures
            index == 0 ==> r@ == "cutoff"@,
            index == 1 ==> r@ == "resonance"@,
            index == 2 ==> r@ == "filter order"@,
            index == 3 ==> r@ == "drive"@,
            !(0 <= index <= 3) ==> r@ == ""@,
    {
        if index == 0 {
            "cutoff".to_owned()
        } else if index == 1 {
            "resonance".to_owned()
        } else if index == 2 {
            "filter order".to_owned()
        } else if index == 3 {
            "drive".to_owned()
        } else {
            "".to_owned()
        }
    }

    /// The unit label of the parameter at an index, for the host's parameter
    /// list. Any other index has no label.
    pub fn get_parameter_label(&self, index: i32) -> (r: String)
        ensures
            index == 0 ==> r@ == "Hz"@,
            index == 1 ==> r@ == "%"@,
            index == 2 ==> r@ == "poles"@,
            index == 3 ==> r@ == "%"@,
            !(0 <= index <= 3) ==> r@ == ""@,
    {
        if index == 0 {
            "Hz".to_owned()
        } else if index == 1 {
            "%".to_owned()
        } else if index == 2 {
            "poles".to_owned()
        } else if index == 3 {
            "%".to_owned()
        } else {
            "".to_owned()
        }
    }

    /// The human-readable value of the parameter at an index: the raw
    /// resonance and drive to three decimal places, and the pole count (one
    /// above the tap index). The cutoff text is empty here, since displaying
    /// it in hertz takes the transcendental taper that belongs to the hosting
    /// layer; an index outside the list is empty too.
    pub fn get_parameter_text(&self, index: i32) -> (r: String)
        requires
            self.wf(),
        ensures
            index == 1 ==> r@ == fixed3_seq(self.res as int),
            index == 2 ==> r@ == dec_seq((self.poles + 1) as nat),
            index == 3 ==> r@ == fixed3_seq(self.drive as int),
            !(1 <= index <= 3) ==> r@ == ""@,
    {
        if index == 1 {
            format_fixed_3(self.res)
        } else if index == 2 {
            u64_string((self.poles as u64) + 1)
        } else if index == 3 {
            format_fixed_3(self.drive)
        } else {
            "".to_owned()
        }
    }

    /// Reads one parameter by its index as a normalized control value: the
    /// getters invert the setters' scaling. Any other index reads zero.
    pub fn get_parameter(&self, index: i32) -> (r: i64)
        ensures
            index == 0 ==> r == self.cutoff,
            index == 1 ==> r as int == res_norm_of(self.res as int),
            index == 2 ==> r == self.pole_value,
            index == 3 ==> r as int == drive_norm_of(self.drive as int),
            !(0 <= index <= 3) ==> r == 0,
    {
        if index == 0 {
            self.get_cutoff()
        } else if index == 1 {
            self.res / 4
        } else if index == 2 {
            self.pole_value
        } else if index == 3 {
            self.drive / 5
        } else {
            0
        }
    }
}

impl Default for LadderShared {
    /// The configuration a fresh filter starts from: a cutoff knob sitting at
    /// 1 kHz under the hosting layer's taper, moderate resonance, the last
    /// stage as output tap, no drive, and a 44.1 kHz sample rate.
    fn default() -> (d: LadderShared)
        ensures
            d == (LadderShared {
                cutoff: 490_337i64,
                sample_rate: 44_100u32,
                res: 2_000_000i64,
                poles: 3usize,
                pole_value: 1_000_000i64,
                drive: 0i64,
            }),
            d.wf(),
    {
        LadderShared {
            cutoff: 490_337,
            sample_rate: 44_100,
            res: 2_000_000,
            poles: 3,
            pole_value: 1_000_000,
            drive: 0,
        }
    }
}

impl CarnyxModel for LadderShared {
    type Snap = LadderParametersSnap;

    open spec fn snap_spec(&self) -> LadderParametersSnap {
        LadderParametersSnap {
            cutoff: self.cutoff,
            res: self.res,
            poles: self.poles,
            drive: self.drive,
        }
    }

    open spec fn restored(&self, snap: &LadderParametersSnap) -> LadderShared {
        LadderShared {
            cutoff: snap.cutoff,
            res: snap.res,
            poles: pole_clamp(snap.poles as int) as usize,
            pole_value: pole_value_of(snap.poles as int) as i64,
            drive: snap.drive,
            sample_rate: self.sample_rate,
        }
    }

    /// Copies the four user-facing values out for editor binding.
    fn snap(&self) -> (s: LadderParametersSnap) {
        LadderParametersSnap {
            cutoff: self.get_cutoff(),
            res: self.res,
            poles: self.poles,
            drive: self.drive,
        }
    }

    /// Writes an edited snapshot back through the setters, so the pole index
    /// is clamped and the continuous pole value re-derived on the way in.
    fn set_snap(&mut self, snap: &LadderParametersSnap) {
        self.set_cutoff(snap.cutoff);
        self.res = snap.res;
        self.set_poles_usize(snap.poles);
        self.drive = snap.drive;
    }
}

/// Resonance reads back exactly the normalized value that was set, for any
/// control value in the normalized range: the two scalings by four cancel
/// without rounding.
pub proof fn lemma_resonance_round_trip(v: int)
    requires
        0 <= v <= SCALE as int,
    ensures
        res_norm_of(res_raw_of(v)) == v,
{
}

/// Drive reads back exactly the normalized value that was set, for any
/// control value in the normalized range: the two scalings by five cancel
/// without rounding.
pub proof fn lemma_drive_round_trip(v: int)
    requires
        0 <= v <= SCALE as int,
    ensures
        drive_norm_of(drive_raw_of(v)) == v,
{
}

/// The cutoff control reads back exactly the value that was set, for every
/// value: the model stores the normalized knob itself.
pub proof fn lemma_cutoff_round_trip(m: LadderShared, v: i64)
    ensures
        (LadderShared { cutoff: v, ..m }).cutoff == v,
{
}

/// Restoring a model's own snapshot keeps every user-facing value: the
/// snapshot taken afterwards equals the one written back. (The stored model
/// itself is not kept bit for bit: the continuous pole value is re-derived
/// from the index on the way in, by design, since edits come back through
/// the setters.)
pub proof fn lemma_snapshot_restore_stable(m: LadderShared)
    requires
        m.wf(),
    ensures
        m.restored(&m.snap_spec()).snap_spec() == m.snap_spec(),
{
}

/// Restoring is idempotent: once a snapshot has been written back, writing
/// back the model's own snapshot again changes nothing at all.
pub proof fn lemma_restore_idempotent(m: LadderShared, s: LadderParametersSnap)
    ensures
        ({
            let once = m.restored(&s);
            once.restored(&once.snap_spec()) == once
        }),
{
}

/// The derived output-tap index lands on one of the four stages for every
/// continuous control value whatsoever.
pub proof fn lemma_pole_index_in_range(v: int)
    ensures
        0 <= pole_index_of(v) <= 3,
{
    if v > 0 {
        assert(3 * v + HALF_SCALE as int > 0);
        assert((3 * v + HALF_SCALE as int) / (SCALE as int) >= 0);
    }
}

/// Setting the output-tap index directly also lands on one of the four
/// stages for every requested index, clamping to the nearest bound.
pub proof fn lemma_pole_clamp_in_range(i: int)
    requires
        i >= 0,
    ensures
        0 <= pole_clamp(i) <= 3,
{
}

} // verus!
