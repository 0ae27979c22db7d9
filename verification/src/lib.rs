//! A four-stage ("ladder") low-pass filter with resonance and drive, together
//! with the parameter model and the change-notification bridge that let a
//! host and an editor drive it.
//!
//! All control values and audio samples are held in a signed fixed-point
//! format with one million units to 1.0 (see [`fixed`]), so that every
//! conversion and every step of the filter recurrence has an exact
//! mathematical statement. The two maps that are irreducibly transcendental
//! (the cutoff-knob-to-hertz taper and the saturating nonlinearity used for
//! the fixed-pivot coefficients) are left to the unverified host adapter,
//! which hands their results in as plain fixed-point values.

pub mod carnyx;
pub mod filter;
pub mod fixed;
pub mod params;
pub mod text;
