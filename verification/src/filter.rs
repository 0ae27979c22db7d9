//! The four-stage ladder filter core.
//!
//! One call of [`LadderProcessor::tick_pivotal`] computes one output sample
//! from one input sample: it solves the instantaneous (zero-delay) feedback
//! loop of four cascaded one-pole stages in closed form, then advances the
//! trapezoidal integrator state `s[i] = 2*vout[i] - s[i]`.
//!
//! Two closed forms exist. The linear one is used when `drive` is zero. The
//! nonlinear one linearizes the saturating nonlinearity around the current
//! state (the fixed-pivot method): for each of the five nodes (the driven
//! input and the four states) the caller supplies a pivot coefficient, which
//! for a node value `x` is 1 when `x` is zero and otherwise `sat(x)/x` for
//! the saturator `sat`. Computing `sat` itself is transcendental work that
//! the hosting layer does; everything after it is verified here.

use vstd::prelude::*;

use crate::fixed::{fx_add, fx_add_s, fx_div, fx_div_s, fx_mul, fx_mul_s, fx_sub, fx_sub_s};
use crate::fixed::{lemma_fx_div_nonneg, lemma_fx_div_zero, lemma_fx_mul_nonneg, lemma_fx_mul_zero};
use crate::fixed::SCALE;

verus! {

/// The input gain added to `drive` before the nonlinear path: 0.7 in fixed
/// point, so a drive just above zero still pushes signal into the saturator.
pub const DRIVE_GAIN_BASE: i64 = 700_000;

/// The per-stage output voltages and integrator states of the filter.
pub struct LadderProcessor {
    /// The output of each of the four cascaded stages, recomputed per sample.
    pub vout: [i64; 4],
    /// The trapezoidal integrator state of each stage.
    pub s: [i64; 4],
}

/// The integrator states of a processor, as mathematical integers.
pub open spec fn state_of(p: LadderProcessor) -> (int, int, int, int) {
    (p.s@[0] as int, p.s@[1] as int, p.s@[2] as int, p.s@[3] as int)
}

/// The stage outputs of a processor, as mathematical integers.
pub open spec fn vout_of(p: LadderProcessor) -> (int, int, int, int) {
    (p.vout@[0] as int, p.vout@[1] as int, p.vout@[2] as int, p.vout@[3] as int)
}

/// One trapezoidal integrator update: the new state is `2*vout - s`.
pub open spec fn next_s(v: int, s: int) -> int {
    fx_sub_s(fx_add_s(v, v), s)
}

/// The integrator update applied to all four stages.
pub open spec fn step_state(v: (int, int, int, int), s: (int, int, int, int)) -> (
    int,
    int,
    int,
    int,
) {
    (next_s(v.0, s.0), next_s(v.1, s.1), next_s(v.2, s.2), next_s(v.3, s.3))
}

/// The closed-form solution of the linear feedback loop: stage denominators
/// `g0..g3`, then the last stage's output from the feedback equation, then
/// back-substitution for the first three stages.
pub open spec fn lin_vout(g: int, res: int, x: int, s: (int, int, int, int)) -> (
    int,
    int,
    int,
    int,
) {
    let one = SCALE as int;
    let g0 = fx_div_s(one, fx_add_s(one, g));
    let g1 = fx_mul_s(fx_mul_s(g, g0), g0);
    let g2 = fx_mul_s(fx_mul_s(g, g1), g0);
    let g3 = fx_mul_s(fx_mul_s(g, g2), g0);
    let num = fx_add_s(
        fx_add_s(
            fx_add_s(fx_add_s(fx_mul_s(fx_mul_s(g3, g), x), fx_mul_s(g0, s.3)), fx_mul_s(g1, s.2)),
            fx_mul_s(g2, s.1),
        ),
        fx_mul_s(g3, s.0),
    );
    let den = fx_add_s(fx_mul_s(fx_mul_s(g3, g), res), one);
    let v3 = fx_div_s(num, den);
    let v0 = fx_mul_s(g0, fx_add_s(fx_mul_s(g, fx_sub_s(x, fx_mul_s(res, v3))), s.0));
    let v1 = fx_mul_s(g0, fx_add_s(fx_mul_s(g, v0), s.1));
    let v2 = fx_mul_s(g0, fx_add_s(fx_mul_s(g, v1), s.2));
    (v0, v1, v2, v3)
}

/// The closed-form solution of the nonlinear feedback loop under the
/// fixed-pivot linearization `a = (a0..a4)` of the saturator at the five
/// nodes: per-stage denominators `g0..g3`, forward-coupling factors `f0..f3`,
/// the last stage's output, then back-substitution.
pub open spec fn nl_vout(
    g: int,
    res: int,
    x: int,
    a: (int, int, int, int, int),
    s: (int, int, int, int),
) -> (int, int, int, int) {
    let one = SCALE as int;
    let g0 = fx_div_s(one, fx_add_s(one, fx_mul_s(g, a.1)));
    let g1 = fx_div_s(one, fx_add_s(one, fx_mul_s(g, a.2)));
    let g2 = fx_div_s(one, fx_add_s(one, fx_mul_s(g, a.3)));
    let g3 = fx_div_s(one, fx_add_s(one, fx_mul_s(g, a.4)));
    let f3 = fx_mul_s(fx_mul_s(g, a.3), g3);
    let f2 = fx_mul_s(fx_mul_s(fx_mul_s(g, a.2), g2), f3);
    let f1 = fx_mul_s(fx_mul_s(fx_mul_s(g, a.1), g1), f2);
    let f0 = fx_mul_s(fx_mul_s(g, g0), f1);
    let num = fx_add_s(
        fx_add_s(
            fx_add_s(
                fx_add_s(fx_mul_s(fx_mul_s(f0, x), a.0), fx_mul_s(fx_mul_s(f1, g0), s.0)),
                fx_mul_s(fx_mul_s(f2, g1), s.1),
            ),
            fx_mul_s(fx_mul_s(f3, g2), s.2),
        ),
        fx_mul_s(g3, s.3),
    );
    let den = fx_add_s(fx_mul_s(fx_mul_s(f0, res), a.3), one);
    let v3 = fx_div_s(num, den);
    let v0 = fx_mul_s(
        g0,
        fx_add_s(
            fx_mul_s(
                fx_mul_s(g, a.1),
                fx_sub_s(fx_mul_s(x, a.0), fx_mul_s(fx_mul_s(res, a.3), v3)),
            ),
            s.0,
        ),
    );
    let v1 = fx_mul_s(g1, fx_add_s(fx_mul_s(fx_mul_s(g, a.2), v0), s.1));
    let v2 = fx_mul_s(g2, fx_add_s(fx_mul_s(fx_mul_s(g, a.3), v1), s.2));
    (v0, v1, v2, v3)
}

/// The gain applied to the input before the nonlinear path: `drive + 0.7`.
pub open spec fn drive_gain(drive: int) -> int {
    fx_add_s(drive, DRIVE_GAIN_BASE as int)
}

/// The input sample as the nonlinear path sees it: `x * (drive + 0.7)`.
pub open spec fn driven_input_s(x: int, drive: int) -> int {
    fx_mul_s(x, drive_gain(drive))
}

/// One whole sample tick: the nonlinear closed form on the driven input when
/// `drive` is positive, the linear closed form otherwise.
pub open spec fn tick_vout(
    g: int,
    res: int,
    drive: int,
    x: int,
    a: (int, int, int, int, int),
    s: (int, int, int, int),
) -> (int, int, int, int) {
    if drive > 0 {
        nl_vout(g, res, driven_input_s(x, drive), a, s)
    } else {
        lin_vout(g, res, x, s)
    }
}

/// The stage output selected by the pole setting.
pub open spec fn tap(v: (int, int, int, int), pole: int) -> int {
    if pole == 0 {
        v.0
    } else if pole == 1 {
        v.1
    } else if pole == 2 {
        v.2
    } else {
        v.3
    }
}

/// A sequence of samples as mathematical integers.
pub open spec fn seq_int(s: Seq<i64>) -> Seq<int> {
    s.map_values(|x: i64| x as int)
}

/// The integrator state after running the linear path over a whole sequence
/// of input samples, starting from state `s`.
pub open spec fn lin_state_seq(g: int, res: int, s: (int, int, int, int), xs: Seq<int>) -> (
    int,
    int,
    int,
    int,
)
    decreases xs.len(),
{
    if xs.len() == 0 {
        s
    } else {
        let prev = lin_state_seq(g, res, s, xs.drop_last());
        step_state(lin_vout(g, res, xs.last(), prev), prev)
    }
}

/// The stage outputs after running the linear path over a whole sequence of
/// input samples: unchanged from `v0` when the sequence is empty.
pub open spec fn lin_vout_seq(
    g: int,
    res: int,
    s: (int, int, int, int),
    xs: Seq<int>,
    v0: (int, int, int, int),
) -> (int, int, int, int) {
    if xs.len() == 0 {
        v0
    } else {
        lin_vout(g, res, xs.last(), lin_state_seq(g, res, s, xs.drop_last()))
    }
}

/// The output samples produced by running the linear path over a whole
/// sequence of input samples, taking the stage selected by `pole`.
pub open spec fn lin_out_seq(
    g: int,
    res: int,
    s: (int, int, int, int),
    xs: Seq<int>,
    pole: int,
) -> Seq<int>
    decreases xs.len(),
{
    if xs.len() == 0 {
        Seq::empty()
    } else {
        let prev = lin_state_seq(g, res, s, xs.drop_last());
        lin_out_seq(g, res, s, xs.drop_last(), pole).push(
            tap(lin_vout(g, res, xs.last(), prev), pole),
        )
    }
}

impl LadderProcessor {
    /// A freshly constructed filter is silent: all voltages and states zero.
    pub fn new() -> (p: LadderProcessor)
        ensures
            state_of(p) == (0int, 0int, 0int, 0int),
            vout_of(p) == (0int, 0int, 0int, 0int),
    {
        LadderProcessor { vout: [0i64, 0i64, 0i64, 0i64], s: [0i64, 0i64, 0i64, 0i64] }
    }

    /// The current integrator state, which the hosting layer reads to compute
    /// the pivot coefficients for the nonlinear path.
    pub fn state(&self) -> (s: [i64; 4])
        ensures
            s == self.s,
    {
        [self.s[0], self.s[1], self.s[2], self.s[3]]
    }

    /// The stage output selected by the pole setting, the sample the filter
    /// emits after a tick.
    pub fn output(&self, pole: usize) -> (r: i64)
        requires
            pole < 4,
        ensures
            r as int == tap(vout_of(*self), pole as int),
    {
        self.vout[pole]
    }

    /// Advances the trapezoidal integrators after the stage outputs of a
    /// sample have been computed: `s[i] = 2*vout[i] - s[i]`.
    fn update_state(&mut self)
        ensures
            state_of(*final(self)) == step_state(vout_of(*old(self)), state_of(*old(self))),
            final(self).vout == old(self).vout,
    {
        let n0 = fx_sub(fx_add(self.vout[0], self.vout[0]), self.s[0]);
        let n1 = fx_sub(fx_add(self.vout[1], self.vout[1]), self.s[1]);
        let n2 = fx_sub(fx_add(self.vout[2], self.vout[2]), self.s[2]);
        let n3 = fx_sub(fx_add(self.vout[3], self.vout[3]), self.s[3]);
        self.s[0] = n0;
        self.s[1] = n1;
        self.s[2] = n2;
        self.s[3] = n3;
    }

    /// The linear closed form: computes the four stage outputs for one input
    /// sample without touching the integrator state.
    pub fn run_ladder_linear(&mut self, g: i64, res: i64, input: i64)
        requires
            g >= 0,
            res >= 0,
        ensures
            vout_of(*final(self)) == lin_vout(g as int, res as int, input as int, state_of(
                *old(self),
            )),
            final(self).s == old(self).s,
    {
        let one = SCALE;
        let d = fx_add(one, g);
        let g0 = fx_div(one, d);
        proof {
            lemma_fx_div_nonneg(one as int, d as int);
        }
        let gg0 = fx_mul(g, g0);
        let g1 = fx_mul(gg0, g0);
        proof {
            lemma_fx_mul_nonneg(g as int, g0 as int);
            lemma_fx_mul_nonneg(gg0 as int, g0 as int);
        }
        let g2 = fx_mul(fx_mul(g, g1), g0);
        proof {
            lemma_fx_mul_nonneg(g as int, g1 as int);
            lemma_fx_mul_nonneg(fx_mul_s(g as int, g1 as int), g0 as int);
        }
        let g3 = fx_mul(fx_mul(g, g2), g0);
        proof {
            lemma_fx_mul_nonneg(g as int, g2 as int);
            lemma_fx_mul_nonneg(fx_mul_s(g as int, g2 as int), g0 as int);
        }
        let g3g = fx_mul(g3, g);
        proof {
            lemma_fx_mul_nonneg(g3 as int, g as int);
            lemma_fx_mul_nonneg(g3g as int, res as int);
        }
        let num = fx_add(
            fx_add(
                fx_add(fx_add(fx_mul(g3g, input), fx_mul(g0, self.s[3])), fx_mul(g1, self.s[2])),
                fx_mul(g2, self.s[1]),
            ),
            fx_mul(g3, self.s[0]),
        );
        let den = fx_add(fx_mul(g3g, res), one);
        let v3 = fx_div(num, den);
        let v0 = fx_mul(g0, fx_add(fx_mul(g, fx_sub(input, fx_mul(res, v3))), self.s[0]));
        let v1 = fx_mul(g0, fx_add(fx_mul(g, v0), self.s[1]));
        let v2 = fx_mul(g0, fx_add(fx_mul(g, v1), self.s[2]));
        self.vout[0] = v0;
        self.vout[1] = v1;
        self.vout[2] = v2;
        self.vout[3] = v3;
    }

    /// The nonlinear closed form: computes the four stage outputs for one
    /// driven input sample under the pivot coefficients `a`, without touching
    /// the integrator state.
    pub fn run_ladder_nonlinear(&mut self, g: i64, res: i64, input: i64, a: [i64; 5])
        requires
            g >= 0,
            res >= 0,
            a@[0] >= 0,
            a@[1] >= 0,
            a@[2] >= 0,
            a@[3] >= 0,
            a@[4] >= 0,
        ensures
            vout_of(*final(self)) == nl_vout(
                g as int,
                res as int,
                input as int,
                (a@[0] as int, a@[1] as int, a@[2] as int, a@[3] as int, a@[4] as int),
                state_of(*old(self)),
            ),
            final(self).s == old(self).s,
    {
        let one = SCALE;
        proof {
            lemma_fx_mul_nonneg(g as int, a@[1] as int);
            lemma_fx_mul_nonneg(g as int, a@[2] as int);
            lemma_fx_mul_nonneg(g as int, a@[3] as int);
            lemma_fx_mul_nonneg(g as int, a@[4] as int);
        }
        let g0 = fx_div(one, fx_add(one, fx_mul(g, a[1])));
        let g1 = fx_div(one, fx_add(one, fx_mul(g, a[2])));
        let g2 = fx_div(one, fx_add(one, fx_mul(g, a[3])));
        let g3 = fx_div(one, fx_add(one, fx_mul(g, a[4])));
        proof {
            lemma_fx_div_nonneg(one as int, fx_add_s(one as int, fx_mul_s(g as int, a@[1] as int)));
            lemma_fx_div_nonneg(one as int, fx_add_s(one as int, fx_mul_s(g as int, a@[2] as int)));
            lemma_fx_div_nonneg(one as int, fx_add_s(one as int, fx_mul_s(g as int, a@[3] as int)));
            lemma_fx_div_nonneg(one as int, fx_add_s(one as int, fx_mul_s(g as int, a@[4] as int)));
        }
        let ga3 = fx_mul(g, a[3]);
        let f3 = fx_mul(ga3, g3);
        let f2 = fx_mul(fx_mul(fx_mul(g, a[2]), g2), f3);
        let f1 = fx_mul(fx_mul(fx_mul(g, a[1]), g1), f2);
        let gg0 = fx_mul(g, g0);
        let f0 = fx_mul(gg0, f1);
        proof {
            lemma_fx_mul_nonneg(ga3 as int, g3 as int);
            lemma_fx_mul_nonneg(fx_mul_s(g as int, a@[2] as int), g2 as int);
            lemma_fx_mul_nonneg(fx_mul_s(fx_mul_s(g as int, a@[2] as int), g2 as int), f3 as int);
            lemma_fx_mul_nonneg(fx_mul_s(g as int, a@[1] as int), g1 as int);
            lemma_fx_mul_nonneg(fx_mul_s(fx_mul_s(g as int, a@[1] as int), g1 as int), f2 as int);
            lemma_fx_mul_nonneg(g as int, g0 as int);
            lemma_fx_mul_nonneg(gg0 as int, f1 as int);
            lemma_fx_mul_nonneg(f0 as int, res as int);
            lemma_fx_mul_nonneg(fx_mul_s(f0 as int, res as int), a@[3] as int);
        }
        let num = fx_add(
            fx_add(
                fx_add(
                    fx_add(fx_mul(fx_mul(f0, input), a[0]), fx_mul(fx_mul(f1, g0), self.s[0])),
                    fx_mul(fx_mul(f2, g1), self.s[1]),
                ),
                fx_mul(fx_mul(f3, g2), self.s[2]),
            ),
            fx_mul(g3, self.s[3]),
        );
        let den = fx_add(fx_mul(fx_mul(f0, res), a[3]), one);
        let v3 = fx_div(num, den);
        let v0 = fx_mul(
            g0,
            fx_add(
                fx_mul(fx_mul(g, a[1]), fx_sub(fx_mul(input, a[0]), fx_mul(fx_mul(res, a[3]), v3))),
                self.s[0],
            ),
        );
        let v1 = fx_mul(g1, fx_add(fx_mul(fx_mul(g, a[2]), v0), self.s[1]));
        let v2 = fx_mul(g2, fx_add(fx_mul(fx_mul(g, a[3]), v1), self.s[2]));
        self.vout[0] = v0;
        self.vout[1] = v1;
        self.vout[2] = v2;
        self.vout[3] = v3;
    }

    /// The input sample as the nonlinear path sees it, `input * (drive + 0.7)`.
    /// The hosting layer calls this before computing the pivot coefficient of
    /// the input node, so that the coefficient matches the value the tick uses.
    pub fn driven_input(input: i64, drive: i64) -> (r: i64)
        ensures
            r as int == driven_input_s(input as int, drive as int),
    {
        fx_mul(input, fx_add(drive, DRIVE_GAIN_BASE))
    }

    /// One complete sample: dispatches on `drive` between the nonlinear and
    /// the linear closed form, then advances the integrator state. The pivot
    /// coefficients `a` are consulted only on the nonlinear path.
    pub fn tick_pivotal(&mut self, input: i64, g: i64, res: i64, drive: i64, a: [i64; 5])
        requires
            g >= 0,
            res >= 0,
            a@[0] >= 0,
            a@[1] >= 0,
            a@[2] >= 0,
            a@[3] >= 0,
            a@[4] >= 0,
        ensures
            ({
                let v = tick_vout(
                    g as int,
                    res as int,
                    drive as int,
                    input as int,
                    (a@[0] as int, a@[1] as int, a@[2] as int, a@[3] as int, a@[4] as int),
                    state_of(*old(self)),
                );
                vout_of(*final(self)) == v && state_of(*final(self)) == step_state(
                    v,
                    state_of(*old(self)),
                )
            }),
    {
        if drive > 0 {
            let driven = LadderProcessor::driven_input(input, drive);
            self.run_ladder_nonlinear(g, res, driven, a);
        } else {
            self.run_ladder_linear(g, res, input);
        }
        self.update_state();
    }

    /// Runs the linear path over a whole buffer (the processing loop used
    /// while `drive` is zero), returning one output sample per input sample
    /// and carrying the integrator state across calls.
    pub fn process_linear(&mut self, g: i64, res: i64, pole: usize, input: &Vec<i64>) -> (output:
        Vec<i64>)
        requires
            g >= 0,
            res >= 0,
            pole < 4,
        ensures
            output@.len() == input@.len(),
            seq_int(output@) == lin_out_seq(
                g as int,
                res as int,
                state_of(*old(self)),
                seq_int(input@),
                pole as int,
            ),
            state_of(*final(self)) == lin_state_seq(
                g as int,
                res as int,
                state_of(*old(self)),
                seq_int(input@),
            ),
            vout_of(*final(self)) == lin_vout_seq(
                g as int,
                res as int,
                state_of(*old(self)),
                seq_int(input@),
                vout_of(*old(self)),
            ),
    {
        let ghost xs = seq_int(input@);
        let ghost s0 = state_of(*old(self));
        let ghost v0 = vout_of(*old(self));
        let mut output: Vec<i64> = Vec::new();
        let n = input.len();
        let mut i: usize = 0;
        while i < n
            invariant
                i <= n,
                n == input@.len(),
                g >= 0,
                res >= 0,
                pole < 4,
                xs == seq_int(input@),
                output@.len() == i,
                state_of(*self) == lin_state_seq(g as int, res as int, s0, xs.take(i as int)),
                vout_of(*self) == lin_vout_seq(g as int, res as int, s0, xs.take(i as int), v0),
                seq_int(output@) == lin_out_seq(g as int, res as int, s0, xs.take(i as int), pole
                    as int),
            decreases n - i,
        {
            let ghost prev = state_of(*self);
            let x = input[i];
            self.run_ladder_linear(g, res, x);
            let out = self.output(pole);
            self.update_state();
            output.push(out);
            proof {
                assert(xs.take(i + 1).drop_last() =~= xs.take(i as int));
                assert(xs.take(i + 1).last() == xs[i as int]);
                assert(seq_int(output@) =~= lin_out_seq(
                    g as int,
                    res as int,
                    s0,
                    xs.take(i + 1),
                    pole as int,
                ));
            }
            i = i + 1;
        }
        proof {
            assert(xs.take(n as int) =~= xs);
        }
        output
    }
}

/// Feeding silence into a silent linear filter yields silence: with zero
/// input and zero state, every stage output of the linear closed form is
/// zero, for any nonnegative coefficient and resonance.
pub proof fn lemma_lin_vout_silent(g: int, res: int)
    requires
        g >= 0,
        res >= 0,
    ensures
        lin_vout(g, res, 0, (0int, 0int, 0int, 0int)) == (0int, 0int, 0int, 0int),
{
    let one = SCALE as int;
    let g0 = fx_div_s(one, fx_add_s(one, g));
    let g1 = fx_mul_s(fx_mul_s(g, g0), g0);
    let g2 = fx_mul_s(fx_mul_s(g, g1), g0);
    let g3 = fx_mul_s(fx_mul_s(g, g2), g0);
    let g3g = fx_mul_s(g3, g);
    lemma_fx_div_nonneg(one, fx_add_s(one, g));
    lemma_fx_mul_nonneg(g, g0);
    lemma_fx_mul_nonneg(fx_mul_s(g, g0), g0);
    lemma_fx_mul_nonneg(g, g1);
    lemma_fx_mul_nonneg(fx_mul_s(g, g1), g0);
    lemma_fx_mul_nonneg(g, g2);
    lemma_fx_mul_nonneg(fx_mul_s(g, g2), g0);
    lemma_fx_mul_nonneg(g3, g);
    lemma_fx_mul_nonneg(g3g, res);
    // every numerator term multiplies a zero input or a zero state
    lemma_fx_mul_zero(g3g);
    lemma_fx_mul_zero(g0);
    lemma_fx_mul_zero(g1);
    lemma_fx_mul_zero(g2);
    lemma_fx_mul_zero(g3);
    lemma_fx_mul_zero(res);
    lemma_fx_mul_zero(g);
    let den = fx_add_s(fx_mul_s(g3g, res), one);
    lemma_fx_div_zero(den);
}

/// The nonlinear closed form also fixes the origin: with zero input and zero
/// state, every stage output is zero, whatever nonnegative pivot coefficients
/// the saturator produced.
pub proof fn lemma_nl_vout_silent(g: int, res: int, a: (int, int, int, int, int))
    requires
        g >= 0,
        res >= 0,
        a.0 >= 0,
        a.1 >= 0,
        a.2 >= 0,
        a.3 >= 0,
        a.4 >= 0,
    ensures
        nl_vout(g, res, 0, a, (0int, 0int, 0int, 0int)) == (0int, 0int, 0int, 0int),
{
    let one = SCALE as int;
    lemma_fx_mul_nonneg(g, a.1);
    lemma_fx_mul_nonneg(g, a.2);
    lemma_fx_mul_nonneg(g, a.3);
    lemma_fx_mul_nonneg(g, a.4);
    let g0 = fx_div_s(one, fx_add_s(one, fx_mul_s(g, a.1)));
    let g1 = fx_div_s(one, fx_add_s(one, fx_mul_s(g, a.2)));
    let g2 = fx_div_s(one, fx_add_s(one, fx_mul_s(g, a.3)));
    let g3 = fx_div_s(one, fx_add_s(one, fx_mul_s(g, a.4)));
    lemma_fx_div_nonneg(one, fx_add_s(one, fx_mul_s(g, a.1)));
    lemma_fx_div_nonneg(one, fx_add_s(one, fx_mul_s(g, a.2)));
    lemma_fx_div_nonneg(one, fx_add_s(one, fx_mul_s(g, a.3)));
    lemma_fx_div_nonneg(one, fx_add_s(one, fx_mul_s(g, a.4)));
    let f3 = fx_mul_s(fx_mul_s(g, a.3), g3);
    let f2 = fx_mul_s(fx_mul_s(fx_mul_s(g, a.2), g2), f3);
    let f1 = fx_mul_s(fx_mul_s(fx_mul_s(g, a.1), g1), f2);
    let f0 = fx_mul_s(fx_mul_s(g, g0), f1);
    lemma_fx_mul_nonneg(fx_mul_s(g, a.3), g3);
    lemma_fx_mul_nonneg(fx_mul_s(g, a.2), g2);
    lemma_fx_mul_nonneg(fx_mul_s(fx_mul_s(g, a.2), g2), f3);
    lemma_fx_mul_nonneg(fx_mul_s(g, a.1), g1);
    lemma_fx_mul_nonneg(fx_mul_s(fx_mul_s(g, a.1), g1), f2);
    lemma_fx_mul_nonneg(g, g0);
    lemma_fx_mul_nonneg(fx_mul_s(g, g0), f1);
    lemma_fx_mul_nonneg(f0, res);
    lemma_fx_mul_nonneg(fx_mul_s(f0, res), a.3);
    // every numerator term multiplies the zero input or a zero state
    lemma_fx_mul_zero(f0);
    lemma_fx_mul_zero(a.0);
    lemma_fx_mul_zero(fx_mul_s(f1, g0));
    lemma_fx_mul_zero(fx_mul_s(f2, g1));
    lemma_fx_mul_zero(fx_mul_s(f3, g2));
    lemma_fx_mul_zero(g3);
    let den = fx_add_s(fx_mul_s(fx_mul_s(f0, res), a.3), one);
    lemma_fx_div_zero(den);
    // back-substitution: each remaining factor multiplies a zero
    lemma_fx_mul_zero(fx_mul_s(res, a.3));
    lemma_fx_mul_zero(fx_mul_s(g, a.1));
    lemma_fx_mul_zero(g0);
    lemma_fx_mul_zero(fx_mul_s(g, a.2));
    lemma_fx_mul_zero(g1);
    lemma_fx_mul_zero(fx_mul_s(g, a.3));
    lemma_fx_mul_zero(g2);
}

/// A silent filter stays silent for one whole tick, on either path: with
/// zero input and zero state the stage outputs and the advanced state are
/// all zero, for any drive and any nonnegative pivot coefficients.
pub proof fn lemma_tick_silent(g: int, res: int, drive: int, a: (int, int, int, int, int))
    requires
        g >= 0,
        res >= 0,
        a.0 >= 0,
        a.1 >= 0,
        a.2 >= 0,
        a.3 >= 0,
        a.4 >= 0,
    ensures
        tick_vout(g, res, drive, 0, a, (0int, 0int, 0int, 0int)) == (0int, 0int, 0int, 0int),
        step_state((0int, 0int, 0int, 0int), (0int, 0int, 0int, 0int)) == (
            0int,
            0int,
            0int,
            0int,
        ),
{
    if drive > 0 {
        lemma_fx_mul_zero(drive_gain(drive));
        lemma_nl_vout_silent(g, res, a);
    } else {
        lemma_lin_vout_silent(g, res);
    }
}

/// At the branch between the two paths, on silence the paths agree exactly:
/// a tick with any positive drive and a tick with drive at zero both emit
/// zero from the zero state. (On a nonzero input the nonlinear path keeps
/// its `drive + 0.7` input gain however small the drive, so the two paths
/// agree at the boundary only on silence.)
pub proof fn lemma_drive_boundary_silent(g: int, res: int, drive: int, a: (
    int,
    int,
    int,
    int,
    int,
))
    requires
        g >= 0,
        res >= 0,
        drive > 0,
        a.0 >= 0,
        a.1 >= 0,
        a.2 >= 0,
        a.3 >= 0,
        a.4 >= 0,
    ensures
        tick_vout(g, res, drive, 0, a, (0int, 0int, 0int, 0int)) == tick_vout(
            g,
            res,
            0,
            0,
            a,
            (0int, 0int, 0int, 0int),
        ),
{
    lemma_tick_silent(g, res, drive, a);
    lemma_tick_silent(g, res, 0, a);
}

/// Silence invariance of the processing loop: an all-zero input buffer fed
/// to a filter in the zero state produces an all-zero output buffer and
/// leaves the state zero, for any nonnegative coefficient and resonance and
/// any pole selection.
pub proof fn lemma_process_silent(g: int, res: int, pole: int, xs: Seq<int>)
    requires
        g >= 0,
        res >= 0,
        0 <= pole < 4,
        forall|i: int| 0 <= i < xs.len() ==> xs[i] == 0,
    ensures
        lin_state_seq(g, res, (0int, 0int, 0int, 0int), xs) == (0int, 0int, 0int, 0int),
        lin_out_seq(g, res, (0int, 0int, 0int, 0int), xs, pole).len() == xs.len(),
        forall|i: int|
            0 <= i < xs.len() ==> lin_out_seq(g, res, (0int, 0int, 0int, 0int), xs, pole)[i] == 0,
    decreases xs.len(),
{
    let zero = (0int, 0int, 0int, 0int);
    if xs.len() > 0 {
        lemma_process_silent(g, res, pole, xs.drop_last());
        lemma_lin_vout_silent(g, res);
        assert(lin_state_seq(g, res, zero, xs.drop_last()) == zero);
        assert(xs.last() == 0);
    }
}

} // verus!

