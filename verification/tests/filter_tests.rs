use ladder_filter::filter::LadderProcessor;
use ladder_filter::fixed::SCALE;

/// A value in fixed point.
fn fx(x: f64) -> i64 {
    (x * 1e6).round() as i64
}

/// The bilinear-transform coefficient for a cutoff at a sample rate.
fn g_for(cutoff_hz: f64, sample_rate: f64) -> i64 {
    fx((std::f64::consts::PI * cutoff_hz / sample_rate).tan())
}

/// The fixed-pivot coefficient of the saturating nonlinearity at a node
/// value: 1 at zero, tanh(x)/x elsewhere.
fn pivot(x: i64) -> i64 {
    if x == 0 {
        SCALE
    } else {
        let xf = x as f64 / 1e6;
        fx(xf.tanh() / xf)
    }
}

/// The five pivot coefficients for one nonlinear tick: the driven input and
/// the four integrator states.
fn pivots_for(p: &LadderProcessor, input: i64, drive: i64) -> [i64; 5] {
    let driven = LadderProcessor::driven_input(input, drive);
    let s = p.state();
    [pivot(driven), pivot(s[0]), pivot(s[1]), pivot(s[2]), pivot(s[3])]
}

#[test]
fn linear_stage_outputs_exact_values() {
    // g = 1.0, no resonance, unit input from the zero state: each stage
    // denominator is 1/2 and the four stage outputs halve in turn.
    let mut p = LadderProcessor::new();
    p.tick_pivotal(SCALE, SCALE, 0, 0, [SCALE; 5]);
    assert_eq!(p.output(0), 500_000);
    assert_eq!(p.output(1), 250_000);
    assert_eq!(p.output(2), 125_000);
    assert_eq!(p.output(3), 62_500);
    // the trapezoidal update doubles each output into the fresh state
    assert_eq!(p.state(), [1_000_000, 500_000, 250_000, 125_000]);
}

#[test]
fn unit_pivots_reduce_nonlinear_to_linear() {
    // with every pivot coefficient at 1 and equal stage denominators, the
    // nonlinear closed form computes the same outputs as the linear one
    let mut lin = LadderProcessor::new();
    let mut nl = LadderProcessor::new();
    lin.run_ladder_linear(SCALE, 0, SCALE);
    nl.run_ladder_nonlinear(SCALE, 0, SCALE, [SCALE; 5]);
    for pole in 0..4 {
        assert_eq!(lin.output(pole), nl.output(pole));
    }
}

#[test]
fn silence_stays_silent_linear() {
    let mut p = LadderProcessor::new();
    let input = vec![0i64; 256];
    for _ in 0..3 {
        let out = p.process_linear(g_for(1000.0, 44100.0), 4_000_000, 3, &input);
        assert_eq!(out.len(), input.len());
        assert!(out.iter().all(|&x| x == 0));
        assert_eq!(p.state(), [0, 0, 0, 0]);
    }
}

#[test]
fn silence_stays_silent_nonlinear() {
    let mut p = LadderProcessor::new();
    let g = g_for(5000.0, 44100.0);
    let drive = 2_500_000;
    for _ in 0..64 {
        let a = pivots_for(&p, 0, drive);
        p.tick_pivotal(0, g, 1_500_000, drive, a);
        assert_eq!(p.output(3), 0);
        assert_eq!(p.state(), [0, 0, 0, 0]);
    }
}

#[test]
fn empty_buffers_change_nothing() {
    let mut p = LadderProcessor::new();
    p.tick_pivotal(fx(0.5), g_for(1000.0, 44100.0), 2_000_000, 0, [SCALE; 5]);
    let state_before = p.state();
    let out = p.process_linear(g_for(1000.0, 44100.0), 2_000_000, 3, &Vec::new());
    assert!(out.is_empty());
    assert_eq!(p.state(), state_before);
}

#[test]
fn state_carries_across_buffer_boundaries() {
    let g = g_for(2500.0, 44100.0);
    let res = 1_000_000;
    let input: Vec<i64> = (0..64).map(|i| fx(((i as f64) * 0.7).sin() * 0.5)).collect();
    let mut whole = LadderProcessor::new();
    let out_whole = whole.process_linear(g, res, 3, &input);
    let mut split = LadderProcessor::new();
    let first: Vec<i64> = input[..20].to_vec();
    let second: Vec<i64> = input[20..].to_vec();
    let mut out_split = split.process_linear(g, res, 3, &first);
    out_split.extend(split.process_linear(g, res, 3, &second));
    assert_eq!(out_whole, out_split);
    assert_eq!(whole.state(), split.state());
}

#[test]
fn impulse_response_decays_after_peak() {
    // the end-to-end scenario: 44.1 kHz, cutoff control fully open (about
    // 20 kHz), no resonance, no drive, the 24 dB tap; a unit impulse then
    // silence gives a heavily damped response: it peaks within the first two
    // samples, never comes back near the peak, and has almost died away
    // after ten samples (the magnitudes wiggle while the sign alternates, so
    // the decay shows in the envelope, not sample by sample)
    let g = g_for(20000.0, 44100.0);
    let mut p = LadderProcessor::new();
    let mut input = vec![0i64; 10];
    input[0] = SCALE;
    let out = p.process_linear(g, 0, 3, &input);
    assert_eq!(out.len(), 10);
    let mut peak = 0usize;
    for k in 0..out.len() {
        if out[k].abs() > out[peak].abs() {
            peak = k;
        }
    }
    assert!(peak <= 1);
    assert!(out[peak].abs() > SCALE / 2);
    for k in peak + 1..out.len() {
        assert!(out[k].abs() < out[peak].abs() / 2);
    }
    assert!(out[9].abs() < out[peak].abs() / 20);
}

#[test]
fn max_resonance_impulse_stays_bounded_and_decays() {
    // resonance at the top of its range (raw 4.0) rings hard but must not
    // diverge: after ten thousand samples the ringing has died down
    let g = g_for(1000.0, 44100.0);
    let mut p = LadderProcessor::new();
    let mut input = vec![0i64; 10_000];
    input[0] = SCALE;
    let out = p.process_linear(g, 4_000_000, 3, &input);
    let early_peak = out[..500].iter().map(|x| x.abs()).max().unwrap();
    let late_peak = out[9_500..].iter().map(|x| x.abs()).max().unwrap();
    assert!(out.iter().all(|x| x.abs() < 16 * SCALE));
    assert!(early_peak > 0);
    assert!(late_peak < early_peak);
}

#[test]
fn vanishing_drive_keeps_the_input_gain_step() {
    // as the drive control approaches zero from above, the nonlinear path
    // behaves like the linear path driven at 0.7 times the input: the branch
    // at drive == 0 switches to unit input gain, so the two paths agree at
    // the boundary only on silence
    let g = g_for(1000.0, 44100.0);
    let res = 1_000_000;
    let x = fx(0.01);
    let drive = 1; // one millionth above zero
    let mut nl = LadderProcessor::new();
    let a = pivots_for(&nl, x, drive);
    nl.tick_pivotal(x, g, res, drive, a);
    let mut lin = LadderProcessor::new();
    lin.tick_pivotal(x, g, res, 0, [SCALE; 5]);
    let nl_out = nl.output(3) as f64;
    let lin_out = lin.output(3) as f64;
    assert!((nl_out - 0.7 * lin_out).abs() <= 0.05 * lin_out.abs() + 50.0);
}

#[test]
fn driven_input_adds_the_base_gain() {
    // input * (drive + 0.7), exactly, in fixed point
    assert_eq!(LadderProcessor::driven_input(1_000_000, 300_000), 1_000_000);
    assert_eq!(LadderProcessor::driven_input(500_000, 0), 350_000);
    assert_eq!(LadderProcessor::driven_input(-500_000, 300_000), -500_000);
    assert_eq!(LadderProcessor::driven_input(0, 5_000_000), 0);
}

#[test]
fn saturated_drive_still_produces_finite_output() {
    // heavy drive pushes every node deep into the saturator; the closed form
    // stays well defined and the output bounded
    let g = g_for(8000.0, 44100.0);
    let drive = 5_000_000;
    let mut p = LadderProcessor::new();
    let mut last = 0i64;
    for i in 0..2000 {
        let x = fx(((i as f64) * 0.3).sin());
        let a = pivots_for(&p, x, drive);
        p.tick_pivotal(x, g, 2_000_000, drive, a);
        last = p.output(3);
        assert!(last.abs() < 64 * SCALE);
    }
    assert!(last.abs() < 64 * SCALE);
}
