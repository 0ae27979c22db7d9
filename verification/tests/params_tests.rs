use ladder_filter::carnyx::CarnyxModel;
use ladder_filter::fixed::SCALE;
use ladder_filter::params::LadderShared;

#[test]
fn cutoff_round_trips_exactly() {
    let mut m = LadderShared::default();
    for v in [0i64, 1, 250_000, 490_337, 999_999, 1_000_000] {
        m.set_cutoff(v);
        assert_eq!(m.get_cutoff(), v);
        m.set_parameter(0, v);
        assert_eq!(m.get_parameter(0), v);
    }
}

#[test]
fn resonance_round_trips_exactly() {
    let mut m = LadderShared::default();
    for v in [0i64, 1, 123_457, 250_000, 999_999, SCALE] {
        m.set_parameter(1, v);
        assert_eq!(m.res, 4 * v);
        assert_eq!(m.get_parameter(1), v);
    }
}

#[test]
fn drive_round_trips_exactly() {
    let mut m = LadderShared::default();
    for v in [0i64, 1, 123_457, 250_000, 999_999, SCALE] {
        m.set_parameter(3, v);
        assert_eq!(m.drive, 5 * v);
        assert_eq!(m.get_parameter(3), v);
    }
}

#[test]
fn pole_index_setter_clamps_to_bounds() {
    let mut m = LadderShared::default();
    m.set_poles_usize(10);
    assert_eq!(m.poles, 3);
    assert_eq!(m.pole_value, 750_000);
    m.set_poles_usize(0);
    assert_eq!(m.poles, 0);
    assert_eq!(m.pole_value, 0);
    m.set_poles_usize(2);
    assert_eq!(m.poles, 2);
    assert_eq!(m.pole_value, 500_000);
}

#[test]
fn pole_control_always_lands_on_a_stage() {
    let mut m = LadderShared::default();
    let cases = [
        (-5_000_000i64, 0usize),
        (0, 0),
        (100_000, 0),
        (166_667, 1),
        (500_000, 2),
        (833_000, 2),
        (834_000, 3),
        (1_000_000, 3),
        (7_000_000, 3),
    ];
    for (v, want) in cases {
        m.set_poles(v);
        assert_eq!(m.poles, want);
        assert_eq!(m.pole_value, v);
        assert!(m.poles <= 3);
    }
    // the indexed write dispatches to the same derivation
    m.set_parameter(2, 500_000);
    assert_eq!(m.poles, 2);
    assert_eq!(m.pole_value, 500_000);
}

#[test]
fn pole_mappings_are_not_inverses() {
    // The index-to-value map is a quarter per step, but the value-to-index
    // map rounds value times three: writing the top index and feeding the
    // derived value back lands one stage lower. This asymmetry is kept.
    let mut m = LadderShared::default();
    m.set_poles_usize(3);
    assert_eq!(m.pole_value, 750_000);
    m.set_poles(750_000);
    assert_eq!(m.poles, 2);
}

#[test]
fn default_configuration() {
    let m = LadderShared::default();
    assert_eq!(m.cutoff, 490_337);
    assert_eq!(m.sample_rate, 44_100);
    assert_eq!(m.res, 2_000_000);
    assert_eq!(m.poles, 3);
    assert_eq!(m.pole_value, 1_000_000);
    assert_eq!(m.drive, 0);
}

#[test]
fn unknown_parameter_indices_read_zero_and_write_nothing() {
    let mut m = LadderShared::default();
    let before_res = m.res;
    m.set_parameter(4, 123);
    m.set_parameter(-1, 123);
    assert_eq!(m.res, before_res);
    assert_eq!(m.get_parameter(4), 0);
    assert_eq!(m.get_parameter(-1), 0);
}

#[test]
fn parameter_names_and_labels() {
    let m = LadderShared::default();
    assert_eq!(m.get_parameter_name(0), "cutoff");
    assert_eq!(m.get_parameter_name(1), "resonance");
    assert_eq!(m.get_parameter_name(2), "filter order");
    assert_eq!(m.get_parameter_name(3), "drive");
    assert_eq!(m.get_parameter_name(9), "");
    assert_eq!(m.get_parameter_label(0), "Hz");
    assert_eq!(m.get_parameter_label(1), "%");
    assert_eq!(m.get_parameter_label(2), "poles");
    assert_eq!(m.get_parameter_label(3), "%");
    assert_eq!(m.get_parameter_label(9), "");
}

#[test]
fn parameter_texts() {
    let mut m = LadderShared::default();
    assert_eq!(m.get_parameter_text(1), "2.000");
    assert_eq!(m.get_parameter_text(2), "4");
    assert_eq!(m.get_parameter_text(3), "0.000");
    m.set_parameter(1, 308_642);
    assert_eq!(m.res, 1_234_568);
    assert_eq!(m.get_parameter_text(1), "1.235");
    m.set_poles_usize(0);
    assert_eq!(m.get_parameter_text(2), "1");
    // the hertz display belongs to the hosting layer
    assert_eq!(m.get_parameter_text(0), "");
    assert_eq!(m.get_parameter_text(9), "");
}

#[test]
fn snapshot_round_trip_goes_through_the_setters() {
    let mut m = LadderShared::default();
    m.set_parameter(1, 250_000);
    m.set_parameter(3, 600_000);
    m.set_poles_usize(1);
    let snap = m.snap();
    assert_eq!(snap.res, 1_000_000);
    assert_eq!(snap.drive, 3_000_000);
    assert_eq!(snap.poles, 1);
    assert_eq!(snap.cutoff, 490_337);

    let mut other = LadderShared::default();
    other.set_sample_rate(48_000);
    other.set_snap(&snap);
    assert_eq!(other.cutoff, snap.cutoff);
    assert_eq!(other.res, snap.res);
    assert_eq!(other.poles, snap.poles);
    assert_eq!(other.drive, snap.drive);
    // restoring re-derives the continuous pole value from the index
    assert_eq!(other.pole_value, 250_000);
    // and leaves the sample rate alone
    assert_eq!(other.sample_rate, 48_000);
}

#[test]
fn restoring_own_snapshot_keeps_user_facing_values() {
    let mut m = LadderShared::default();
    let s = m.snap();
    m.set_snap(&s);
    // the user-facing values all survive the round trip
    assert_eq!(m.snap(), s);
    // the continuous pole value is re-derived from the index on the way in
    // (a quarter per step), so the stored model is not kept bit for bit
    assert_eq!(m.pole_value, 750_000);
    // once restored, restoring the model's own snapshot changes nothing
    let again = m.snap();
    m.set_snap(&again);
    assert_eq!(m.snap(), again);
    assert_eq!(m.pole_value, 750_000);
}

#[test]
fn sample_rate_change_leaves_cutoff_untouched() {
    let mut m = LadderShared::default();
    m.set_cutoff(750_000);
    m.set_sample_rate(96_000);
    assert_eq!(m.sample_rate, 96_000);
    assert_eq!(m.cutoff, 750_000);
}
