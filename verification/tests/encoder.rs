use embedded_rotary_encoder::EncoderPin;
use embedded_rotary_encoder::LatchMode;
use embedded_rotary_encoder::RotaryDirecton;
use embedded_rotary_encoder::RotaryEncoder;
use embedded_rotary_encoder::raw_state_from_levels;
use embedded_rotary_encoder::table_delta;

/// A pin whose level is set by the test; it can be made to fail its reads.
struct TestPin {
    level: bool,
    fail: bool,
}

impl TestPin {
    fn high() -> TestPin {
        TestPin { level: true, fail: false }
    }

    fn low() -> TestPin {
        TestPin { level: false, fail: false }
    }

    fn broken(level: bool) -> TestPin {
        TestPin { level, fail: true }
    }
}

impl EncoderPin for TestPin {
    type Error = ();

    fn is_high(&self) -> Result<bool, ()> {
        if self.fail { Err(()) } else { Ok(self.level) }
    }
}

/// Set both pin levels (pin A = clk, pin B = dt) and sample once.
fn drive(encoder: &mut RotaryEncoder<TestPin>, a: bool, b: bool) {
    let (pin_dt, pin_clk) = encoder.borrow_pins();
    pin_clk.level = a;
    pin_clk.fail = false;
    pin_dt.level = b;
    pin_dt.fail = false;
    encoder.check_state();
}

#[test]
fn it_works() {}

#[test]
fn raw_state_packs_pin_a_into_bit_0_and_pin_b_into_bit_1() {
    assert_eq!(raw_state_from_levels(false, false), 0);
    assert_eq!(raw_state_from_levels(true, false), 1);
    assert_eq!(raw_state_from_levels(false, true), 2);
    assert_eq!(raw_state_from_levels(true, true), 3);
}

#[test]
fn transition_table_has_the_fixed_sixteen_entries() {
    let expected: [i32; 16] = [0, -1, 1, 0, 1, 0, 0, -1, -1, 0, 0, 1, 0, 1, -1, 0];
    for index in 0..16u8 {
        assert_eq!(table_delta(index), expected[index as usize]);
    }
}

#[test]
fn opposite_corner_transitions_yield_no_delta() {
    // new_state | old_state << 2, for 0<->3 and 1<->2.
    assert_eq!(table_delta(3), 0);
    assert_eq!(table_delta(12), 0);
    assert_eq!(table_delta(6), 0);
    assert_eq!(table_delta(9), 0);
}

#[test]
fn sampling_an_unchanged_state_is_a_no_op() {
    let mut encoder = RotaryEncoder::new(TestPin::high(), TestPin::high(), LatchMode::FOUR3);
    for _ in 0..5 {
        encoder.check_state();
        assert_eq!(encoder.get_position(), 0);
    }
    assert_eq!(encoder.get_direction(), RotaryDirecton::NOROTATION);
    // Also after motion: repeating the reached state changes nothing further.
    drive(&mut encoder, true, false);
    drive(&mut encoder, true, false);
    drive(&mut encoder, true, false);
    let position = encoder.get_position();
    drive(&mut encoder, true, false);
    assert_eq!(encoder.get_position(), position);
}

#[test]
fn clockwise_cycle_latches_once_under_four3() {
    // Start at a detent: both pins high, raw state 3, positions 0.
    let mut encoder = RotaryEncoder::new(TestPin::high(), TestPin::high(), LatchMode::FOUR3);
    drive(&mut encoder, true, false); // raw 1
    assert_eq!(encoder.get_position(), 0);
    drive(&mut encoder, false, false); // raw 0
    assert_eq!(encoder.get_position(), 0);
    drive(&mut encoder, false, true); // raw 2
    assert_eq!(encoder.get_position(), 0);
    drive(&mut encoder, true, true); // raw 3: latch point of FOUR3
    assert_eq!(encoder.get_position(), 1);
    assert_eq!(encoder.get_direction(), RotaryDirecton::CLOCKWISE);
}

#[test]
fn counterclockwise_cycle_unlatches_once_under_four3() {
    let mut encoder = RotaryEncoder::new(TestPin::high(), TestPin::high(), LatchMode::FOUR3);
    drive(&mut encoder, false, true); // raw 2
    drive(&mut encoder, false, false); // raw 0
    drive(&mut encoder, true, false); // raw 1
    assert_eq!(encoder.get_position(), 0);
    drive(&mut encoder, true, true); // raw 3: latch point of FOUR3
    assert_eq!(encoder.get_position(), -1);
    assert_eq!(encoder.get_direction(), RotaryDirecton::COUNTERCLOCKWISE);
}

#[test]
fn four0_latches_at_raw_state_0() {
    let mut encoder = RotaryEncoder::new(TestPin::low(), TestPin::low(), LatchMode::FOUR0);
    drive(&mut encoder, false, true); // raw 2
    drive(&mut encoder, true, true); // raw 3
    drive(&mut encoder, true, false); // raw 1
    assert_eq!(encoder.get_position(), 0);
    drive(&mut encoder, false, false); // raw 0: latch point of FOUR0
    assert_eq!(encoder.get_position(), 1);
}

#[test]
fn two03_latches_twice_per_cycle() {
    let mut encoder = RotaryEncoder::new(TestPin::high(), TestPin::high(), LatchMode::TWO03);
    drive(&mut encoder, true, false); // raw 1
    assert_eq!(encoder.get_position(), 0);
    drive(&mut encoder, false, false); // raw 0: latch point
    assert_eq!(encoder.get_position(), 1);
    drive(&mut encoder, false, true); // raw 2
    assert_eq!(encoder.get_position(), 1);
    drive(&mut encoder, true, true); // raw 3: latch point
    assert_eq!(encoder.get_position(), 2);
}

#[test]
fn two03_unlatches_twice_per_counterclockwise_cycle() {
    let mut encoder = RotaryEncoder::new(TestPin::high(), TestPin::high(), LatchMode::TWO03);
    drive(&mut encoder, false, true); // raw 2
    assert_eq!(encoder.get_position(), 0);
    drive(&mut encoder, false, false); // raw 0: latch point
    assert_eq!(encoder.get_position(), -1);
    drive(&mut encoder, true, false); // raw 1
    assert_eq!(encoder.get_position(), -1);
    drive(&mut encoder, true, true); // raw 3: latch point
    assert_eq!(encoder.get_position(), -2);
    assert_eq!(encoder.get_direction(), RotaryDirecton::COUNTERCLOCKWISE);
}

#[test]
fn set_position_is_returned_immediately_for_every_mode() {
    for mode in [LatchMode::FOUR3, LatchMode::FOUR0, LatchMode::TWO03] {
        let mut encoder = RotaryEncoder::new(TestPin::low(), TestPin::low(), mode);
        encoder.set_position(5);
        assert_eq!(encoder.get_position(), 5);
        assert_eq!(encoder.get_direction(), RotaryDirecton::NOROTATION);
    }
}

#[test]
fn set_position_survives_further_sampling() {
    let mut encoder = RotaryEncoder::new(TestPin::high(), TestPin::high(), LatchMode::FOUR3);
    encoder.set_position(5);
    drive(&mut encoder, true, false); // raw 1
    drive(&mut encoder, false, false); // raw 0
    drive(&mut encoder, false, true); // raw 2
    assert_eq!(encoder.get_position(), 5);
    drive(&mut encoder, true, true); // raw 3: latch continues from the override
    assert_eq!(encoder.get_position(), 6);
}

#[test]
fn set_position_with_a_negative_value() {
    let mut encoder = RotaryEncoder::new(TestPin::high(), TestPin::high(), LatchMode::FOUR3);
    encoder.set_position(-3);
    assert_eq!(encoder.get_position(), -3);
    drive(&mut encoder, true, false);
    drive(&mut encoder, false, false);
    drive(&mut encoder, false, true);
    drive(&mut encoder, true, true);
    assert_eq!(encoder.get_position(), -2);
}

#[test]
fn direction_is_reported_at_most_once() {
    let mut encoder = RotaryEncoder::new(TestPin::high(), TestPin::high(), LatchMode::FOUR3);
    drive(&mut encoder, true, false);
    drive(&mut encoder, false, false);
    drive(&mut encoder, false, true);
    drive(&mut encoder, true, true);
    assert_eq!(encoder.get_direction(), RotaryDirecton::CLOCKWISE);
    assert_eq!(encoder.get_direction(), RotaryDirecton::NOROTATION);
}

#[test]
fn construction_samples_the_initial_raw_state() {
    // Pin A high, pin B low: initial raw state 1. Stepping to raw state 3 is
    // then a single counter-clockwise step, latched as floor(-1 / 4) = -1.
    let mut encoder = RotaryEncoder::new(TestPin::high(), TestPin::low(), LatchMode::FOUR3);
    drive(&mut encoder, true, true);
    assert_eq!(encoder.get_position(), -1);

    // Both pins low: initial raw state 0. Stepping straight to raw state 3
    // flips both bits at once and contributes nothing.
    let mut encoder = RotaryEncoder::new(TestPin::low(), TestPin::low(), LatchMode::FOUR3);
    drive(&mut encoder, true, true);
    assert_eq!(encoder.get_position(), 0);
}

#[test]
fn failed_pin_reads_count_as_low() {
    // Both pins fail: the decoder sees both low and reports no motion.
    let mut encoder = RotaryEncoder::new(
        TestPin::broken(true),
        TestPin::broken(true),
        LatchMode::FOUR3,
    );
    encoder.check_state();
    encoder.check_state();
    assert_eq!(encoder.get_position(), 0);
    assert_eq!(encoder.get_direction(), RotaryDirecton::NOROTATION);

    // Pin A fails while high, pin B reads high: initial raw state is 2, as
    // if pin A were low. The step 2 -> 0 is a single counter-clockwise step,
    // and FOUR0 latches floor(-1 / 4) = -1 at raw state 0.
    let mut encoder = RotaryEncoder::new(
        TestPin::broken(true),
        TestPin::high(),
        LatchMode::FOUR0,
    );
    drive(&mut encoder, false, false); // raw 0: latch point of FOUR0
    assert_eq!(encoder.get_position(), -1);
}

#[test]
fn default_latch_mode_is_four0() {
    assert_eq!(LatchMode::default(), LatchMode::FOUR0);
}

#[test]
fn end_to_end_clockwise_from_a_detent() {
    // Idle at a detent with both lines pulled up (raw state 3); one full
    // clockwise detent step, sampled at each quarter.
    let mut encoder = RotaryEncoder::new(TestPin::high(), TestPin::high(), LatchMode::FOUR3);
    let quarters = [(true, false), (false, false), (false, true), (true, true)];
    for (a, b) in quarters {
        drive(&mut encoder, a, b);
    }
    assert_eq!(encoder.get_position(), 1);
    assert_eq!(encoder.get_direction(), RotaryDirecton::CLOCKWISE);
}

#[test]
fn cold_start_at_raw_state_0_is_half_a_detent_out_of_phase() {
    // Constructed between detents (both pins low, raw state 0), the first
    // clockwise cycle reaches the FOUR3 latch point with a fine counter of 2,
    // which still floors to 0: the first latched increment needs a second
    // cycle.
    let mut encoder = RotaryEncoder::new(TestPin::low(), TestPin::low(), LatchMode::FOUR3);
    drive(&mut encoder, false, true); // raw 2
    drive(&mut encoder, true, true); // raw 3: latches floor(2 / 4) = 0
    drive(&mut encoder, true, false); // raw 1
    drive(&mut encoder, false, false); // raw 0
    assert_eq!(encoder.get_position(), 0);
    assert_eq!(encoder.get_direction(), RotaryDirecton::NOROTATION);
    drive(&mut encoder, false, true);
    drive(&mut encoder, true, true); // raw 3: latches floor(6 / 4) = 1
    assert_eq!(encoder.get_position(), 1);
    assert_eq!(encoder.get_direction(), RotaryDirecton::CLOCKWISE);
}
