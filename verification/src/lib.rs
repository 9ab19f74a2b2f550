//! Quadrature rotary encoder decoding.
//!
//! A mechanical or optical rotary encoder reports its motion on two digital
//! signal lines as a 2-bit gray code. This crate turns the stream of raw
//! 2-bit states into a latched logical position and a last-motion direction.

mod laws;
mod rotaryencoder;

pub use laws::clockwise_cycle_advances_fine_by_four;
pub use laws::clockwise_cycle_four3;
pub use laws::counterclockwise_cycle_four3;
pub use laws::counterclockwise_cycle_retreats_fine_by_four;
pub use laws::direction_reported_at_most_once;
pub use laws::non_latching_sample_keeps_position;
pub use laws::opposite_corner_transition_is_noop;
pub use laws::override_survives_sampling_four3;
pub use laws::override_takes_effect;
pub use laws::sample_moves_fine_by_table_delta;
pub use laws::sample_of_unchanged_state_is_noop;
pub use laws::transition_delta_is_a_single_step;
pub use laws::two03_latches_every_half_cycle;
pub use laws::two03_unlatches_every_half_cycle;

pub use rotaryencoder::DecoderView;
pub use rotaryencoder::EncoderPin;
pub use rotaryencoder::LatchMode;
pub use rotaryencoder::RotaryDirecton;
pub use rotaryencoder::RotaryEncoder;
pub use rotaryencoder::direction_reset_spec;
pub use rotaryencoder::direction_spec;
pub use rotaryencoder::latches_at;
pub use rotaryencoder::raw_state_from_levels;
pub use rotaryencoder::raw_state_spec;
pub use rotaryencoder::set_position_spec;
pub use rotaryencoder::step_factor;
pub use rotaryencoder::step_spec;
pub use rotaryencoder::table_delta;
pub use rotaryencoder::table_entry;
pub use rotaryencoder::transition_delta;
