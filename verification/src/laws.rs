//! Laws of the decoding state machine, stated over its mathematical model.
//!
//! Each law is a proof function about `step_spec` and its companions, so it
//! holds of every decoder state its `requires` admits, not just of chosen
//! values. The cycle laws assume the decoder sits at a detent it latched:
//! their `requires` pin the latched logical position to the fine counter.

use vstd::prelude::*;

use crate::rotaryencoder::DecoderView;
use crate::rotaryencoder::LatchMode;
use crate::rotaryencoder::RotaryDirecton;
use crate::rotaryencoder::direction_reset_spec;
use crate::rotaryencoder::direction_spec;
use crate::rotaryencoder::latches_at;
use crate::rotaryencoder::set_position_spec;
use crate::rotaryencoder::step_spec;
use crate::rotaryencoder::transition_delta;

verus! {

/// Sampling a raw state equal to the remembered one changes nothing: neither
/// counter nor positions nor the remembered state.
pub proof fn sample_of_unchanged_state_is_noop(s: DecoderView, raw: int)
    requires
        raw == s.last_raw_state,
    ensures
        step_spec(s, raw) == s,
{
}

/// A transition that flips both bits at once (0↔3 or 1↔2, exactly the pairs
/// of distinct 2-bit states summing to 3) contributes no motion.
pub proof fn opposite_corner_transition_is_noop(old_raw: int, new_raw: int)
    requires
        0 <= old_raw < 4,
        0 <= new_raw < 4,
        old_raw + new_raw == 3,
    ensures
        transition_delta(old_raw, new_raw) == 0,
{
}

/// Every transition moves the fine counter by at most one step.
pub proof fn transition_delta_is_a_single_step(old_raw: int, new_raw: int)
    ensures
        -1 <= transition_delta(old_raw, new_raw) <= 1,
{
}

/// A sample that observes a changed raw state moves the fine counter by
/// exactly the fixed table's entry for the transition — for every one of the
/// sixteen old/new pairs — and remembers the new raw state.
pub proof fn sample_moves_fine_by_table_delta(s: DecoderView, new_raw: int)
    requires
        new_raw != s.last_raw_state,
    ensures
        step_spec(s, new_raw).fine_position == s.fine_position + transition_delta(
            s.last_raw_state,
            new_raw,
        ),
        step_spec(s, new_raw).last_raw_state == new_raw,
{
}

/// A sample that does not land on a latch point of the mode leaves the
/// logical position and its snapshot untouched, whatever else it does: only
/// latch states ever move what the decoder reports.
pub proof fn non_latching_sample_keeps_position(s: DecoderView, new_raw: int)
    requires
        !latches_at(s.mode, new_raw),
    ensures
        step_spec(s, new_raw).logical_position == s.logical_position,
        step_spec(s, new_raw).logical_position_prev == s.logical_position_prev,
{
}

/// A full clockwise cycle from raw state 0 through 2→3→1→0 advances the fine
/// counter by exactly 4 — each single step contributing +1 — whatever the
/// latch mode and wherever the counter stands.
pub proof fn clockwise_cycle_advances_fine_by_four(s: DecoderView)
    requires
        s.last_raw_state == 0,
    ensures
        step_spec(step_spec(step_spec(step_spec(s, 2), 3), 1), 0).fine_position
            == s.fine_position + 4,
{
}

/// A full counter-clockwise cycle from raw state 0 through 1→3→2→0 moves the
/// fine counter down by exactly 4, whatever the latch mode and wherever the
/// counter stands.
pub proof fn counterclockwise_cycle_retreats_fine_by_four(s: DecoderView)
    requires
        s.last_raw_state == 0,
    ensures
        step_spec(step_spec(step_spec(step_spec(s, 1), 3), 2), 0).fine_position
            == s.fine_position - 4,
{
}

/// A full clockwise cycle from raw state 0 through 2→3→1→0 advances the fine
/// counter by exactly 4 and, under FOUR3 with the decoder aligned to its last
/// latch, raises the logical position by exactly 1 at the step reaching raw
/// state 3 — not before, and not again after.
pub proof fn clockwise_cycle_four3(s: DecoderView)
    requires
        s.mode == LatchMode::FOUR3,
        s.last_raw_state == 0,
        s.logical_position == (s.fine_position - 2) / 4,
    ensures
        ({
            let s1 = step_spec(s, 2);
            let s2 = step_spec(s1, 3);
            let s3 = step_spec(s2, 1);
            let s4 = step_spec(s3, 0);
            &&& s4.fine_position == s.fine_position + 4
            &&& s1.logical_position == s.logical_position
            &&& s2.logical_position == s.logical_position + 1
            &&& s3.logical_position == s.logical_position + 1
            &&& s4.logical_position == s.logical_position + 1
        }),
{
    vstd::arithmetic::div_mod::lemma_hoist_over_denominator(s.fine_position - 2, 1, 4);
}

/// A full counter-clockwise cycle from raw state 0 through 1→3→2→0 moves the
/// fine counter down by exactly 4 and, under FOUR3 with the decoder aligned
/// to its last latch, lowers the logical position by exactly 1 at the step
/// reaching raw state 3.
pub proof fn counterclockwise_cycle_four3(s: DecoderView)
    requires
        s.mode == LatchMode::FOUR3,
        s.last_raw_state == 0,
        s.logical_position == (s.fine_position + 2) / 4,
    ensures
        ({
            let s1 = step_spec(s, 1);
            let s2 = step_spec(s1, 3);
            let s3 = step_spec(s2, 2);
            let s4 = step_spec(s3, 0);
            &&& s4.fine_position == s.fine_position - 4
            &&& s1.logical_position == s.logical_position
            &&& s2.logical_position == s.logical_position - 1
            &&& s3.logical_position == s.logical_position - 1
            &&& s4.logical_position == s.logical_position - 1
        }),
{
    vstd::arithmetic::div_mod::lemma_hoist_over_denominator(s.fine_position - 2, 1, 4);
}

/// Under TWO03 each clockwise half-cycle ending on raw state 0 or 3 raises
/// the logical position by 1 — twice per full cycle, twice the update
/// frequency of the four-step modes — and keeps it equal to half the fine
/// counter at every latch.
pub proof fn two03_latches_every_half_cycle(s: DecoderView)
    requires
        s.mode == LatchMode::TWO03,
        s.last_raw_state == 3,
        s.logical_position == s.fine_position / 2,
    ensures
        ({
            let s1 = step_spec(s, 1);
            let s2 = step_spec(s1, 0);
            let s3 = step_spec(s2, 2);
            let s4 = step_spec(s3, 3);
            &&& s4.fine_position == s.fine_position + 4
            &&& s1.logical_position == s.logical_position
            &&& s2.logical_position == s.logical_position + 1
            &&& s2.logical_position == s2.fine_position / 2
            &&& s3.logical_position == s.logical_position + 1
            &&& s4.logical_position == s.logical_position + 2
            &&& s4.logical_position == s4.fine_position / 2
        }),
{
    vstd::arithmetic::div_mod::lemma_hoist_over_denominator(s.fine_position, 1, 2);
    vstd::arithmetic::div_mod::lemma_hoist_over_denominator(s.fine_position, 2, 2);
}

/// Under TWO03 each counter-clockwise half-cycle ending on raw state 0 or 3
/// lowers the logical position by 1 and keeps it equal to half the fine
/// counter at every latch.
pub proof fn two03_unlatches_every_half_cycle(s: DecoderView)
    requires
        s.mode == LatchMode::TWO03,
        s.last_raw_state == 3,
        s.logical_position == s.fine_position / 2,
    ensures
        ({
            let s1 = step_spec(s, 2);
            let s2 = step_spec(s1, 0);
            let s3 = step_spec(s2, 1);
            let s4 = step_spec(s3, 3);
            &&& s4.fine_position == s.fine_position - 4
            &&& s1.logical_position == s.logical_position
            &&& s2.logical_position == s.logical_position - 1
            &&& s2.logical_position == s2.fine_position / 2
            &&& s3.logical_position == s.logical_position - 1
            &&& s4.logical_position == s.logical_position - 2
            &&& s4.logical_position == s4.fine_position / 2
        }),
{
    vstd::arithmetic::div_mod::lemma_hoist_over_denominator(s.fine_position - 2, 1, 2);
    vstd::arithmetic::div_mod::lemma_hoist_over_denominator(s.fine_position - 4, 2, 2);
}

/// A position override takes effect immediately, for every latch mode: the
/// logical position and its snapshot both become the override, so a position
/// query returns it and a direction query reports no rotation.
pub proof fn override_takes_effect(s: DecoderView, p: int)
    ensures
        set_position_spec(s, p).logical_position == p,
        set_position_spec(s, p).logical_position_prev == p,
        direction_spec(set_position_spec(s, p)) == RotaryDirecton::NOROTATION,
{
}

/// An override is not discarded by further sampling: under FOUR3, sitting at
/// raw state 3, a subsequent full clockwise cycle continues from the
/// overridden position and latches exactly one past it, whatever sub-latch
/// phase the fine counter carried over.
pub proof fn override_survives_sampling_four3(s: DecoderView, p: int)
    requires
        s.mode == LatchMode::FOUR3,
        s.last_raw_state == 3,
    ensures
        ({
            let t = set_position_spec(s, p);
            let t4 = step_spec(step_spec(step_spec(step_spec(t, 1), 0), 2), 3);
            &&& t.logical_position == p
            &&& t4.fine_position == t.fine_position + 4
            &&& t4.logical_position == p + 1
        }),
{
    let phase = s.fine_position % 4;
    vstd::arithmetic::div_mod::lemma_mod_division_less_than_divisor(s.fine_position, 4);
    vstd::arithmetic::div_mod::lemma_hoist_over_denominator(phase, p + 1, 4);
    vstd::arithmetic::div_mod::lemma_basic_div(phase, 4);
}

/// A direction query consumes the change it reports: right after one query,
/// a second query without an intervening position change reports no rotation.
pub proof fn direction_reported_at_most_once(s: DecoderView)
    ensures
        direction_spec(direction_reset_spec(s)) == RotaryDirecton::NOROTATION,
{
}

} // verus!
