//! The quadrature decoding state machine.
//!
//! The encoder's two signal lines form a 2-bit gray code; one full detent
//! cycle walks through all four states. Decoding compares the previously
//! remembered raw state with the newly sampled one: the packed pair indexes a
//! fixed table of position deltas, and the externally visible position is
//! latched only when the new raw state lands on the latch point(s) of the
//! configured latch mode.
//!
//! Valid clockwise single steps are 0→2→3→1→0, counter-clockwise ones the
//! reverse; a transition that flips both bits at once (0↔3, 1↔2) is treated
//! as a glitch and contributes no motion.

use vstd::prelude::*;

verus! {

/// A digital input line of the encoder, reporting a boolean level.
///
/// The read is fallible; the decoder treats a failed read as logical low and
/// never surfaces the error. Platform pin types implement this for their own
/// error type.
pub trait EncoderPin {
    /// The pin's read-failure type; the decoder ignores its contents.
    type Error;

    /// Report whether the line is currently at a logical-high level.
    fn is_high(&self) -> Result<bool, Self::Error>;
}

/// The direction of the last reported change of the logical position.
#[derive(Debug, Clone, Copy, PartialEq, Eq, Structural)]
pub enum RotaryDirecton {
    NOROTATION,
    CLOCKWISE,
    COUNTERCLOCKWISE,
}

/// The policy that decides at which raw states the logical position is
/// latched from the fine counter, fixed at construction.
#[derive(Debug, Clone, Copy, PartialEq, Eq, Structural)]
pub enum LatchMode {
    /// 4 steps per logical position, latch at raw state 3 only.
    FOUR3,
    /// 4 steps per logical position, latch at raw state 0 (reverse wirings).
    FOUR0,
    /// 2 steps per logical position, latch at raw states 0 and 3.
    TWO03,
}

impl Default for LatchMode {
    fn default() -> (mode: Self)
        ensures
            mode == LatchMode::FOUR0,
    {
        LatchMode::FOUR0
    }
}

/// The 2-bit raw state packed from the two pin levels: pin A in bit 0,
/// pin B in bit 1.
pub open spec fn raw_state_spec(a: bool, b: bool) -> int {
    (if a { 1int } else { 0int }) + (if b { 2int } else { 0int })
}

/// The fixed 16-entry transition table, indexed by
/// `new_state | (old_state << 2)`: +1 on the clockwise single steps
/// (0→2, 2→3, 3→1, 1→0), −1 on the counter-clockwise ones, and 0 on
/// everything else (no change, or both bits flipped at once).
pub open spec fn table_entry(index: int) -> int {
    if index == 2 || index == 11 || index == 13 || index == 4 {
        1
    } else if index == 1 || index == 7 || index == 14 || index == 8 {
        -1
    } else {
        0
    }
}

/// The position delta contributed by a raw-state transition.
pub open spec fn transition_delta(old_raw: int, new_raw: int) -> int {
    table_entry(new_raw + old_raw * 4)
}

/// The step factor of a latch mode: how many fine steps make up one logical
/// position.
pub open spec fn step_factor(mode: LatchMode) -> int {
    match mode {
        LatchMode::FOUR3 => 4,
        LatchMode::FOUR0 => 4,
        LatchMode::TWO03 => 2,
    }
}

/// Whether a latch mode latches the logical position at the given raw state.
pub open spec fn latches_at(mode: LatchMode, raw: int) -> bool {
    match mode {
        LatchMode::FOUR3 => raw == 3,
        LatchMode::FOUR0 => raw == 0,
        LatchMode::TWO03 => raw == 0 || raw == 3,
    }
}

/// The mathematical model of a decoder: its latch mode, the raw state
/// remembered from the previous sample, the fine step counter, and the
/// latched logical position with its direction-query snapshot.
pub ghost struct DecoderView {
    pub mode: LatchMode,
    pub last_raw_state: int,
    pub fine_position: int,
    pub logical_position: int,
    pub logical_position_prev: int,
}

impl DecoderView {
    /// The remembered raw state is a 2-bit value.
    pub open spec fn wf(self) -> bool {
        0 <= self.last_raw_state < 4
    }
}

/// One sample, given the newly observed raw state. An unchanged raw state is
/// a no-op; otherwise the transition table advances the fine counter, the new
/// raw state is remembered, and — at a latch point of the mode — the logical
/// position is latched to the fine counter floor-divided by the step factor.
pub open spec fn step_spec(s: DecoderView, new_raw: int) -> DecoderView {
    if new_raw == s.last_raw_state {
        s
    } else {
        let fine = s.fine_position + transition_delta(s.last_raw_state, new_raw);
        DecoderView {
            last_raw_state: new_raw,
            fine_position: fine,
            logical_position: if latches_at(s.mode, new_raw) {
                fine / step_factor(s.mode)
            } else {
                s.logical_position
            },
            ..s
        }
    }
}

/// A position override: the logical position and its snapshot become the
/// given value, and the fine counter is rebuilt from it, keeping the
/// sub-latch phase of the old fine counter.
pub open spec fn set_position_spec(s: DecoderView, p: int) -> DecoderView {
    DecoderView {
        fine_position: p * step_factor(s.mode) + s.fine_position % step_factor(s.mode),
        logical_position: p,
        logical_position_prev: p,
        ..s
    }
}

/// The direction a query reports: the snapshot of the logical position taken
/// at the previous query is compared with the current logical position.
pub open spec fn direction_spec(s: DecoderView) -> RotaryDirecton {
    if s.logical_position_prev > s.logical_position {
        RotaryDirecton::COUNTERCLOCKWISE
    } else if s.logical_position_prev < s.logical_position {
        RotaryDirecton::CLOCKWISE
    } else {
        RotaryDirecton::NOROTATION
    }
}

/// After a direction query the snapshot equals the current logical position,
/// so the same motion is reported at most once.
pub open spec fn direction_reset_spec(s: DecoderView) -> DecoderView {
    DecoderView { logical_position_prev: s.logical_position, ..s }
}

/// Pack two pin levels into the 2-bit raw state: pin A in bit 0, pin B in
/// bit 1.
pub fn raw_state_from_levels(a: bool, b: bool) -> (raw: u8)
    ensures
        raw as int == raw_state_spec(a, b),
{
    (if a { 1u8 } else { 0u8 }) + (if b { 2u8 } else { 0u8 })
}

/// Look up the transition table.
pub fn table_delta(index: u8) -> (delta: i32)
    requires
        index < 16,
    ensures
        delta as int == table_entry(index as int),
{
    if index == 2 || index == 11 || index == 13 || index == 4 {
        1
    } else if index == 1 || index == 7 || index == 14 || index == 8 {
        -1
    } else {
        0
    }
}

/// Floor-divide the fine counter by the step factor, preserving sign: the
/// latched logical position.
fn latch_logical(fine: i32, factor: i32) -> (q: i32)
    requires
        factor == 2 || factor == 4,
    ensures
        q as int == fine as int / factor as int,
{
    proof {
        let x: int = fine as int;
        let d: int = factor as int;
        let q0: int = x / d;
        let r0: int = x % d;
        vstd::arithmetic::div_mod::lemma_fundamental_div_mod(x, d);
        vstd::arithmetic::div_mod::lemma_mod_division_less_than_divisor(x, d);
        assert(i32::MIN <= q0 <= i32::MAX) by (nonlinear_arith)
            requires
                d == 2 || d == 4,
                x == d * q0 + r0,
                0 <= r0 < d,
                i32::MIN <= x <= i32::MAX,
        ;
    }
    fine.checked_div_euclid(factor).unwrap()
}

/// The fine counter's offset from its last latch boundary: the nonnegative
/// remainder of the fine counter modulo the step factor.
fn sub_latch_phase(fine: i32, factor: i32) -> (r: i32)
    requires
        factor == 2 || factor == 4,
    ensures
        r as int == fine as int % factor as int,
        0 <= r < factor,
{
    proof {
        vstd::arithmetic::div_mod::lemma_mod_division_less_than_divisor(
            fine as int,
            factor as int,
        );
    }
    fine.checked_rem_euclid(factor).unwrap()
}

/// A quadrature decoder: two owned pins, a latch mode fixed at construction,
/// the raw state remembered from the previous sample, the fine step counter,
/// and the latched logical position with its direction-query snapshot.
pub struct RotaryEncoder<PIN> where PIN: EncoderPin {
    /// Pin A ("clk") of the encoder, read into bit 0 of the raw state.
    pub pin_clk: PIN,
    /// Pin B ("dt") of the encoder, read into bit 1 of the raw state.
    pub pin_dt: PIN,
    /// The latch mode, fixed at construction.
    pub mode: LatchMode,
    /// The raw state observed on the previous sample.
    pub last_raw_state: u8,
    /// The fine step counter, advanced on every valid raw transition.
    pub fine_position: i32,
    /// The latched, externally visible position.
    pub logical_position: i32,
    /// The snapshot of the logical position taken by the last direction query.
    pub logical_position_prev: i32,
}

impl<PIN> View for RotaryEncoder<PIN> where PIN: EncoderPin {
    type V = DecoderView;

    open spec fn view(&self) -> DecoderView {
        DecoderView {
            mode: self.mode,
            last_raw_state: self.last_raw_state as int,
            fine_position: self.fine_position as int,
            logical_position: self.logical_position as int,
            logical_position_prev: self.logical_position_prev as int,
        }
    }
}

impl<PIN> RotaryEncoder<PIN> where PIN: EncoderPin {
    /// Construct a decoder from its two pins and a latch mode. Both pins are
    /// read once, a failed read counting as low, so that the first sampled
    /// transition is compared against the true initial state; the positions
    /// start at 0.
    pub fn new(pin_clk: PIN, pin_dt: PIN, mode: LatchMode) -> (encoder: Self)
        ensures
            encoder@.mode == mode,
            encoder@.fine_position == 0,
            encoder@.logical_position == 0,
            encoder@.logical_position_prev == 0,
            encoder@.wf(),
            exists|a: bool, b: bool| encoder@.last_raw_state == raw_state_spec(a, b),
            encoder.pin_clk == pin_clk,
            encoder.pin_dt == pin_dt,
    {
        let a = match pin_clk.is_high() {
            Ok(level) => level,
            Err(_) => false,
        };
        let b = match pin_dt.is_high() {
            Ok(level) => level,
            Err(_) => false,
        };
        let state = raw_state_from_levels(a, b);
        let encoder = RotaryEncoder {
            pin_clk,
            pin_dt,
            mode,
            last_raw_state: state,
            fine_position: 0,
            logical_position: 0,
            logical_position_prev: 0,
        };
        proof {
            assert(encoder@.last_raw_state == raw_state_spec(a, b));
        }
        encoder
    }

    /// The current logical position.
    pub fn get_position(&self) -> (position: i32)
        ensures
            position as int == self@.logical_position,
    {
        self.logical_position
    }

    /// Override the logical position. The snapshot used by direction queries
    /// follows it, and the fine counter is rebuilt around the new value while
    /// keeping its sub-latch phase, so later samples continue from the
    /// override instead of discarding it.
    pub fn set_position(&mut self, new_logic_position: i32)
        requires
            i32::MIN <= new_logic_position * step_factor(old(self)@.mode),
            new_logic_position * step_factor(old(self)@.mode) + step_factor(old(self)@.mode)
                - 1 <= i32::MAX,
        ensures
            final(self)@ == set_position_spec(old(self)@, new_logic_position as int),
            final(self).pin_clk == old(self).pin_clk,
            final(self).pin_dt == old(self).pin_dt,
    {
        let factor: i32 = match self.mode {
            LatchMode::FOUR3 => 4,
            LatchMode::FOUR0 => 4,
            LatchMode::TWO03 => 2,
        };
        let phase = sub_latch_phase(self.fine_position, factor);
        self.fine_position = new_logic_position * factor + phase;
        self.logical_position = new_logic_position;
        self.logical_position_prev = new_logic_position;
    }

    /// The direction of the last position change, reported at most once:
    /// the query consumes the change by moving the snapshot up to the
    /// current logical position.
    pub fn get_direction(&mut self) -> (direction: RotaryDirecton)
        ensures
            direction == direction_spec(old(self)@),
            final(self)@ == direction_reset_spec(old(self)@),
            final(self).pin_clk == old(self).pin_clk,
            final(self).pin_dt == old(self).pin_dt,
    {
        if self.logical_position_prev > self.logical_position {
            self.logical_position_prev = self.logical_position;
            RotaryDirecton::COUNTERCLOCKWISE
        } else if self.logical_position_prev < self.logical_position {
            self.logical_position_prev = self.logical_position;
            RotaryDirecton::CLOCKWISE
        } else {
            RotaryDirecton::NOROTATION
        }
    }

    /// One decoding step on already-read pin levels (pin A in `a`, pin B in
    /// `b`): the whole effect is `step_spec` on the decoder's model.
    pub fn sample_levels(&mut self, a: bool, b: bool)
        requires
            old(self)@.wf(),
            i32::MIN <= old(self)@.fine_position + transition_delta(
                old(self)@.last_raw_state,
                raw_state_spec(a, b),
            ) <= i32::MAX,
        ensures
            final(self)@ == step_spec(old(self)@, raw_state_spec(a, b)),
            final(self)@.wf(),
            final(self).pin_clk == old(self).pin_clk,
            final(self).pin_dt == old(self).pin_dt,
    {
        let this_state = raw_state_from_levels(a, b);
        if self.last_raw_state == this_state {
            return;
        }
        let index = this_state + self.last_raw_state * 4;
        let delta = table_delta(index);
        self.fine_position = self.fine_position + delta;
        self.last_raw_state = this_state;
        match self.mode {
            LatchMode::FOUR3 => {
                if this_state == 3 {
                    self.logical_position = latch_logical(self.fine_position, 4);
                }
            },
            LatchMode::FOUR0 => {
                if this_state == 0 {
                    self.logical_position = latch_logical(self.fine_position, 4);
                }
            },
            LatchMode::TWO03 => {
                if this_state == 0 || this_state == 3 {
                    self.logical_position = latch_logical(self.fine_position, 2);
                }
            },
        }
    }

    /// Sample the pins and run one decoding step. A failed pin read counts as
    /// low, so the decoder degrades to "no motion" rather than failing: some
    /// pair of levels was observed, and the decoder stepped on it.
    pub fn check_state(&mut self)
        requires
            old(self)@.wf(),
            i32::MIN < old(self)@.fine_position < i32::MAX,
        ensures
            final(self)@.wf(),
            exists|a: bool, b: bool| final(self)@ == step_spec(old(self)@, raw_state_spec(a, b)),
            final(self).pin_clk == old(self).pin_clk,
            final(self).pin_dt == old(self).pin_dt,
    {
        let a = match self.pin_clk.is_high() {
            Ok(level) => level,
            Err(_) => false,
        };
        let b = match self.pin_dt.is_high() {
            Ok(level) => level,
            Err(_) => false,
        };
        self.sample_levels(a, b);
        proof {
            assert(self@ == step_spec(old(self)@, raw_state_spec(a, b)));
        }
    }

    /// Borrow both pins mutably, as `(pin_dt, pin_clk)`, for callers that
    /// must clear hardware interrupt-pending bits on them; the decoder's
    /// model is untouched.
    pub fn borrow_pins(&mut self) -> ((pin_dt, pin_clk): (&mut PIN, &mut PIN))
        ensures
            *pin_dt == old(self).pin_dt,
            *pin_clk == old(self).pin_clk,
            final(self).pin_dt == *final(pin_dt),
            final(self).pin_clk == *final(pin_clk),
            final(self)@ == old(self)@,
    {
        (&mut self.pin_dt, &mut self.pin_clk)
    }
}

} // verus!
