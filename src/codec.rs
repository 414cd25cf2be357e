//! Pure encoding of a lighting effect into the RGB register bank (bank `0x12`).
//!
//! Cell layout of the bank:
//!
//! * `0xE4`: control byte: bit 0 turns the header off, bit 3 enables smooth pulsing, and the
//!   blink field is OR-ed into bits 0-2.
//! * `0xFE`: bits 0-7 of the step duration.
//! * `0xFF`: `fffbgrdt`: `t` is bit 8 of the step duration, `d` keeps the header lit, `bgr`
//!   invert the blue / green / red channels, `fff` (blue / green / red) are cleared to request
//!   a fade-in on that channel.
//! * `0xF0..=0xF3`, `0xF4..=0xF7`, `0xF8..=0xFB`: red, green and blue frame intensities, each
//!   channel's 32-bit value stored most significant byte first.
use vstd::prelude::*;

verus! {

/// Largest step duration the chip can hold (nine bits).
pub const MAX_STEP_DURATION: u16 = 511;

/// Largest accepted blink rate (`0` is always on, `6` the slowest blink).
pub const MAX_BLINK_RATE: u8 = 6;

/// Channel value under which every frame is at full intensity.
pub const FULL_INTENSITY: u32 = 0xFFFF_FFFF;

/// Cell of the control byte (disable, pulse, blink).
pub const CONTROL_CELL: u8 = 0xE4;

/// Cell of the low eight bits of the step duration.
pub const DURATION_LOW_CELL: u8 = 0xFE;

/// Cell of the ninth duration bit and of the channel flags.
pub const FLAGS_CELL: u8 = 0xFF;

/// First cell of the red frames.
pub const RED_CELL: u8 = 0xF0;

/// First cell of the green frames.
pub const GREEN_CELL: u8 = 0xF4;

/// First cell of the blue frames.
pub const BLUE_CELL: u8 = 0xF8;

/// Number of (cell, value) pairs an effect writes.
pub const REGISTER_WRITES: usize = 15;

/// A subset of the three colour channels.
#[derive(Clone, Copy, Debug, PartialEq, Eq, Structural)]
pub struct ChannelSet {
    pub red: bool,
    pub green: bool,
    pub blue: bool,
}

impl ChannelSet {
    /// The empty set.
    pub fn none() -> (r: ChannelSet)
        ensures
            !r.red && !r.green && !r.blue,
    {
        ChannelSet { red: false, green: false, blue: false }
    }
}

/// What the operator asks the header to show.
#[derive(Clone, Copy, Debug, PartialEq, Eq, Structural)]
pub struct EffectConfig {
    /// Red intensities: frame bytes from bits 31-24 down to bits 7-0.
    pub red: u32,
    /// Green intensities, laid out as `red`.
    pub green: u32,
    /// Blue intensities, laid out as `red`.
    pub blue: u32,
    /// Time between frame changes, `0..=511`.
    pub step_duration: u16,
    /// Channels whose output polarity is reversed.
    pub invert: ChannelSet,
    /// Channels that fade in continuously instead of stepping through frames.
    pub fade_in: ChannelSet,
    /// Smooth breathing effect.
    pub pulse: bool,
    /// `0` is always on, `1..=6` blink, `6` slowest.
    pub blink_rate: u8,
    /// Turns the RGB header off.
    pub disabled: bool,
}

/// Why a requested effect cannot be encoded.
#[derive(Clone, Copy, Debug, PartialEq, Eq, Structural)]
pub enum ConfigError {
    /// The step duration does not fit in nine bits.
    StepDurationTooLong,
    /// The blink rate is above six.
    BlinkRateOutOfRange,
    /// A fade-in was asked for on a channel whose frames are not all at full intensity.
    FadeInNeedsFullIntensity,
}

/// A fade-in on a channel is only meaningful when all its frames are at full intensity.
pub open spec fn fade_in_consistent(fade_in: ChannelSet, red: u32, green: u32, blue: u32) -> bool {
    &&& fade_in.red ==> red == FULL_INTENSITY
    &&& fade_in.green ==> green == FULL_INTENSITY
    &&& fade_in.blue ==> blue == FULL_INTENSITY
}

impl EffectConfig {
    /// The configuration can be encoded: every field within the chip's range.
    pub open spec fn wf(&self) -> bool {
        &&& self.step_duration <= MAX_STEP_DURATION
        &&& self.blink_rate <= MAX_BLINK_RATE
        &&& fade_in_consistent(self.fade_in, self.red, self.green, self.blue)
    }

    /// Builds a configuration, rejecting values the chip cannot hold.
    pub fn new(
        red: u32,
        green: u32,
        blue: u32,
        step_duration: u16,
        invert: ChannelSet,
        fade_in: ChannelSet,
        pulse: bool,
        blink_rate: u8,
        disabled: bool,
    ) -> (r: Result<EffectConfig, ConfigError>)
        ensures
            step_duration > MAX_STEP_DURATION ==> r == Err::<EffectConfig, ConfigError>(
                ConfigError::StepDurationTooLong,
            ),
            step_duration <= MAX_STEP_DURATION && blink_rate > MAX_BLINK_RATE ==> r == Err::<
                EffectConfig,
                ConfigError,
            >(ConfigError::BlinkRateOutOfRange),
            step_duration <= MAX_STEP_DURATION && blink_rate <= MAX_BLINK_RATE
                && !fade_in_consistent(fade_in, red, green, blue) ==> r == Err::<
                EffectConfig,
                ConfigError,
            >(ConfigError::FadeInNeedsFullIntensity),
            step_duration <= MAX_STEP_DURATION && blink_rate <= MAX_BLINK_RATE
                && fade_in_consistent(fade_in, red, green, blue) ==> r == Ok::<
                EffectConfig,
                ConfigError,
            >(
                (EffectConfig {
                    red,
                    green,
                    blue,
                    step_duration,
                    invert,
                    fade_in,
                    pulse,
                    blink_rate,
                    disabled,
                }),
            ),
            r matches Ok(c) ==> c.wf(),
    {
        if step_duration > MAX_STEP_DURATION {
            return Err(ConfigError::StepDurationTooLong);
        }
        if blink_rate > MAX_BLINK_RATE {
            return Err(ConfigError::BlinkRateOutOfRange);
        }
        if (fade_in.red && red != FULL_INTENSITY) || (fade_in.green && green != FULL_INTENSITY)
            || (fade_in.blue && blue != FULL_INTENSITY) {
            return Err(ConfigError::FadeInNeedsFullIntensity);
        }
        Ok(EffectConfig {
            red,
            green,
            blue,
            step_duration,
            invert,
            fade_in,
            pulse,
            blink_rate,
            disabled,
        })
    }
}

/// The three-bit blink field: `0` stays `0`, any other rate is `rate + 1` kept to three bits.
/// Rate `1` therefore gives `0b010`; the field value `0b001`, which turns off every light on the
/// board, is never produced.
pub open spec fn blink_field(rate: u8) -> u8 {
    if rate == 0 {
        0
    } else {
        ((rate + 1) as u8) & 0b111u8
    }
}

/// Content of the control cell.
pub open spec fn spec_control_byte(c: EffectConfig) -> u8 {
    (if c.disabled { 1u8 } else { 0u8 }) | (if c.pulse { 0b1000u8 } else { 0u8 }) | blink_field(
        c.blink_rate,
    )
}

/// Computes the control byte of an effect.
pub fn control_byte(c: &EffectConfig) -> (r: u8)
    requires
        c.wf(),
    ensures
        r == spec_control_byte(*c),
{
    let disabled: u8 = if c.disabled { 1 } else { 0 };
    let pulse: u8 = if c.pulse { 0b1000 } else { 0 };
    let blink: u8 = if c.blink_rate == 0 { 0 } else { (c.blink_rate + 1) & 0b111 };
    disabled | pulse | blink
}

/// Content of the duration-low cell: bits 0-7 of the step duration.
pub open spec fn spec_duration_low(c: EffectConfig) -> u8 {
    (c.step_duration & 0xFFu16) as u8
}

/// Bit 0 of the flags cell: bit 8 of the step duration.
pub open spec fn duration_high_bit(step_duration: u16) -> u8 {
    ((step_duration >> 8u16) & 1u16) as u8
}

/// Bits 2-4 of the flags cell: one bit per inverted channel (red, green, blue).
pub open spec fn invert_bits(s: ChannelSet) -> u8 {
    (if s.red { 0b0000_0100u8 } else { 0u8 }) | (if s.green { 0b0000_1000u8 } else { 0u8 }) | (
    if s.blue {
        0b0001_0000u8
    } else {
        0u8
    })
}

/// Bits 5-7 of the flags cell: set for each channel (red, green, blue) without fade-in.
pub open spec fn fade_bits(s: ChannelSet) -> u8 {
    (if s.red { 0u8 } else { 0b0010_0000u8 }) | (if s.green { 0u8 } else { 0b0100_0000u8 }) | (
    if s.blue {
        0u8
    } else {
        0b1000_0000u8
    })
}

/// Bit 1 of the flags cell, which keeps the RGB header lit; this codec always sets it.
pub const HEADER_ON: u8 = 0b10;

/// Content of the flags cell.
pub open spec fn spec_flags_byte(c: EffectConfig) -> u8 {
    duration_high_bit(c.step_duration) | HEADER_ON | invert_bits(c.invert) | fade_bits(c.fade_in)
}

/// Computes the low byte of the step duration.
pub fn duration_low_byte(c: &EffectConfig) -> (r: u8)
    ensures
        r == spec_duration_low(*c),
{
    (c.step_duration & 0xFF) as u8
}

/// Computes the flags byte: ninth duration bit, header-on bit, invert and fade-in flags.
pub fn flags_byte(c: &EffectConfig) -> (r: u8)
    ensures
        r == spec_flags_byte(*c),
{
    let high: u8 = ((c.step_duration >> 8) & 1) as u8;
    let invert: u8 = (if c.invert.red { 0b0000_0100u8 } else { 0u8 }) | (if c.invert.green {
        0b0000_1000u8
    } else {
        0u8
    }) | (if c.invert.blue { 0b0001_0000u8 } else { 0u8 });
    let fade: u8 = (if c.fade_in.red { 0u8 } else { 0b0010_0000u8 }) | (if c.fade_in.green {
        0u8
    } else {
        0b0100_0000u8
    }) | (if c.fade_in.blue { 0u8 } else { 0b1000_0000u8 });
    high | HEADER_ON | invert | fade
}

/// Byte `j` (0 = most significant) of a 32-bit channel value.
pub open spec fn colour_byte(v: u32, j: int) -> u8 {
    if j == 0 {
        (v >> 24u32) as u8
    } else if j == 1 {
        (v >> 16u32) as u8
    } else if j == 2 {
        (v >> 8u32) as u8
    } else {
        v as u8
    }
}

/// Value of channel `ch` (0 red, 1 green, 2 blue).
pub open spec fn channel_value(c: EffectConfig, ch: int) -> u32 {
    if ch == 0 {
        c.red
    } else if ch == 1 {
        c.green
    } else {
        c.blue
    }
}

/// The `k`-th (cell, value) pair of an effect, in the order they are written: control,
/// duration low, flags, then the twelve colour cells from `0xF0` up.
pub open spec fn spec_register_write(c: EffectConfig, k: int) -> (u8, u8) {
    if k == 0 {
        (CONTROL_CELL, spec_control_byte(c))
    } else if k == 1 {
        (DURATION_LOW_CELL, spec_duration_low(c))
    } else if k == 2 {
        (FLAGS_CELL, spec_flags_byte(c))
    } else {
        ((RED_CELL + (k - 3)) as u8, colour_byte(channel_value(c, (k - 3) / 4), (k - 3) % 4))
    }
}

/// The whole register bank of an effect, in write order.
pub open spec fn spec_register_bank(c: EffectConfig) -> Seq<(u8, u8)> {
    Seq::new(REGISTER_WRITES as nat, |k: int| spec_register_write(c, k))
}

/// Splits a channel value into its four frame bytes, most significant first.
pub fn colour_bytes(v: u32) -> (r: [u8; 4])
    ensures
        r@ == seq![colour_byte(v, 0), colour_byte(v, 1), colour_byte(v, 2), colour_byte(v, 3)],
{
    let r = [(v >> 24) as u8, (v >> 16) as u8, (v >> 8) as u8, v as u8];
    assert(r@ =~= seq![colour_byte(v, 0), colour_byte(v, 1), colour_byte(v, 2), colour_byte(v, 3)]);
    r
}

/// The `k`-th (cell, value) pair of an effect.
pub fn register_write(c: &EffectConfig, k: usize) -> (r: (u8, u8))
    requires
        c.wf(),
        k < REGISTER_WRITES,
    ensures
        r == spec_register_write(*c, k as int),
{
    if k == 0 {
        (CONTROL_CELL, control_byte(c))
    } else if k == 1 {
        (DURATION_LOW_CELL, duration_low_byte(c))
    } else if k == 2 {
        (FLAGS_CELL, flags_byte(c))
    } else {
        let i: usize = k - 3;
        let v: u32 = if i / 4 == 0 {
            c.red
        } else if i / 4 == 1 {
            c.green
        } else {
            c.blue
        };
        let bytes = colour_bytes(v);
        (RED_CELL + i as u8, bytes[i % 4])
    }
}

/// All (cell, value) pairs of an effect, in the order they must be written.
pub fn register_bank(c: &EffectConfig) -> (r: Vec<(u8, u8)>)
    requires
        c.wf(),
    ensures
        r@ == spec_register_bank(*c),
{
    let mut r: Vec<(u8, u8)> = Vec::new();
    let mut k: usize = 0;
    while k < REGISTER_WRITES
        invariant
            c.wf(),
            k <= REGISTER_WRITES,
            r@ == spec_register_bank(*c).take(k as int),
        decreases REGISTER_WRITES - k,
    {
        r.push(register_write(c, k));
        assert(spec_register_bank(*c).take(k + 1) =~= spec_register_bank(*c).take(k as int).push(
            spec_register_write(*c, k as int),
        ));
        k = k + 1;
    }
    assert(spec_register_bank(*c).take(REGISTER_WRITES as int) =~= spec_register_bank(*c));
    r
}

/// The step duration survives the split over the two cells: bit 0 of the flags cell above
/// the duration-low cell gives back the duration.
pub proof fn lemma_step_duration_round_trip(c: EffectConfig)
    requires
        c.wf(),
    ensures
        ((((spec_flags_byte(c) & 1u8) as u16) << 8u16) | (spec_duration_low(c) as u16))
            == c.step_duration,
{
    let s = c.step_duration;
    let inv = invert_bits(c.invert);
    let fade = fade_bits(c.fade_in);
    let f = spec_flags_byte(c);
    let lo = spec_duration_low(c);
    let (r, g, b) = (c.invert.red, c.invert.green, c.invert.blue);
    let (fr, fg, fb) = (c.fade_in.red, c.fade_in.green, c.fade_in.blue);
    assert(inv & 1u8 == 0u8) by (bit_vector)
        requires
            inv == (if r { 4u8 } else { 0u8 }) | (if g { 8u8 } else { 0u8 }) | (if b { 16u8 } else {
                0u8
            }),
    ;
    assert(fade & 1u8 == 0u8) by (bit_vector)
        requires
            fade == (if fr { 0u8 } else { 32u8 }) | (if fg { 0u8 } else { 64u8 }) | (if fb { 0u8 } else {
                128u8
            }),
    ;
    assert((((f & 1u8) as u16) << 8u16) | (lo as u16) == s) by (bit_vector)
        requires
            s <= 511u16,
            inv & 1u8 == 0u8,
            fade & 1u8 == 0u8,
            f == ((s >> 8u16) & 1u16) as u8 | 2u8 | inv | fade,
            lo == (s & 0xFFu16) as u8,
    ;
}

/// The low three bits of the control byte carry the blink field while the header is not
/// disabled, and bit 3 carries the pulse flag.
pub proof fn lemma_blink_field(c: EffectConfig)
    requires
        c.wf(),
        !c.disabled,
    ensures
        spec_control_byte(c) & 0b111u8 == (if c.blink_rate == 0 {
            0u8
        } else {
            ((c.blink_rate + 1) % 8) as u8
        }),
        (spec_control_byte(c) & 0b1000u8 != 0) == c.pulse,
        c.blink_rate == 1 ==> spec_control_byte(c) & 0b111u8 == 0b010u8,
{
    let b = c.blink_rate;
    let p = c.pulse;
    let x = spec_control_byte(c);
    assert(x & 7u8 == (if b == 0 { 0u8 } else { ((b + 1) % 8) as u8 }) && ((x & 8u8 != 0) == p))
        by (bit_vector)
        requires
            b <= 6u8,
            x == 0u8 | (if p { 8u8 } else { 0u8 }) | (if b == 0 { 0u8 } else { ((b + 1) as u8)
                & 7u8 }),
    ;
}

/// Each channel is stored most significant byte first in four consecutive cells from its base
/// cell, and the four bytes put back together give the channel value.
pub proof fn lemma_colour_big_endian(c: EffectConfig, ch: int, j: int)
    requires
        0 <= ch < 3,
        0 <= j < 4,
    ensures
        spec_register_bank(c)[3 + 4 * ch + j] == ((RED_CELL + 4 * ch + j) as u8, colour_byte(
            channel_value(c, ch),
            j,
        )),
        ch == 0 ==> channel_value(c, ch) == c.red && RED_CELL + 4 * ch == RED_CELL,
        ch == 1 ==> channel_value(c, ch) == c.green && RED_CELL + 4 * ch == GREEN_CELL,
        ch == 2 ==> channel_value(c, ch) == c.blue && RED_CELL + 4 * ch == BLUE_CELL,
        ((colour_byte(channel_value(c, ch), 0) as u32) << 24u32) | ((colour_byte(
            channel_value(c, ch),
            1,
        ) as u32) << 16u32) | ((colour_byte(channel_value(c, ch), 2) as u32) << 8u32) | (
        colour_byte(channel_value(c, ch), 3) as u32) == channel_value(c, ch),
{
    let k = 3 + 4 * ch + j;
    assert((k - 3) / 4 == ch && (k - 3) % 4 == j) by (nonlinear_arith)
        requires
            k == 3 + 4 * ch + j,
            0 <= j < 4,
    ;
    let v = channel_value(c, ch);
    let b0 = colour_byte(v, 0);
    let b1 = colour_byte(v, 1);
    let b2 = colour_byte(v, 2);
    let b3 = colour_byte(v, 3);
    assert(((b0 as u32) << 24u32) | ((b1 as u32) << 16u32) | ((b2 as u32) << 8u32) | (b3 as u32)
        == v) by (bit_vector)
        requires
            b0 == (v >> 24u32) as u8,
            b1 == (v >> 16u32) as u8,
            b2 == (v >> 8u32) as u8,
            b3 == v as u8,
    ;
}

/// The invert flags occupy bits 2-4 of the flags cell, one bit per channel, each set exactly
/// when its channel is inverted; the other bits of the cell do not depend on them.
pub proof fn lemma_invert_flags(c: EffectConfig, other: ChannelSet)
    ensures
        (spec_flags_byte(c) & 0b0000_0100u8 != 0) == c.invert.red,
        (spec_flags_byte(c) & 0b0000_1000u8 != 0) == c.invert.green,
        (spec_flags_byte(c) & 0b0001_0000u8 != 0) == c.invert.blue,
        spec_flags_byte(c) & !0b0001_1100u8 == spec_flags_byte(
            (EffectConfig { invert: other, ..c }),
        ) & !0b0001_1100u8,
        spec_flags_byte(c) & 0b10u8 == 0b10u8,
{
    let h = duration_high_bit(c.step_duration);
    let fade = fade_bits(c.fade_in);
    let f = spec_flags_byte(c);
    let g = spec_flags_byte(EffectConfig { invert: other, ..c });
    let (r, gr, b) = (c.invert.red, c.invert.green, c.invert.blue);
    let (r2, g2, b2) = (other.red, other.green, other.blue);
    let (fr, fg, fb) = (c.fade_in.red, c.fade_in.green, c.fade_in.blue);
    let s = c.step_duration;
    assert(fade & 0x1Fu8 == 0u8) by (bit_vector)
        requires
            fade == (if fr { 0u8 } else { 32u8 }) | (if fg { 0u8 } else { 64u8 }) | (if fb { 0u8 } else {
                128u8
            }),
    ;
    assert(h <= 1u8) by (bit_vector)
        requires
            h == ((s >> 8u16) & 1u16) as u8,
    ;
    assert(((f & 4u8 != 0) == r) && ((f & 8u8 != 0) == gr) && ((f & 16u8 != 0) == b) && (f
        & !0x1Cu8 == g & !0x1Cu8) && (f & 2u8 == 2u8)) by (bit_vector)
        requires
            h <= 1u8,
            fade & 0x1Fu8 == 0u8,
            f == h | 2u8 | ((if r { 4u8 } else { 0u8 }) | (if gr { 8u8 } else { 0u8 }) | (if b {
                16u8
            } else {
                0u8
            })) | fade,
            g == h | 2u8 | ((if r2 { 4u8 } else { 0u8 }) | (if g2 { 8u8 } else { 0u8 }) | (if b2 {
                16u8
            } else {
                0u8
            })) | fade,
    ;
}

} // verus!
