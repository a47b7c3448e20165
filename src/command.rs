//! Command frames written to the cooler's interrupt endpoint: fan and pump
//! speeds, and the lighting colors.

use vstd::prelude::*;

verus! {

/// Highest speed, in percent, that a speed frame carries.
pub const MAX_SPEED: u8 = 100;

/// Lighting mode of a fixed color.
pub const FIXED_MODE: u8 = 0x06;

/// Lighting mode of a sequence of random colors.
pub const RANDOM_MODE: u8 = 0x04;

/// Number of steps in a lighting sequence.
pub const SEQUENCE_STEPS: u8 = 8;

/// The actuator that a speed frame addresses.
#[derive(Clone, Copy, Debug, PartialEq, Eq, Structural)]
pub enum Channel {
    Fan,
    Pump,
}

/// The selector byte of a channel.
pub open spec fn selector(channel: Channel) -> u8 {
    match channel {
        Channel::Fan => 0x00,
        Channel::Pump => 0x40,
    }
}

/// A speed clamped to `MAX_SPEED`.
pub open spec fn clamp_speed(percent: u8) -> u8 {
    if percent > MAX_SPEED {
        MAX_SPEED
    } else {
        percent
    }
}

/// The five bytes that set a channel's speed.
pub open spec fn spec_encode_speed(channel: Channel, percent: u8) -> Seq<u8> {
    seq![0x02u8, 0x4du8, selector(channel), 0x00u8, clamp_speed(percent)]
}

/// Builds the frame that sets the fan's or the pump's speed, in percent.
/// A speed above `MAX_SPEED` is sent as `MAX_SPEED`.
pub fn encode_speed(channel: Channel, percent: u8) -> (r: [u8; 5])
    ensures
        r@ == spec_encode_speed(channel, percent),
{
    let selector: u8 = match channel {
        Channel::Fan => 0x00,
        Channel::Pump => 0x40,
    };
    let speed: u8 = if percent > MAX_SPEED { MAX_SPEED } else { percent };
    let r: [u8; 5] = [0x02, 0x4d, selector, 0x00, speed];
    assert(r@ =~= spec_encode_speed(channel, percent));
    r
}

/// A single color.
#[derive(Clone, Copy, Debug, PartialEq, Eq, Structural)]
pub struct RGB {
    pub r: u8,
    pub g: u8,
    pub b: u8,
}

/// Relies on rand::random::<u8>, which draws a byte from the thread's
/// generator; nothing is known of its value.
#[verifier::external_body]
fn random_byte() -> (r: u8) {
    rand::random::<u8>()
}

impl RGB {
    /// A color with random components.
    pub fn rand() -> (r: RGB) {
        RGB { r: random_byte(), g: random_byte(), b: random_byte() }
    }
}

/// The fifth byte of a color frame: the step of the sequence, in its top
/// three bits.
pub open spec fn sequence_byte(step: u8) -> u8 {
    (0x02u8 | ((step & 0x07u8) << 5u8)) as u8
}

/// The byte at `i` of a color frame.
pub open spec fn color_byte(mode: u8, step: u8, text: RGB, i: int) -> u8 {
    if i == 0 {
        0x02
    } else if i == 1 {
        0x4c
    } else if i == 2 {
        0x00
    } else if i == 3 {
        mode
    } else if i == 4 {
        sequence_byte(step)
    } else if i == 5 {
        text.g
    } else if i == 6 {
        text.r
    } else if i == 7 {
        text.b
    } else if (i - 8) % 3 == 0 {
        text.r
    } else if (i - 8) % 3 == 1 {
        text.g
    } else {
        text.b
    }
}

/// Whether `frame` is the color frame of a mode, a step and a text color.
pub open spec fn is_color_frame(frame: [u8; 32], mode: u8, step: u8, text: RGB) -> bool {
    forall|i: int| 0 <= i < 32 ==> frame[i] == color_byte(mode, step, text, i)
}

/// Builds the 32-byte frame that sets the lighting: a header with the mode,
/// the step and the text color (green first), then the text color eight
/// times over, red first. The palette is not sent.
pub fn color_msg(mode: u8, step: u8, text: RGB, colors: &[RGB; 8]) -> (r: [u8; 32])
    ensures
        is_color_frame(r, mode, step, text),
{
    let mut result: [u8; 32] = [0; 32];
    result[0] = 0x02;
    result[1] = 0x4c;
    result[2] = 0x00;
    result[3] = mode;
    result[4] = 0x02 | ((step & 0x07) << 5);
    result[5] = text.g;
    result[6] = text.r;
    result[7] = text.b;
    let mut k: usize = 0;
    while k < 8
        invariant
            k <= 8,
            forall|i: int| 0 <= i < 8 + 3 * k ==> result[i] == color_byte(mode, step, text, i),
        decreases 8 - k,
    {
        result[k * 3 + 8] = text.r;
        result[k * 3 + 9] = text.g;
        result[k * 3 + 10] = text.b;
        k = k + 1;
    }
    result
}

/// The frame that sets a fixed text color.
pub fn fixed_color_frame(text: RGB, colors: &[RGB; 8]) -> (r: [u8; 32])
    ensures
        is_color_frame(r, FIXED_MODE, 0, text),
{
    color_msg(FIXED_MODE, 0, text, colors)
}

/// Whether `frame` is the color frame of a step of a random sequence, with
/// some text color.
pub open spec fn is_random_step(frame: [u8; 32], step: int) -> bool {
    exists|text: RGB| #[trigger] is_color_frame(frame, RANDOM_MODE, step as u8, text)
}

/// The frames of a random lighting sequence: one for each step, each with a
/// text color of its own.
pub fn random_color_frames() -> (r: Vec<[u8; 32]>)
    ensures
        r@.len() == SEQUENCE_STEPS,
        forall|s: int| 0 <= s < SEQUENCE_STEPS ==> #[trigger] is_random_step(r@[s], s),
{
    let mut frames: Vec<[u8; 32]> = Vec::new();
    let mut step: u8 = 0;
    while step < SEQUENCE_STEPS
        invariant
            step <= SEQUENCE_STEPS,
            frames@.len() == step,
            forall|s: int| 0 <= s < step ==> #[trigger] is_random_step(frames@[s], s),
        decreases SEQUENCE_STEPS - step,
    {
        let text = RGB::rand();
        let colors = [RGB::rand(); 8];
        let frame = color_msg(RANDOM_MODE, step, text, &colors);
        frames.push(frame);
        assert(frames@[step as int] == frame);
        assert(is_color_frame(frames@[step as int], RANDOM_MODE, (step as int) as u8, text));
        assert(is_random_step(frames@[step as int], step as int));
        step = step + 1;
    }
    frames
}


/// Any speed at or above `MAX_SPEED` gives the frame of `MAX_SPEED`.
pub proof fn lemma_speed_clamps(channel: Channel, percent: u8)
    requires
        percent >= MAX_SPEED,
    ensures
        spec_encode_speed(channel, percent) == spec_encode_speed(channel, MAX_SPEED),
{
}

} // verus!
