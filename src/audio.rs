use vstd::prelude::*;

verus! {

/// Amplitude of the beep.
pub const TONE_VOLUME: i16 = 1000;

/// Samples per half period of the beep.
pub const TONE_HALF_PERIOD: usize = 187;

/// Samples in one buffer of the beep.
pub const TONE_SAMPLES: usize = 8000;

/// Sample `x` of the square wave: high for the even half periods, low for
/// the odd ones.
pub open spec fn square_wave_sample(x: int) -> i16 {
    if (x / TONE_HALF_PERIOD as int) % 2 == 0 {
        TONE_VOLUME
    } else {
        (-TONE_VOLUME) as i16
    }
}

/// One buffer of the square wave that the host plays while the sound timer
/// runs.
pub fn generate_sound() -> (r: Vec<i16>)
    ensures
        r@.len() == TONE_SAMPLES,
        forall|x: int| 0 <= x < TONE_SAMPLES ==> r@[x] == square_wave_sample(x),
{
    let mut result: Vec<i16> = Vec::new();
    let mut x: usize = 0;
    while x < TONE_SAMPLES
        invariant
            x <= TONE_SAMPLES,
            result@.len() == x,
            forall|j: int| 0 <= j < x ==> result@[j] == square_wave_sample(j),
        decreases TONE_SAMPLES - x,
    {
        let sample = if (x / TONE_HALF_PERIOD) % 2 == 0 {
            TONE_VOLUME
        } else {
            -TONE_VOLUME
        };
        result.push(sample);
        x = x + 1;
    }
    result
}

} // verus!
