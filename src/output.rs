//! Negotiation with the audio output device: which of its configurations to
//! use, and how its sample format and channel count map to the resampler's
//! target.
use vstd::prelude::*;

verus! {

/// The sample formats an output device may report.
#[derive(Clone, Copy, Debug, PartialEq, Eq, Structural)]
pub enum DeviceSampleFormat {
    I8,
    I16,
    I32,
    I64,
    U8,
    U16,
    U32,
    U64,
    F32,
    F64,
}

/// The packed sample formats the resampler produces for the device.
#[derive(Clone, Copy, Debug, PartialEq, Eq, Structural)]
pub enum OutputSample {
    U8Packed,
    F32Packed,
}

/// The channel layouts the resampler produces for the device.
#[derive(Clone, Copy, Debug, PartialEq, Eq, Structural)]
pub enum OutputLayout {
    Mono,
    Stereo,
}

/// The resampler's target format for a device format: unsigned 8-bit and
/// 32-bit float are supported, packed.
pub fn output_sample(format: DeviceSampleFormat) -> (s: Option<OutputSample>)
    ensures
        s == match format {
            DeviceSampleFormat::U8 => Some(OutputSample::U8Packed),
            DeviceSampleFormat::F32 => Some(OutputSample::F32Packed),
            _ => None::<OutputSample>,
        },
{
    match format {
        DeviceSampleFormat::U8 => Some(OutputSample::U8Packed),
        DeviceSampleFormat::F32 => Some(OutputSample::F32Packed),
        _ => None,
    }
}

/// The channel layout for a device's channel count: one is mono, two is
/// stereo.
pub fn output_layout(channels: u16) -> (l: Option<OutputLayout>)
    ensures
        l == if channels == 1 {
            Some(OutputLayout::Mono)
        } else if channels == 2 {
            Some(OutputLayout::Stereo)
        } else {
            None::<OutputLayout>
        },
{
    if channels == 1 {
        Some(OutputLayout::Mono)
    } else if channels == 2 {
        Some(OutputLayout::Stereo)
    } else {
        None
    }
}

/// The sample word of silence in a format: the equilibrium value, 128 for
/// unsigned 8-bit and the bits of 0.0 for 32-bit float.
pub fn silence_word(s: OutputSample) -> (w: u32)
    ensures
        w == match s {
            OutputSample::U8Packed => 128u32,
            OutputSample::F32Packed => 0u32,
        },
{
    match s {
        OutputSample::U8Packed => 128,
        OutputSample::F32Packed => 0,
    }
}

/// Picks the configuration with the highest maximum sample rate, the first
/// of equals, given each configuration's maximum rate; `None` when there is
/// none.
pub fn pick_output_config(max_rates: &Vec<u32>) -> (pick: Option<usize>)
    ensures
        max_rates@.len() == 0 <==> pick is None,
        match pick {
            Some(i) => {
                &&& i < max_rates@.len()
                &&& forall|j: int| 0 <= j < max_rates@.len() ==> max_rates@[j] <= max_rates@[i as int]
                &&& forall|j: int| 0 <= j < i ==> max_rates@[j] < max_rates@[i as int]
            },
            None => true,
        },
{
    if max_rates.len() == 0 {
        return None;
    }
    let mut best: usize = 0;
    let mut k: usize = 1;
    while k < max_rates.len()
        invariant
            1 <= k <= max_rates@.len(),
            best < k,
            forall|j: int| 0 <= j < k ==> max_rates@[j] <= max_rates@[best as int],
            forall|j: int| 0 <= j < best ==> max_rates@[j] < max_rates@[best as int],
        decreases max_rates@.len() - k,
    {
        if max_rates[k] > max_rates[best] {
            best = k;
        }
        k = k + 1;
    }
    Some(best)
}

} // verus!
