use avplay::output::{
    output_layout, output_sample, pick_output_config, silence_word, DeviceSampleFormat,
    OutputLayout, OutputSample,
};
use avplay::select::StreamCycle;

#[test]
fn layouts_for_channel_counts() {
    assert_eq!(output_layout(1), Some(OutputLayout::Mono));
    assert_eq!(output_layout(2), Some(OutputLayout::Stereo));
    assert_eq!(output_layout(6), None);
    assert_eq!(output_layout(0), None);
}

#[test]
fn sample_formats() {
    assert_eq!(output_sample(DeviceSampleFormat::U8), Some(OutputSample::U8Packed));
    assert_eq!(output_sample(DeviceSampleFormat::F32), Some(OutputSample::F32Packed));
    assert_eq!(output_sample(DeviceSampleFormat::I16), None);
    assert_eq!(silence_word(OutputSample::U8Packed), 128);
    assert_eq!(silence_word(OutputSample::F32Packed), 0.0f32.to_bits());
}

#[test]
fn highest_rate_wins() {
    assert_eq!(pick_output_config(&vec![]), None);
    assert_eq!(pick_output_config(&vec![44_100]), Some(0));
    assert_eq!(pick_output_config(&vec![44_100, 192_000, 48_000]), Some(1));
    assert_eq!(pick_output_config(&vec![48_000, 96_000, 96_000]), Some(1));
}

#[test]
fn stream_cycle_wraps() {
    assert!(StreamCycle::new(vec![1, 3, 4], 2).is_none());
    let mut c = StreamCycle::new(vec![1, 3, 4], 3).unwrap();
    assert_eq!(c.current_stream(), 3);
    assert_eq!(c.ordinal(), 1);
    assert_eq!(c.count(), 3);
    assert_eq!(c.cycle(), 4);
    assert_eq!(c.ordinal(), 2);
    assert_eq!(c.cycle(), 1);
    assert_eq!(c.ordinal(), 0);
    assert_eq!(c.cycle(), 3);
}

