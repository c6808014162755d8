use touhou::interpolator::{Formula, Interpolator1, Progress};

fn sample(i: &Interpolator1, frame: u16) -> f32 {
    match i.progress(frame) {
        Progress::Done => f32::from_bits(i.end_values),
        Progress::Running { elapsed, duration } => {
            let start = f32::from_bits(i.start_values);
            let end = f32::from_bits(i.end_values);
            start + (elapsed as f32 / duration as f32) * (end - start)
        }
    }
}

#[test]
fn interpolator_linear_end_bias() {
    let i = Interpolator1::new(0.0f32.to_bits(), 10, 100.0f32.to_bits(), 20, Formula::Linear);
    assert_eq!(i.progress(15), Progress::Running { elapsed: 5, duration: 10 });
    assert_eq!(sample(&i, 15), 50.0);
    assert_eq!(i.progress(19), Progress::Done);
    assert_eq!(sample(&i, 19), 100.0);
    assert_eq!(sample(&i, 20), 100.0);
    assert_eq!(sample(&i, 65535), 100.0);
}
