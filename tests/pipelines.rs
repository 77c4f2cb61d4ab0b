use anti_rec::perturbation::PerturbationSequence;
use anti_rec::pipeline::{CapturePipeline, PlaybackPipeline};
use anti_rec::relay::SampleRelay;
use anti_rec::sample::EQUILIBRIUM;

fn level(x: f64) -> i16 {
    (x * 32768.0).round() as i16
}

fn offset(x: f64) -> i32 {
    (x * 32768.0).round() as i32
}

fn capture_pipeline(offsets: Vec<i32>) -> CapturePipeline {
    CapturePipeline::new(PerturbationSequence::new(offsets).unwrap())
}

#[test]
fn empty_perturbation_is_refused() {
    assert!(PerturbationSequence::new(Vec::new()).is_none());
    let s = PerturbationSequence::new(vec![5]).unwrap();
    assert_eq!(s.len(), 1);
    assert_eq!(s.cursor(), 0);
    assert_eq!(s.current(), 5);
}

#[test]
fn perturbation_advances_once_per_pair() {
    let mut s = PerturbationSequence::new(vec![10, 20, 30]).unwrap();
    let taken: Vec<i32> = (0..8).map(|_| s.consume()).collect();
    assert_eq!(taken, vec![10, 10, 20, 20, 30, 30, 10, 10]);
    assert_eq!(s.cursor(), 1);
}

#[test]
fn stereo_scenario_perturbs_per_frame() {
    let mut pipeline = capture_pipeline(vec![offset(0.1), offset(-0.1)]);
    let mut relay = SampleRelay::new();
    let data = vec![level(0.2), level(0.2), level(0.3), level(0.3)];
    let batch = pipeline.capture(&mut relay, &data);
    let expected = [0.3, 0.3, 0.2, 0.2];
    assert_eq!(batch.perturbed.len(), 4);
    for (v, e) in batch.perturbed.iter().zip(expected.iter()) {
        assert!((*v as f64 / 32768.0 - e).abs() < 1e-3);
    }
    assert_eq!(batch.perturbed, vec![9831, 9831, 6553, 6553]);
    assert_eq!(batch.original, data);
    assert_eq!(pipeline.cursor(), 0);
    assert_eq!(relay.len(), 4);
}

#[test]
fn cursor_cycles_after_two_n_k_samples() {
    let mut pipeline = capture_pipeline(vec![1, 2, 3]);
    let mut relay = SampleRelay::new();
    pipeline.capture(&mut relay, &[0; 3]);
    let start = pipeline.cursor();
    assert_eq!(start, 1);
    pipeline.capture(&mut relay, &[0; 12]);
    assert_eq!(pipeline.cursor(), start);
    pipeline.capture(&mut relay, &[0; 6]);
    assert_eq!(pipeline.cursor(), start);
}

#[test]
fn capture_records_every_third_original_sample() {
    let mut pipeline = capture_pipeline(vec![100]);
    let mut relay = SampleRelay::new();
    let batch = pipeline.capture(&mut relay, &[1, 2, 3, 4, 5, 6, 7]);
    assert_eq!(batch.recorded, vec![3, 6]);
    assert_eq!(batch.perturbed, vec![101, 102, 103, 104, 105, 106, 107]);
    let batch = pipeline.capture(&mut relay, &[8, 9, 10, 11]);
    assert_eq!(batch.recorded, vec![9]);
    let batch = pipeline.capture(&mut relay, &[12, 13]);
    assert_eq!(batch.recorded, vec![12]);
}

#[test]
fn decimation_writes_m_of_three_m() {
    let mut pipeline = capture_pipeline(vec![0]);
    let mut relay = SampleRelay::new();
    pipeline.capture(&mut relay, &[0; 2]);
    let batch = pipeline.capture(&mut relay, &[0; 15]);
    assert_eq!(batch.recorded.len(), 5);
    let mut playback = PlaybackPipeline::new();
    let out = playback.playback(&mut relay, 1);
    assert_eq!(out.recorded.len(), 0);
    let out = playback.playback(&mut relay, 9);
    assert_eq!(out.recorded.len(), 3);
}

#[test]
fn relay_is_last_in_first_out() {
    let mut relay = SampleRelay::new();
    assert!(relay.is_empty());
    relay.push(1);
    relay.push(2);
    relay.push(3);
    assert_eq!(relay.pop(), Some(3));
    assert_eq!(relay.pop(), Some(2));
    assert_eq!(relay.len(), 1);
    assert_eq!(relay.pop(), Some(1));
    assert_eq!(relay.pop(), None);
}

#[test]
fn underrun_plays_silence_without_recording() {
    let mut playback = PlaybackPipeline::new();
    let mut relay = SampleRelay::new();
    let batch = playback.playback(&mut relay, 5);
    assert_eq!(batch.output, vec![EQUILIBRIUM as i64; 5]);
    assert_eq!(batch.output, vec![0i64; 5]);
    assert!(batch.recorded.is_empty());
}

#[test]
fn playback_pops_newest_first_unclamped() {
    let mut relay = SampleRelay::new();
    for v in [10i64, 40_000, 30, -50_000, 50] {
        relay.push(v);
    }
    let mut playback = PlaybackPipeline::new();
    let batch = playback.playback(&mut relay, 3);
    assert_eq!(batch.output, vec![50, -50000, 30]);
    assert_eq!(batch.recorded, vec![30]);
    assert_eq!(relay.len(), 2);
    let batch = playback.playback(&mut relay, 4);
    assert_eq!(batch.output, vec![40000, 10, 0, 0]);
    assert!(batch.recorded.is_empty());
    assert!(relay.is_empty());
}

#[test]
fn capture_feeds_playback() {
    let mut pipeline = capture_pipeline(vec![1000, -1000]);
    let mut relay = SampleRelay::new();
    let batch = pipeline.capture(&mut relay, &[0, 0, 0, 0, 32767, 32767]);
    assert_eq!(batch.perturbed, vec![1000, 1000, -1000, -1000, 33767, 33767]);
    let mut playback = PlaybackPipeline::new();
    let out = playback.playback(&mut relay, 6);
    assert_eq!(out.output, vec![33767, 33767, -1000, -1000, 1000, 1000]);
    assert_eq!(out.recorded, vec![-1000, 1000]);
}

#[test]
fn full_scale_plays_back_exactly_and_records_extremes() {
    let mut relay = SampleRelay::new();
    for v in [32768i64, 0, 0, -32768, 0, 0] {
        relay.push(v);
    }
    let mut playback = PlaybackPipeline::new();
    let batch = playback.playback(&mut relay, 6);
    assert_eq!(batch.output, vec![0, 0, -32768, 0, 0, 32768]);
    let as_f32: Vec<f32> = batch.output.iter().map(|v| *v as f32 / 32768.0).collect();
    assert_eq!(as_f32, vec![0.0, 0.0, -1.0, 0.0, 0.0, 1.0]);
    assert_eq!(batch.recorded, vec![i16::MIN, i16::MAX]);
}

#[test]
fn capture_counter_persists_across_calls() {
    let mut pipeline = capture_pipeline(vec![0]);
    let mut relay = SampleRelay::new();
    let mut written = 0;
    for _ in 0..3 {
        written += pipeline.capture(&mut relay, &[7, 8]).recorded.len();
    }
    assert_eq!(written, 2);
}

#[test]
fn playback_counter_counts_only_pops_across_calls() {
    let mut relay = SampleRelay::new();
    for v in [1i64, 2, 3] {
        relay.push(v);
    }
    let mut playback = PlaybackPipeline::new();
    let first = playback.playback(&mut relay, 2);
    assert!(first.recorded.is_empty());
    let second = playback.playback(&mut relay, 4);
    assert_eq!(second.output, vec![1, 0, 0, 0]);
    assert_eq!(second.recorded, vec![1]);
    relay.push(4);
    relay.push(5);
    relay.push(6);
    let third = playback.playback(&mut relay, 5);
    assert_eq!(third.output, vec![6, 5, 4, 0, 0]);
    assert_eq!(third.recorded, vec![4]);
}

#[test]
fn each_capture_batch_starts_a_new_frame() {
    let mut pipeline = capture_pipeline(vec![10, 20]);
    let mut relay = SampleRelay::new();
    let first = pipeline.capture(&mut relay, &[0, 0, 0]);
    assert_eq!(first.perturbed, vec![10, 10, 20]);
    assert_eq!(pipeline.cursor(), 1);
    let second = pipeline.capture(&mut relay, &[0, 0, 0]);
    assert_eq!(second.perturbed, vec![20, 20, 10]);
    assert_eq!(pipeline.cursor(), 0);
}
