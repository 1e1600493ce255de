use fastplay::audio_batcher::{AudioBatcher, Stamps};
use fastplay::generations::{OpenGeneration, OperationId, SeekGeneration};
use fastplay::media::AudioStreamFormat;
use fastplay::time::Duration;

fn stamps(seek: u64) -> Stamps {
    Stamps {
        open_gen: OpenGeneration(0),
        seek_gen: SeekGeneration(seek),
        op_id: OperationId(0),
    }
}

fn drive(reset_between: bool) -> Vec<Duration> {
    let format = AudioStreamFormat::stereo_f32_48khz();
    let mut batcher = AudioBatcher::new(format);
    let mut produced = 0u64;
    let mut emitted: Vec<Duration> = Vec::new();
    let bpf = format.bytes_per_frame() as usize;
    let data = vec![0u8; 10 * bpf];

    if let Some(f) = batcher.push(
        Duration::from_millis(14_300),
        10,
        &data,
        stamps(0),
        &mut produced,
    ) {
        emitted.push(f.pts);
    }
    if reset_between {
        batcher.reset();
    }
    if let Some(f) = batcher.push(
        Duration::from_millis(7_000),
        10,
        &data,
        stamps(1),
        &mut produced,
    ) {
        emitted.push(f.pts);
    }
    if let Some(f) = batcher.flush(stamps(1), &mut produced) {
        emitted.push(f.pts);
    }
    emitted
}

#[test]
fn reset_on_seek_stamps_post_seek_audio_with_post_seek_pts() {
    assert_eq!(drive(true), vec![Duration::from_millis(7_000)]);
}

#[test]
fn without_reset_stale_pre_seek_pts_leaks() {
    assert_eq!(drive(false), vec![Duration::from_millis(14_300)]);
}

#[test]
fn a_full_batch_is_handed_over() {
    let format = AudioStreamFormat::stereo_f32_48khz();
    let mut batcher = AudioBatcher::new(format);
    let target = batcher.target_frames;
    let mut produced = 0u64;
    let first = vec![1u8; 8];
    assert!(batcher
        .push(Duration::from_millis(5), 1, &first, stamps(3), &mut produced)
        .is_none());
    assert_eq!(produced, 0);
    let rest = vec![2u8; 8 * (target as usize - 1)];
    let frame = batcher
        .push(
            Duration::from_millis(6),
            target - 1,
            &rest,
            stamps(4),
            &mut produced,
        )
        .unwrap();
    assert_eq!(frame.pts, Duration::from_millis(5));
    assert_eq!(frame.frame_count, target);
    assert_eq!(frame.seek_gen, SeekGeneration(4));
    assert_eq!(frame.data.len(), 8 * target as usize);
    assert_eq!((frame.data[0], frame.data[8]), (1, 2));
    assert_eq!(produced, 1);
    assert!(batcher.flush(stamps(4), &mut produced).is_none());
    assert_eq!(produced, 1);
}
