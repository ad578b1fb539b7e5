use aug_media_player::media::MediaFileMetadata;
use aug_media_player::sampler::sample_frames;
use aug_media_player::sampler::Frame;
use aug_media_player::sampler::SecondSampler;

#[test]
fn first_frame_is_always_sampled() {
    let mut sampler = SecondSampler::new();
    let r = sampler.offer(Frame { timestamp_ns: 0, width: 640, height: 480 });
    assert_eq!(
        r,
        Some(MediaFileMetadata { timestamp: 0, x: 0, y: 0, width: 640, height: 480 })
    );
    assert_eq!(sampler.last_second, Some(0));
}

#[test]
fn later_frames_of_the_same_second_are_dropped() {
    let mut sampler = SecondSampler::new();
    sampler.offer(Frame { timestamp_ns: 0, width: 640, height: 480 });
    let r = sampler.offer(Frame { timestamp_ns: 999_999_999, width: 640, height: 480 });
    assert_eq!(r, None);
    assert_eq!(sampler.last_second, Some(0));
}

#[test]
fn first_frame_of_a_later_second_is_sampled() {
    let mut sampler = SecondSampler::new();
    sampler.offer(Frame { timestamp_ns: 500_000_000, width: 640, height: 480 });
    let r = sampler.offer(Frame { timestamp_ns: 2_700_000_000, width: 320, height: 240 });
    assert_eq!(
        r,
        Some(MediaFileMetadata { timestamp: 2, x: 0, y: 0, width: 320, height: 240 })
    );
}

#[test]
fn frames_of_an_earlier_second_are_dropped() {
    let mut sampler = SecondSampler::new();
    sampler.offer(Frame { timestamp_ns: 2_500_000_000, width: 640, height: 480 });
    let r = sampler.offer(Frame { timestamp_ns: 1_000_000_000, width: 640, height: 480 });
    assert_eq!(r, None);
    assert_eq!(sampler.last_second, Some(2));
}

#[test]
fn one_record_per_elapsed_second() {
    let frames = vec![
        Frame { timestamp_ns: 0, width: 640, height: 480 },
        Frame { timestamp_ns: 400_000_000, width: 640, height: 480 },
        Frame { timestamp_ns: 800_000_000, width: 640, height: 480 },
        Frame { timestamp_ns: 1_200_000_000, width: 640, height: 480 },
        Frame { timestamp_ns: 1_600_000_000, width: 640, height: 480 },
        Frame { timestamp_ns: 2_000_000_000, width: 640, height: 480 },
        Frame { timestamp_ns: 4_500_000_000, width: 640, height: 480 },
    ];
    let records = sample_frames(&frames);
    let seconds: Vec<u64> = records.iter().map(|m| m.timestamp).collect();
    assert_eq!(seconds, vec![0, 1, 2, 4]);
}

#[test]
fn sampled_seconds_strictly_increase() {
    let frames = vec![
        Frame { timestamp_ns: 900_000_000, width: 640, height: 480 },
        Frame { timestamp_ns: 950_000_000, width: 640, height: 480 },
        Frame { timestamp_ns: 3_100_000_000, width: 640, height: 480 },
        Frame { timestamp_ns: 1_000_000_000, width: 640, height: 480 },
        Frame { timestamp_ns: 5_000_000_000, width: 640, height: 480 },
    ];
    let records = sample_frames(&frames);
    let seconds: Vec<u64> = records.iter().map(|m| m.timestamp).collect();
    assert_eq!(seconds, vec![0, 3, 5]);
    for pair in seconds.windows(2) {
        assert!(pair[0] < pair[1]);
    }
}

#[test]
fn sampling_nothing_yields_nothing() {
    let records = sample_frames(&Vec::new());
    assert!(records.is_empty());
}
