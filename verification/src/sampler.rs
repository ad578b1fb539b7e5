//! Per-second sampling of decoded frames: of all the frames a pipeline
//! delivers, one metadata record is kept for each elapsed whole second.

use vstd::prelude::*;

use crate::media::MediaFileMetadata;

verus! {

/// One decoded frame as the sampler sees it: its presentation timestamp and
/// the dimensions read from its caps.
#[derive(Clone, Copy, PartialEq, Eq, Structural, Debug)]
pub struct Frame {
    /// Presentation timestamp, in nanoseconds.
    pub timestamp_ns: u64,
    /// Width of the frame.
    pub width: u32,
    /// Height of the frame.
    pub height: u32,
}

/// The whole second a timestamp falls in.
pub open spec fn spec_second_of(timestamp_ns: u64) -> u64 {
    (timestamp_ns / 1_000_000_000) as u64
}

/// Whether a frame in second `cur` is sampled when `last` is the last
/// sampled second: the very first frame is, and so is the first frame of
/// each later second.
pub open spec fn spec_accepts(last: Option<u64>, cur: u64) -> bool {
    match last {
        None => true,
        Some(l) => cur > l,
    }
}

/// The metadata record taken from a sampled frame: its whole second and its
/// dimensions, positioned at the origin.
pub open spec fn spec_frame_metadata(f: Frame) -> MediaFileMetadata {
    MediaFileMetadata {
        timestamp: spec_second_of(f.timestamp_ns),
        x: 0,
        y: 0,
        width: f.width,
        height: f.height,
    }
}

/// The records that per-second sampling takes from `frames`, with `last` as
/// the last sampled second so far.
pub open spec fn spec_sample(frames: Seq<Frame>, last: Option<u64>) -> Seq<MediaFileMetadata>
    decreases frames.len(),
{
    if frames.len() == 0 {
        Seq::empty()
    } else {
        let cur = spec_second_of(frames[0].timestamp_ns);
        if spec_accepts(last, cur) {
            seq![spec_frame_metadata(frames[0])] + spec_sample(frames.drop_first(), Some(cur))
        } else {
            spec_sample(frames.drop_first(), last)
        }
    }
}

/// The sampling filter itself: it remembers the last second it kept a frame
/// for.
#[derive(Clone, Copy, PartialEq, Eq, Debug)]
pub struct SecondSampler {
    /// The last whole second a frame was kept for, once any was.
    pub last_second: Option<u64>,
}

impl SecondSampler {
    /// A filter that has kept nothing yet, so the first frame offered is
    /// always kept.
    pub fn new() -> (r: SecondSampler)
        ensures
            r.last_second is None,
    {
        SecondSampler { last_second: None }
    }

    /// Offers one frame: the record for it when its whole second is new,
    /// nothing otherwise.
    pub fn offer(&mut self, frame: Frame) -> (r: Option<MediaFileMetadata>)
        ensures
            ({
                let cur = spec_second_of(frame.timestamp_ns);
                if spec_accepts(old(self).last_second, cur) {
                    final(self).last_second == Some(cur) && r == Some(spec_frame_metadata(frame))
                } else {
                    *final(self) == *old(self) && r is None
                }
            }),
    {
        let cur = frame.timestamp_ns / 1_000_000_000;
        let keep = match self.last_second {
            None => true,
            Some(l) => cur > l,
        };
        if keep {
            self.last_second = Some(cur);
            Some(
                MediaFileMetadata {
                    timestamp: cur,
                    x: 0,
                    y: 0,
                    width: frame.width,
                    height: frame.height,
                },
            )
        } else {
            None
        }
    }
}

/// Runs the filter over a whole sequence of frames, in order, keeping the
/// records of the frames it samples.
pub fn sample_frames(frames: &Vec<Frame>) -> (r: Vec<MediaFileMetadata>)
    ensures
        r@ == spec_sample(frames@, None::<u64>),
{
    let mut sampler = SecondSampler::new();
    let mut out: Vec<MediaFileMetadata> = Vec::new();
    let mut i: usize = 0;
    proof {
        assert(frames@.skip(0) =~= frames@);
        assert(Seq::<MediaFileMetadata>::empty() + spec_sample(frames@, None::<u64>)
            =~= spec_sample(frames@, None::<u64>));
    }
    while i < frames.len()
        invariant
            i <= frames@.len(),
            out@ + spec_sample(frames@.skip(i as int), sampler.last_second) == spec_sample(
                frames@,
                None::<u64>,
            ),
        decreases frames@.len() - i,
    {
        let ghost prev_out = out@;
        let ghost rest = frames@.skip(i as int);
        let f = frames[i];
        proof {
            assert(rest[0] == frames@[i as int]);
            assert(rest.drop_first() =~= frames@.skip(i as int + 1));
        }
        let sampled = sampler.offer(f);
        match sampled {
            Some(m) => {
                out.push(m);
                proof {
                    assert(out@ =~= prev_out + seq![m]);
                    assert((prev_out + seq![m]) + spec_sample(
                        frames@.skip(i as int + 1),
                        sampler.last_second,
                    ) =~= prev_out + (seq![m] + spec_sample(
                        frames@.skip(i as int + 1),
                        sampler.last_second,
                    )));
                }
            },
            None => {},
        }
        i += 1;
    }
    proof {
        assert(frames@.skip(i as int) =~= Seq::<Frame>::empty());
        assert(out@ + Seq::<MediaFileMetadata>::empty() =~= out@);
    }
    out
}

/// Every record sampled with `l` as the last kept second lies in a strictly
/// later second than `l`.
proof fn lemma_sample_above_last(frames: Seq<Frame>, l: u64)
    ensures
        forall|k: int|
            0 <= k < spec_sample(frames, Some(l)).len() ==> spec_sample(frames, Some(l))[k].timestamp
                > l,
    decreases frames.len(),
{
    if frames.len() > 0 {
        let cur = spec_second_of(frames[0].timestamp_ns);
        let rest = frames.drop_first();
        if spec_accepts(Some(l), cur) {
            lemma_sample_above_last(rest, cur);
            let out = spec_sample(frames, Some(l));
            let head = seq![spec_frame_metadata(frames[0])];
            let tail = spec_sample(rest, Some(cur));
            assert(out == head + tail);
            assert forall|k: int| 0 <= k < out.len() implies out[k].timestamp > l by {
                if k == 0 {
                    assert(out[0] == spec_frame_metadata(frames[0]));
                } else {
                    assert(out[k] == tail[k - 1]);
                    assert(tail[k - 1].timestamp > cur);
                }
            }
        } else {
            lemma_sample_above_last(rest, l);
            assert(spec_sample(frames, Some(l)) == spec_sample(rest, Some(l)));
        }
    }
}

/// The seconds recorded by per-second sampling strictly increase: each
/// record's timestamp lies above every earlier record's.
pub proof fn lemma_sample_timestamps_increase(frames: Seq<Frame>, last: Option<u64>)
    ensures
        forall|i: int, j: int|
            0 <= i < j < spec_sample(frames, last).len() ==> spec_sample(frames, last)[i].timestamp
                < spec_sample(frames, last)[j].timestamp,
    decreases frames.len(),
{
    if frames.len() > 0 {
        let cur = spec_second_of(frames[0].timestamp_ns);
        let rest = frames.drop_first();
        if spec_accepts(last, cur) {
            lemma_sample_timestamps_increase(rest, Some(cur));
            lemma_sample_above_last(rest, cur);
            let out = spec_sample(frames, last);
            let head = seq![spec_frame_metadata(frames[0])];
            let tail = spec_sample(rest, Some(cur));
            assert(out == head + tail);
            assert forall|i: int, j: int|
                0 <= i < j < out.len() implies out[i].timestamp < out[j].timestamp by {
                assert(out[j] == tail[j - 1]);
                assert(tail[j - 1].timestamp > cur);
                if i == 0 {
                    assert(out[0] == spec_frame_metadata(frames[0]));
                } else {
                    assert(out[i] == tail[i - 1]);
                    assert(tail[i - 1].timestamp < tail[j - 1].timestamp);
                }
            }
        } else {
            lemma_sample_timestamps_increase(rest, last);
            assert(spec_sample(frames, last) == spec_sample(rest, last));
        }
    }
}

} // verus!
