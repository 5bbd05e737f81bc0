//! The playout buffer: holds decoded frames until they are due, with a delay
//! that follows the measured jitter of their arrival.
use crate::frames::{Platform, VideoFrameBuffer};
use crate::text::parse_unsigned;
use crate::time::{nearest_quotient, Duration, Instant};
use std::collections::VecDeque;
use vstd::prelude::*;
use vstd::std_specs::vecdeque::*;

verus! {

/// The jitter estimate counts in this many parts of a nanosecond.
pub const JITTER_SCALE: u64 = 65_536;

/// The most that a single arrival can deviate from the frame interval, so that
/// one long gap (idle, then motion) does not blow up the estimate.
pub const MAX_SAMPLE_DEVIATION_NANOS: u64 = 100_000_000;

/// The most headroom that jitter can buy.
pub const MAX_ADAPTIVE_DELAY_NANOS: u64 = 80_000_000;

/// The longest delay that can be forced.
pub const MAX_FORCED_DELAY_MILLIS: u64 = 250;

pub open spec fn clamp_int(value: int, low: int, high: int) -> int {
    if value < low {
        low
    } else if value > high {
        high
    } else {
        value
    }
}

/// Whether `candidate` comes after `previous` in a stream whose frame numbers
/// wrap around: it lies less than half the number range ahead.
pub open spec fn newer(candidate: u32, previous: u32) -> bool {
    0 < (candidate - previous) % 0x1_0000_0000 < 0x8000_0000
}

pub fn frame_id_is_newer(candidate: u32, previous: u32) -> (r: bool)
    ensures
        r == newer(candidate, previous),
{
    let delta: u32 = candidate.wrapping_sub(previous);
    delta > 0 && delta < 0x8000_0000
}

/// No frame is newer than itself, and of two frames at most one is newer.
pub proof fn newer_is_asymmetric(a: u32, b: u32)
    ensures
        !newer(a, a),
        !(newer(a, b) && newer(b, a)),
{
}

/// Of two different frames that are not exactly half the number range apart,
/// one is newer.
pub proof fn newer_is_total_but_for_opposites(a: u32, b: u32)
    requires
        a != b,
        (a - b) % 0x1_0000_0000 != 0x8000_0000,
    ensures
        newer(a, b) || newer(b, a),
{
}

/// A stream's next frame is newer, past the wrap-around too, and so is each of
/// the half a number range of frames after it.
pub proof fn newer_survives_wrap_around(id: u32, ahead: int)
    requires
        0 < ahead < 0x8000_0000,
    ensures
        newer(((id + ahead) % 0x1_0000_0000) as u32, id),
{
}

/// What the user set for the playout buffer.
#[derive(Clone, Copy, Debug, PartialEq, Eq, Structural)]
pub struct PlayoutSettings {
    /// A fixed delay, which switches adaptation off.
    pub forced_delay_millis: Option<u64>,
    /// A cap on the number of queued frames.
    pub max_frames: Option<u64>,
    pub platform: Platform,
}

pub open spec fn optional_unsigned(raw: Option<Seq<char>>, max: nat) -> Option<nat> {
    match raw {
        Some(text) => crate::text::unsigned(text, max),
        None => None,
    }
}

pub open spec fn text_of(raw: Option<&str>) -> Option<Seq<char>> {
    match raw {
        Some(text) => Some(text@),
        None => None,
    }
}

impl PlayoutSettings {
    /// Reads the two settings from their text. What is not a number counts as
    /// not set.
    pub fn parse(
        jitter_ms: Option<&str>,
        max_frames: Option<&str>,
        platform: Platform,
    ) -> (settings: PlayoutSettings)
        ensures
            settings.platform == platform,
            match optional_unsigned(text_of(jitter_ms), u64::MAX as nat) {
                Some(n) => settings.forced_delay_millis == Some(n as u64),
                None => settings.forced_delay_millis is None,
            },
            match optional_unsigned(text_of(max_frames), u64::MAX as nat) {
                Some(n) => settings.max_frames == Some(n as u64),
                None => settings.max_frames is None,
            },
    {
        let forced_delay_millis = match jitter_ms {
            Some(raw) => parse_unsigned(raw, u64::MAX),
            None => None,
        };
        let max_frames = match max_frames {
            Some(raw) => parse_unsigned(raw, u64::MAX),
            None => None,
        };
        PlayoutSettings { forced_delay_millis, max_frames, platform }
    }
}

/// The delay that a buffer starts with and never adapts below: a forced delay
/// of at most a quarter of a second, or else roughly half a frame.
pub open spec fn delay_floor_of(fps: u16, settings: PlayoutSettings) -> int {
    match settings.forced_delay_millis {
        Some(forced) => crate::time::min_int(
            forced as int,
            MAX_FORCED_DELAY_MILLIS as int,
        ) * 1_000_000,
        None => match settings.platform {
            Platform::Windows => if fps == 0 {
                6_000_000
            } else {
                clamp_int(crate::time::nearest(500_000_000, fps as int), 3_000_000, 8_000_000)
            },
            _ => if fps == 0 {
                10_000_000
            } else {
                clamp_int(crate::time::nearest(600_000_000, fps as int), 6_000_000, 20_000_000)
            },
        },
    }
}

/// The delay floor and whether adaptation is on. A forced delay is the escape
/// hatch: it is used as it is, without adaptation.
pub fn configured_video_jitter_delay(stream_fps: u16, settings: PlayoutSettings) -> (r: (
    Duration,
    bool,
))
    ensures
        r.0.nanos == delay_floor_of(stream_fps, settings),
        r.1 == (settings.forced_delay_millis is None),
{
    if let Some(forced) = settings.forced_delay_millis {
        let bounded: u64 = if forced <= MAX_FORCED_DELAY_MILLIS {
            forced
        } else {
            MAX_FORCED_DELAY_MILLIS
        };
        return (Duration::from_millis(bounded), false);
    }
    if settings.platform == Platform::Windows {
        if stream_fps == 0 {
            return (Duration::from_millis(6), true);
        }
        let half: u128 = nearest_quotient(500_000_000, stream_fps as u128);
        proof {
            crate::time::nearest_is_nearest(500_000_000, stream_fps as int);
        }
        let nanos: u64 = if half < 3_000_000 {
            3_000_000
        } else if half > 8_000_000 {
            8_000_000
        } else {
            half as u64
        };
        return (Duration::from_nanos(nanos), true);
    }
    if stream_fps == 0 {
        return (Duration::from_millis(10), true);
    }
    let base: u128 = nearest_quotient(600_000_000, stream_fps as u128);
    let nanos: u64 = if base < 6_000_000 {
        6_000_000
    } else if base > 20_000_000 {
        20_000_000
    } else {
        base as u64
    };
    (Duration::from_nanos(nanos), true)
}

/// The time between two frames of a stream, where its rate is known.
pub open spec fn frame_interval_of(fps: u16) -> Option<Duration> {
    if fps == 0 {
        None
    } else {
        Some(Duration { nanos: crate::time::nearest(1_000_000_000, fps as int) as u64 })
    }
}

/// A stream's frame interval is at most a second and never zero.
pub proof fn frame_interval_bounds(fps: u16)
    requires
        fps > 0,
    ensures
        15_000 <= crate::time::nearest(1_000_000_000, fps as int) <= 1_000_000_000,
{
    let d = fps as int;
    let q = 1_000_000_000int / d;
    assert(15_258 <= q <= 1_000_000_000) by (nonlinear_arith)
        requires
            1 <= d <= 65_535,
            q == 1_000_000_000int / d,
    ;
    assert(q == 1_000_000_000 ==> 2 * (1_000_000_000int % d) <= 0) by (nonlinear_arith)
        requires
            1 <= d <= 65_535,
            q == 1_000_000_000int / d,
    ;
    if d > 1 {
        assert(q <= 500_000_000) by (nonlinear_arith)
            requires
                2 <= d <= 65_535,
                q == 1_000_000_000int / d,
        ;
    }
}

pub fn frame_interval(stream_fps: u16) -> (r: Option<Duration>)
    ensures
        r == frame_interval_of(stream_fps),
{
    if stream_fps == 0 {
        return None;
    }
    let nanos: u128 = nearest_quotient(1_000_000_000, stream_fps as u128);
    proof {
        frame_interval_bounds(stream_fps);
    }
    Some(Duration { nanos: nanos as u64 })
}

/// Three frame intervals of headroom, but never less than the floor nor more
/// than 80 ms. Without a known interval it is 45 ms above the floor.
pub open spec fn delay_ceiling_of(floor: Duration, interval: Option<Duration>) -> int {
    let by_interval = match interval {
        Some(interval) => interval.nanos * 3,
        None => floor.nanos + 45_000_000,
    };
    clamp_int(by_interval, floor.nanos as int, MAX_ADAPTIVE_DELAY_NANOS as int)
}

/// Upper bound for the adaptive playout delay, hard-capped so that a
/// pathological path cannot inflate latency without limit.
pub fn adaptive_delay_ceiling(floor: Duration, frame_interval: Option<Duration>) -> (r: Duration)
    requires
        floor.nanos <= MAX_ADAPTIVE_DELAY_NANOS,
        match frame_interval {
            Some(interval) => interval.nanos * 3 <= u64::MAX,
            None => true,
        },
    ensures
        r.nanos == delay_ceiling_of(floor, frame_interval),
{
    let by_interval: u64 = match frame_interval {
        Some(interval) => interval.nanos * 3,
        None => floor.nanos + 45_000_000,
    };
    if by_interval < floor.nanos {
        floor
    } else if by_interval > MAX_ADAPTIVE_DELAY_NANOS {
        Duration::from_nanos(MAX_ADAPTIVE_DELAY_NANOS)
    } else {
        Duration::from_nanos(by_interval)
    }
}

/// The cap on queued frames, and whether the user set it: at least one, at most
/// eight, three by default.
pub fn configured_video_jitter_max_frames(settings: PlayoutSettings) -> (r: (usize, bool))
    ensures
        match settings.max_frames {
            Some(value) => r.0 == clamp_int(value as int, 1, 8) && r.1,
            None => r == (3usize, false),
        },
{
    match settings.max_frames {
        Some(value) => if value < 1 {
            (1, true)
        } else if value > 8 {
            (8, true)
        } else {
            (value as usize, true)
        },
        None => (3, false),
    }
}

/// How many frames fit into the delay, and one more.
pub open spec fn frames_within(delay: int, interval: int) -> int {
    (delay + interval - 1) / interval + 1
}

/// The queue's depth: what the user set, or else deep enough to hold the
/// frames that are buffered at the ceiling delay, and three at least.
pub open spec fn queue_depth_of(fps: u16, settings: PlayoutSettings, ceiling: int) -> int {
    match settings.max_frames {
        Some(value) => clamp_int(value as int, 1, 8),
        None => match (settings.forced_delay_millis, frame_interval_of(fps)) {
            (None, Some(interval)) => crate::time::max_int(
                3,
                frames_within(ceiling, interval.nanos as int),
            ),
            _ => 3,
        },
    }
}

pub struct QueuedVideoFrame {
    pub present_at: Instant,
    pub frame_id: Option<u32>,
    pub frame: VideoFrameBuffer,
}

/// What a look at the queue found due: the frame to show and those it replaced.
pub struct DueVideoFrames {
    pub present: Option<VideoFrameBuffer>,
    pub dropped: Vec<VideoFrameBuffer>,
}

pub struct VideoPlayoutBuffer {
    /// The current delay between a frame's arrival and its presentation. It
    /// floats between the floor and the ceiling while adaptation is on.
    pub min_delay: Duration,
    pub delay_floor: Duration,
    pub delay_ceiling: Duration,
    pub adaptive: bool,
    /// A running mean of how far arrivals are from the frame interval, in
    /// parts of a nanosecond (`JITTER_SCALE` of them).
    pub jitter: u64,
    pub last_arrival: Option<Instant>,
    pub frame_interval: Option<Duration>,
    pub max_queued_frames: usize,
    pub queued: VecDeque<QueuedVideoFrame>,
    pub last_scheduled_at: Option<Instant>,
    pub last_presented_frame_id: Option<u32>,
}

/// The distance of an arrival gap from the frame interval, cut off at the
/// largest deviation that counts, in parts of a nanosecond.
pub open spec fn arrival_deviation(gap: Duration, interval: Duration) -> int {
    let distance = if gap.nanos >= interval.nanos {
        gap.nanos - interval.nanos
    } else {
        interval.nanos - gap.nanos
    };
    crate::time::min_int(distance, MAX_SAMPLE_DEVIATION_NANOS as int) * 65_536
}

/// The running mean moves a sixteenth of the way to the new sample.
pub open spec fn next_jitter(jitter: int, deviation: int) -> int {
    jitter + (deviation - jitter) / 16
}

/// The delay that a jitter estimate asks for, in parts of a nanosecond: two and
/// a half times the jitter above the floor.
pub open spec fn delay_target(floor: Duration, ceiling: Duration, jitter: int) -> int {
    clamp_int(floor.nanos * 65_536 + (5 * jitter) / 2, floor.nanos * 65_536, ceiling.nanos * 65_536)
}

/// The delay goes up to its target at once and down to it by a twelfth of the
/// way at a time.
pub open spec fn next_delay(current: int, target: int) -> int {
    if target >= current {
        target
    } else {
        current + (target - current) / 12
    }
}

impl VideoPlayoutBuffer {
    pub open spec fn retargeted(self) -> VideoPlayoutBuffer {
        let target = delay_target(self.delay_floor, self.delay_ceiling, self.jitter as int);
        let next = clamp_int(
            next_delay(self.min_delay.nanos * 65_536, target),
            self.delay_floor.nanos * 65_536,
            self.delay_ceiling.nanos * 65_536,
        );
        VideoPlayoutBuffer {
            min_delay: Duration { nanos: crate::time::nearest(next, 65_536) as u64 },
            ..self
        }
    }

    /// The buffer after a frame has arrived at `now`.
    pub open spec fn observed(self, now: Instant) -> VideoPlayoutBuffer {
        if !self.adaptive {
            self
        } else {
            match (self.frame_interval, self.last_arrival) {
                (None, _) => self,
                (Some(_), None) => VideoPlayoutBuffer { last_arrival: Some(now), ..self },
                (Some(interval), Some(last)) => VideoPlayoutBuffer {
                    last_arrival: Some(now),
                    ..(VideoPlayoutBuffer {
                        jitter: next_jitter(
                            self.jitter as int,
                            arrival_deviation(now.since(last), interval),
                        ) as u64,
                        ..self
                    }).retargeted()
                },
            }
        }
    }

    /// A buffer for a stream of `fps` frames a second, apart from its queue.
    pub open spec fn is_fresh(self, fps: u16, settings: PlayoutSettings) -> bool {
        let floor = delay_floor_of(fps, settings);
        &&& self.min_delay.nanos == floor
        &&& self.is_tuned(fps, settings)
        &&& self.jitter == 0
        &&& self.last_arrival is None
    }

    /// The parameters that follow from the frame rate and the settings.
    pub open spec fn is_tuned(self, fps: u16, settings: PlayoutSettings) -> bool {
        let floor = delay_floor_of(fps, settings);
        &&& self.delay_floor.nanos == floor
        &&& self.delay_ceiling.nanos == if floor > MAX_ADAPTIVE_DELAY_NANOS {
            floor
        } else {
            delay_ceiling_of(Duration { nanos: floor as u64 }, frame_interval_of(fps))
        }
        &&& self.adaptive == (settings.forced_delay_millis is None)
        &&& self.frame_interval == frame_interval_of(fps)
        &&& self.max_queued_frames == queue_depth_of(fps, settings, self.delay_ceiling.nanos as int)
    }

    pub fn new(stream_fps: u16, settings: PlayoutSettings) -> (buffer: VideoPlayoutBuffer)
        ensures
            buffer.is_fresh(stream_fps, settings),
            buffer.queued@.len() == 0,
            buffer.last_scheduled_at is None,
            buffer.last_presented_frame_id is None,
    {
        let (floor, adaptive) = configured_video_jitter_delay(stream_fps, settings);
        let frame_interval = frame_interval(stream_fps);
        proof {
            if stream_fps > 0 {
                frame_interval_bounds(stream_fps);
            }
        }
        let delay_ceiling = if floor.nanos > MAX_ADAPTIVE_DELAY_NANOS {
            floor
        } else {
            adaptive_delay_ceiling(floor, frame_interval)
        };
        let (configured_max, max_is_explicit) = configured_video_jitter_max_frames(settings);
        let mut max_queued_frames: usize = configured_max;
        if adaptive && !max_is_explicit {
            if let Some(interval) = frame_interval {
                let needed: u64 = (delay_ceiling.nanos + interval.nanos - 1) / interval.nanos + 1;
                proof {
                    let total = delay_ceiling.nanos + interval.nanos - 1;
                    let step = interval.nanos as int;
                    assert(total / step <= 100_000) by (nonlinear_arith)
                        requires
                            15_000 <= step <= 1_000_000_000,
                            0 <= total <= 80_000_000 + step,
                    ;
                }
                if needed > max_queued_frames as u64 {
                    max_queued_frames = needed as usize;
                }
            }
        }
        VideoPlayoutBuffer {
            min_delay: floor,
            delay_floor: floor,
            delay_ceiling,
            adaptive,
            jitter: 0,
            last_arrival: None,
            frame_interval,
            max_queued_frames,
            queued: VecDeque::new(),
            last_scheduled_at: None,
            last_presented_frame_id: None,
        }
    }

    /// Updates the jitter estimate from a frame's arrival time and retargets
    /// the delay. Does nothing while adaptation is off or the frame interval
    /// is unknown.
    pub fn observe_arrival(&mut self, now: Instant)
        requires
            old(self).adaptive ==> old(self).delay_floor.nanos <= old(self).delay_ceiling.nanos,
        ensures
            *final(self) == old(self).observed(now),
    {
        if !self.adaptive {
            return;
        }
        if let Some(interval) = self.frame_interval {
            if let Some(last) = self.last_arrival {
                let gap = now.saturating_duration_since(last);
                let distance: u64 = if gap.nanos >= interval.nanos {
                    gap.nanos - interval.nanos
                } else {
                    interval.nanos - gap.nanos
                };
                let bounded: u64 = if distance <= MAX_SAMPLE_DEVIATION_NANOS {
                    distance
                } else {
                    MAX_SAMPLE_DEVIATION_NANOS
                };
                let deviation: u64 = bounded * 65_536;
                if deviation >= self.jitter {
                    self.jitter = self.jitter + (deviation - self.jitter) / 16;
                } else {
                    let excess: u64 = self.jitter - deviation;
                    let step: u64 = if excess % 16 == 0 {
                        excess / 16
                    } else {
                        excess / 16 + 1
                    };
                    self.jitter = self.jitter - step;
                }
                self.retarget_delay();
            }
            self.last_arrival = Some(now);
        }
    }

    pub fn retarget_delay(&mut self)
        requires
            old(self).delay_floor.nanos <= old(self).delay_ceiling.nanos,
        ensures
            *final(self) == old(self).retargeted(),
    {
        let floor: u128 = self.delay_floor.nanos as u128 * 65_536;
        let ceiling: u128 = self.delay_ceiling.nanos as u128 * 65_536;
        let raw: u128 = floor + (5 * self.jitter as u128) / 2;
        let target: u128 = if raw > ceiling {
            ceiling
        } else {
            raw
        };
        let current: u128 = self.min_delay.nanos as u128 * 65_536;
        let next: u128 = if target >= current {
            target
        } else {
            let excess: u128 = current - target;
            let step: u128 = if excess % 12 == 0 {
                excess / 12
            } else {
                excess / 12 + 1
            };
            current - step
        };
        let bounded: u128 = if next < floor {
            floor
        } else if next > ceiling {
            ceiling
        } else {
            next
        };
        let nanos: u128 = nearest_quotient(bounded, 65_536);
        self.min_delay = Duration { nanos: nanos as u64 };
    }

    /// The current delay.
    pub fn current_delay(&self) -> (d: Duration)
        ensures
            d == self.min_delay,
    {
        self.min_delay
    }

    /// The time until the earliest queued frame becomes due (zero if it is due
    /// already), or `None` when the queue is empty.
    pub fn next_present_delay(&self, now: Instant) -> (r: Option<Duration>)
        ensures
            r == if self.queued@.len() == 0 {
                None
            } else {
                Some(self.queued@[0].present_at.since(now))
            },
    {
        if self.queued.len() == 0 {
            None
        } else {
            Some(self.queued[0].present_at.saturating_duration_since(now))
        }
    }
}

/// The number of the last queued frame that has one.
pub open spec fn last_queued_id(queue: Seq<QueuedVideoFrame>) -> Option<u32>
    decreases queue.len(),
{
    if queue.len() == 0 {
        None
    } else if queue.last().frame_id is Some {
        queue.last().frame_id
    } else {
        last_queued_id(queue.drop_last())
    }
}

/// A frame is stale after `last` when both have numbers and its own is not newer.
pub open spec fn stale_after(frame_id: Option<u32>, last: Option<u32>) -> bool {
    match (frame_id, last) {
        (Some(id), Some(last)) => !newer(id, last),
        _ => false,
    }
}

/// How many frames at the head of the queue are due.
pub open spec fn due_count(queue: Seq<QueuedVideoFrame>, now: Instant) -> nat
    decreases queue.len(),
{
    if queue.len() > 0 && queue[0].present_at.nanos <= now.nanos {
        1 + due_count(queue.skip(1), now)
    } else {
        0
    }
}

/// What becomes of due frames, taken in order, when `last` is the number last
/// presented: the frame to present, the frames dropped, and the number that is
/// last presented then. A stale frame is dropped; any other is presented in
/// place of the one before it.
pub open spec fn settle(due: Seq<QueuedVideoFrame>, last: Option<u32>) -> (
    Option<VideoFrameBuffer>,
    Seq<VideoFrameBuffer>,
    Option<u32>,
)
    decreases due.len(),
{
    if due.len() == 0 {
        (None, Seq::empty(), last)
    } else {
        let (present, dropped, last) = settle(due.drop_last(), last);
        let next = due.last();
        if stale_after(next.frame_id, last) {
            (present, dropped.push(next.frame), last)
        } else {
            (
                Some(next.frame),
                match present {
                    Some(previous) => dropped.push(previous),
                    None => dropped,
                },
                if next.frame_id is Some {
                    next.frame_id
                } else {
                    last
                },
            )
        }
    }
}

fn is_stale_after(frame_id: Option<u32>, last: Option<u32>) -> (r: bool)
    ensures
        r == stale_after(frame_id, last),
{
    match (frame_id, last) {
        (Some(id), Some(last)) => !frame_id_is_newer(id, last),
        _ => false,
    }
}

impl VideoPlayoutBuffer {
    /// A frame is refused when it is not newer than the last one presented and
    /// the last one queued.
    pub open spec fn refuses(self, frame_id: Option<u32>) -> bool {
        stale_after(frame_id, self.last_presented_frame_id) || stale_after(
            frame_id,
            last_queued_id(self.queued@),
        )
    }

    /// When a frame that arrived at `now` is presented: after the delay, but
    /// not sooner than a frame interval after the frame scheduled before it.
    pub open spec fn schedule(self, now: Instant) -> Instant {
        let candidate = now.later(self.min_delay);
        match (self.last_scheduled_at, self.frame_interval) {
            (Some(last), Some(interval)) => if last.later(interval).nanos > candidate.nanos {
                last.later(interval)
            } else {
                candidate
            },
            _ => candidate,
        }
    }

    /// The most frames that the queue holds.
    pub open spec fn capacity(self) -> int {
        crate::time::max_int(self.max_queued_frames as int, 1)
    }

    fn last_queued_frame_id(&self) -> (r: Option<u32>)
        ensures
            r == last_queued_id(self.queued@),
    {
        let mut i: usize = self.queued.len();
        proof {
            assert(self.queued@.take(i as int) =~= self.queued@);
        }
        while i > 0
            invariant
                i <= self.queued@.len(),
                last_queued_id(self.queued@) == last_queued_id(self.queued@.take(i as int)),
            decreases i,
        {
            let id = self.queued[i - 1].frame_id;
            proof {
                let head = self.queued@.take(i as int);
                assert(head.last() == self.queued@[i as int - 1]);
                assert(head.drop_last() =~= self.queued@.take(i as int - 1));
            }
            if id.is_some() {
                return id;
            }
            i = i - 1;
        }
        None
    }

    /// Queues a decoded frame that arrived at `now`. Returns the frame that is
    /// to be dropped: this one if it is refused, or the oldest one if the queue
    /// overflows.
    pub fn enqueue(&mut self, frame: VideoFrameBuffer, now: Instant) -> (dropped: Option<
        VideoFrameBuffer,
    >)
        requires
            old(self).adaptive ==> old(self).delay_floor.nanos <= old(self).delay_ceiling.nanos,
        ensures
            old(self).refuses(frame.id()) ==> dropped == Some(frame) && *final(self) == *old(self),
            !old(self).refuses(frame.id()) ==> {
                let observed = old(self).observed(now);
                let present_at = observed.schedule(now);
                let queue = old(self).queued@.push(
                    QueuedVideoFrame { present_at, frame_id: frame.id(), frame },
                );
                &&& *final(self) == (VideoPlayoutBuffer {
                    last_scheduled_at: Some(present_at),
                    queued: final(self).queued,
                    ..observed
                })
                &&& if queue.len() > old(self).capacity() {
                    dropped == Some(queue[0].frame) && final(self).queued@ == queue.skip(1)
                } else {
                    dropped is None && final(self).queued@ == queue
                }
            },
            old(self).queued@.len() <= old(self).capacity() ==> final(self).queued@.len() <= old(
                self,
            ).capacity(),
    {
        let frame_id = frame.frame_id();
        if is_stale_after(frame_id, self.last_presented_frame_id) {
            return Some(frame);
        }
        if is_stale_after(frame_id, self.last_queued_frame_id()) {
            return Some(frame);
        }
        self.observe_arrival(now);
        let candidate = now.saturating_add(self.min_delay);
        let mut present_at = candidate;
        if let Some(last) = self.last_scheduled_at {
            if let Some(interval) = self.frame_interval {
                let earliest = last.saturating_add(interval);
                if earliest.nanos > candidate.nanos {
                    present_at = earliest;
                }
            }
        }
        self.last_scheduled_at = Some(present_at);
        self.queued.push_back(QueuedVideoFrame { present_at, frame_id, frame });
        let capacity: usize = if self.max_queued_frames >= 1 {
            self.max_queued_frames
        } else {
            1
        };
        let ghost queue = self.queued@;
        if self.queued.len() > capacity {
            if let Some(oldest) = self.queued.pop_front() {
                proof {
                    assert(self.queued@ =~= queue.skip(1));
                }
                return Some(oldest.frame);
            }
        }
        None
    }

    /// Takes the frames that are due at `now` off the queue.
    pub fn take_due_frames(&mut self, now: Instant) -> (due: DueVideoFrames)
        ensures
            ({
                let count = due_count(old(self).queued@, now) as int;
                let (present, dropped, last) = settle(
                    old(self).queued@.take(count),
                    old(self).last_presented_frame_id,
                );
                &&& due.present == present
                &&& due.dropped@ == dropped
                &&& final(self).queued@ == old(self).queued@.skip(count)
                &&& *final(self) == (VideoPlayoutBuffer {
                    queued: final(self).queued,
                    last_presented_frame_id: last,
                    ..*old(self)
                })
            }),
    {
        let ghost queue = self.queued@;
        let ghost start = self.last_presented_frame_id;
        let ghost mut taken: int = 0;
        let mut present: Option<VideoFrameBuffer> = None;
        let mut dropped: Vec<VideoFrameBuffer> = Vec::new();
        proof {
            assert(queue.take(0) =~= Seq::empty());
            assert(queue.skip(0) =~= queue);
        }
        while self.queued.len() > 0 && self.queued[0].present_at.nanos <= now.nanos
            invariant
                0 <= taken <= queue.len(),
                queue == old(self).queued@,
                start == old(self).last_presented_frame_id,
                self.queued@ == queue.skip(taken),
                due_count(queue, now) == taken + due_count(queue.skip(taken), now),
                (present, dropped@, self.last_presented_frame_id) == settle(
                    queue.take(taken),
                    start,
                ),
                *self == (VideoPlayoutBuffer {
                    queued: self.queued,
                    last_presented_frame_id: self.last_presented_frame_id,
                    ..*old(self)
                }),
            decreases self.queued@.len(),
        {
            if let Some(next) = self.queued.pop_front() {
                proof {
                    assert(queue.skip(taken)[0] == queue[taken]);
                    assert(queue.skip(taken).skip(1) =~= queue.skip(taken + 1));
                    assert(self.queued@ =~= queue.skip(taken + 1));
                    assert(queue.take(taken + 1).drop_last() =~= queue.take(taken));
                    assert(queue.take(taken + 1).last() == queue[taken]);
                    taken = taken + 1;
                }
                if is_stale_after(next.frame_id, self.last_presented_frame_id) {
                    dropped.push(next.frame);
                } else {
                    if next.frame_id.is_some() {
                        self.last_presented_frame_id = next.frame_id;
                    }
                    if let Some(previous) = present {
                        dropped.push(previous);
                    }
                    present = Some(next.frame);
                }
            }
        }
        DueVideoFrames { present, dropped }
    }

    /// Adopts another frame rate without disturbing what is queued.
    pub fn update_framerate(&mut self, stream_fps: u16, settings: PlayoutSettings)
        ensures
            final(self).is_fresh(stream_fps, settings),
            final(self).queued == old(self).queued,
            final(self).last_scheduled_at == old(self).last_scheduled_at,
            final(self).last_presented_frame_id == old(self).last_presented_frame_id,
    {
        let updated = VideoPlayoutBuffer::new(stream_fps, settings);
        self.min_delay = updated.min_delay;
        self.delay_floor = updated.delay_floor;
        self.delay_ceiling = updated.delay_ceiling;
        self.adaptive = updated.adaptive;
        self.frame_interval = updated.frame_interval;
        self.max_queued_frames = updated.max_queued_frames;
        self.jitter = 0;
        self.last_arrival = None;
    }

    /// Starts over after a break in the stream. Returns the frames that were
    /// queued, in order.
    pub fn reset_for_discontinuity(
        &mut self,
        stream_fps: u16,
        settings: PlayoutSettings,
    ) -> (dropped: Vec<VideoFrameBuffer>)
        ensures
            dropped@ == old(self).queued@.map_values(|queued: QueuedVideoFrame| queued.frame),
            final(self).is_fresh(stream_fps, settings),
            final(self).queued@.len() == 0,
            final(self).last_scheduled_at is None,
            final(self).last_presented_frame_id is None,
    {
        let ghost queue = self.queued@;
        let ghost frames = queue.map_values(|queued: QueuedVideoFrame| queued.frame);
        let mut dropped: Vec<VideoFrameBuffer> = Vec::new();
        proof {
            assert(queue.skip(0) =~= queue);
            assert(frames.take(0) =~= Seq::empty());
        }
        while self.queued.len() > 0
            invariant
                dropped@.len() <= queue.len(),
                frames == queue.map_values(|queued: QueuedVideoFrame| queued.frame),
                self.queued@ == queue.skip(dropped@.len() as int),
                dropped@ == frames.take(dropped@.len() as int),
            decreases self.queued@.len(),
        {
            if let Some(next) = self.queued.pop_front() {
                let ghost k = dropped@.len() as int;
                dropped.push(next.frame);
                proof {
                    assert(self.queued@ =~= queue.skip(k + 1));
                    assert(dropped@ =~= frames.take(k + 1));
                }
            }
        }
        proof {
            assert(dropped@ =~= frames);
        }
        *self = VideoPlayoutBuffer::new(stream_fps, settings);
        dropped
    }
}

} // verus!
