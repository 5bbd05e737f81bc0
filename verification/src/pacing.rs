//! Repaint pacing, frame recycling and presentation.
use crate::frames::{Platform, VideoFrameBuffer};
use crate::playout;
use crate::playout::{QueuedVideoFrame, VideoPlayoutBuffer};
use crate::time::{nearest_quotient, Duration, Instant};
use vstd::prelude::*;

verus! {

/// How many frame buffers are kept for reuse.
pub const MAX_RECYCLED_FRAMES: usize = 3;

/// A request to the window to paint again.
#[derive(Clone, Copy, Debug, PartialEq, Eq, Structural)]
pub enum Repaint {
    No,
    Now,
    After(Duration),
}

/// The time between two refreshes of a display, where its rate is known.
pub open spec fn refresh_interval_of(refresh_millihz: Option<u32>) -> Option<Duration> {
    match refresh_millihz {
        Some(refresh) => if refresh == 0 {
            None
        } else {
            Some(
                Duration {
                    nanos: crate::time::nearest(1_000_000_000_000, refresh as int) as u64,
                },
            )
        },
        None => None,
    }
}

pub fn refresh_interval(refresh_millihz: Option<u32>) -> (r: Option<Duration>)
    ensures
        r == refresh_interval_of(refresh_millihz),
{
    match refresh_millihz {
        Some(refresh) => if refresh == 0 {
            None
        } else {
            let nanos: u128 = nearest_quotient(1_000_000_000_000, refresh as u128);
            proof {
                crate::time::nearest_is_nearest(1_000_000_000_000, refresh as int);
                assert(nanos <= 1_000_000_000_001) by (nonlinear_arith)
                    requires
                        2 * (nanos * refresh - 1_000_000_000_000) <= refresh,
                        1 <= refresh,
                        nanos >= 0,
                ;
            }
            Some(Duration { nanos: nanos as u64 })
        },
        None => None,
    }
}

/// Keeps repaint requests to the display's rate.
#[derive(Clone, Copy, Debug, PartialEq, Eq, Structural)]
pub struct RepaintPacer {
    pub min_interval: Option<Duration>,
    pub last_request: Option<Instant>,
    pub immediate_pending: bool,
}

impl RepaintPacer {
    pub fn new(refresh_millihz: Option<u32>) -> (pacer: RepaintPacer)
        ensures
            pacer == (RepaintPacer {
                min_interval: refresh_interval_of(refresh_millihz),
                last_request: None,
                immediate_pending: false,
            }),
    {
        RepaintPacer {
            min_interval: refresh_interval(refresh_millihz),
            last_request: None,
            immediate_pending: false,
        }
    }

    /// What a paced request asks for: a repaint now, unless one was requested
    /// less than the refresh interval ago; then one when the interval is over.
    pub open spec fn paced(self, now: Instant) -> Repaint {
        match (self.min_interval, self.last_request) {
            (Some(interval), Some(last)) => if now.since(last).nanos >= interval.nanos {
                Repaint::Now
            } else {
                Repaint::After(Duration { nanos: (interval.nanos - now.since(last).nanos) as u64 })
            },
            _ => Repaint::Now,
        }
    }

    pub fn request(&mut self, now: Instant) -> (repaint: Repaint)
        ensures
            repaint == old(self).paced(now),
            *final(self) == if repaint == Repaint::Now {
                RepaintPacer { last_request: Some(now), ..*old(self) }
            } else {
                *old(self)
            },
    {
        let repaint = match (self.min_interval, self.last_request) {
            (Some(interval), Some(last)) => {
                let elapsed = now.saturating_duration_since(last);
                if elapsed.nanos >= interval.nanos {
                    Repaint::Now
                } else {
                    Repaint::After(Duration { nanos: interval.nanos - elapsed.nanos })
                }
            },
            _ => Repaint::Now,
        };
        if repaint == Repaint::Now {
            self.last_request = Some(now);
        }
        repaint
    }

    /// Whether a new video frame asks for nothing: a repaint is still pending,
    /// and this frame is not the first fresh one since it was requested.
    pub open spec fn covered(self, immediate: bool, repaint_pending: bool) -> bool {
        repaint_pending && (!immediate || self.immediate_pending)
    }

    /// The pacer once it knows whether a repaint is pending.
    pub open spec fn informed(self, repaint_pending: bool) -> RepaintPacer {
        RepaintPacer { immediate_pending: self.immediate_pending && repaint_pending, ..self }
    }

    /// What a new video frame asks for, and the pacer afterwards. A frame fresh
    /// from the decoder is painted immediately; any other goes through the
    /// pacing.
    pub open spec fn video_request(
        self,
        immediate: bool,
        repaint_pending: bool,
        now: Instant,
    ) -> (Repaint, RepaintPacer) {
        let informed = self.informed(repaint_pending);
        if self.covered(immediate, repaint_pending) {
            (Repaint::No, self)
        } else if immediate {
            (
                Repaint::Now,
                RepaintPacer { last_request: Some(now), immediate_pending: true, ..self },
            )
        } else if informed.paced(now) == Repaint::Now {
            (Repaint::Now, RepaintPacer { last_request: Some(now), ..informed })
        } else {
            (informed.paced(now), informed)
        }
    }

    /// Requests a repaint for a new video frame.
    pub fn request_video(
        &mut self,
        immediate: bool,
        repaint_pending: bool,
        now: Instant,
    ) -> (repaint: Repaint)
        ensures
            (repaint, *final(self)) == old(self).video_request(immediate, repaint_pending, now),
    {
        if !repaint_pending {
            self.immediate_pending = false;
        } else if !immediate || self.immediate_pending {
            return Repaint::No;
        }
        if immediate {
            self.last_request = Some(now);
            self.immediate_pending = true;
            Repaint::Now
        } else {
            self.request(now)
        }
    }

    /// Starts over for another refresh rate.
    pub fn set_refresh_millihz(&mut self, refresh_millihz: Option<u32>)
        ensures
            *final(self) == (RepaintPacer {
                min_interval: refresh_interval_of(refresh_millihz),
                last_request: None,
                immediate_pending: false,
            }),
    {
        self.min_interval = refresh_interval(refresh_millihz);
        self.last_request = None;
        self.immediate_pending = false;
    }
}

/// A paced repaint comes no sooner than a refresh interval after the request
/// before it, whether it is asked for now or for later.
pub proof fn paced_repaints_keep_the_interval(
    pacer: RepaintPacer,
    interval: Duration,
    last: Instant,
    now: Instant,
)
    requires
        pacer.min_interval == Some(interval),
        pacer.last_request == Some(last),
        last.nanos <= now.nanos,
    ensures
        match pacer.paced(now) {
            Repaint::Now => now.nanos >= last.nanos + interval.nanos,
            Repaint::After(wait) => now.nanos + wait.nanos == last.nanos + interval.nanos,
            Repaint::No => false,
        },
{
}

/// While a repaint is pending, fresh frames cause one immediate request at most.
pub proof fn pending_repaint_covers_later_frames(pacer: RepaintPacer, immediate: bool)
    requires
        pacer.immediate_pending,
    ensures
        pacer.covered(immediate, true),
{
}

/// Keeps requests for a recovery keyframe a quarter of a second apart.
#[derive(Clone, Copy, Debug, PartialEq, Eq, Structural)]
pub struct RecoveryKeyframes {
    pub last_request: Option<Instant>,
}

impl RecoveryKeyframes {
    pub fn new() -> (r: RecoveryKeyframes)
        ensures
            r.last_request is None,
    {
        RecoveryKeyframes { last_request: None }
    }

    pub open spec fn allowed(self, now: Instant) -> bool {
        self.last_request matches Some(last) ==> now.since(last).nanos >= 250_000_000
    }

    /// The limiter after a request at `now`, granted or not.
    pub open spec fn asked(self, now: Instant) -> RecoveryKeyframes {
        if self.allowed(now) {
            RecoveryKeyframes { last_request: Some(now) }
        } else {
            self
        }
    }

    /// Returns whether a keyframe is to be requested from the server.
    pub fn request_recovery_keyframe(&mut self, now: Instant) -> (send: bool)
        ensures
            send == old(self).allowed(now),
            *final(self) == old(self).asked(now),
    {
        if let Some(last) = self.last_request {
            if now.saturating_duration_since(last).nanos < 250_000_000 {
                return false;
            }
        }
        self.last_request = Some(now);
        true
    }

    /// Asks for a keyframe when the transport's statistics call for one.
    pub fn maybe_request_transport_recovery_keyframe(
        &mut self,
        needs_recovery_keyframe: bool,
        now: Instant,
    ) -> (send: bool)
        ensures
            send == (needs_recovery_keyframe && old(self).allowed(now)),
            *final(self) == if needs_recovery_keyframe {
                old(self).asked(now)
            } else {
                *old(self)
            },
    {
        if !needs_recovery_keyframe {
            return false;
        }
        self.request_recovery_keyframe(now)
    }
}

/// Once a keyframe has been requested, none is for a quarter of a second.
pub proof fn keyframe_requests_are_spaced(limiter: RecoveryKeyframes, first: Instant, now: Instant)
    requires
        limiter.allowed(first),
        first.nanos <= now.nanos,
    ensures
        limiter.asked(first).allowed(now) <==> now.nanos >= first.nanos + 250_000_000,
{
}

/// A frame buffer as it is kept for reuse: it is not shown again, and on macOS
/// it gives up the surfaces it holds.
pub open spec fn recycled(frame: VideoFrameBuffer, platform: Platform) -> VideoFrameBuffer {
    let kept = VideoFrameBuffer { dirty: false, ..frame };
    if platform == Platform::Macos {
        VideoFrameBuffer { dmabuf: None, videotoolbox: None, d3d11: None, ..kept }
    } else {
        kept
    }
}

/// The kept buffers after one more has been handed in.
pub open spec fn with_recycled(
    kept: Seq<VideoFrameBuffer>,
    frame: VideoFrameBuffer,
    platform: Platform,
) -> Seq<VideoFrameBuffer> {
    if kept.len() >= 3 {
        kept
    } else {
        kept.push(recycled(frame, platform))
    }
}

/// The kept buffers after several more have been handed in, in order.
pub open spec fn with_all_recycled(
    kept: Seq<VideoFrameBuffer>,
    frames: Seq<VideoFrameBuffer>,
    platform: Platform,
) -> Seq<VideoFrameBuffer>
    decreases frames.len(),
{
    if frames.len() == 0 {
        kept
    } else {
        with_recycled(
            with_all_recycled(kept, frames.drop_last(), platform),
            frames.last(),
            platform,
        )
    }
}

/// However many frames are handed in, no more than three are kept.
pub proof fn few_buffers_are_kept(
    kept: Seq<VideoFrameBuffer>,
    frames: Seq<VideoFrameBuffer>,
    platform: Platform,
)
    requires
        kept.len() <= 3,
    ensures
        with_all_recycled(kept, frames, platform).len() <= 3,
        with_all_recycled(kept, frames, platform).len() >= kept.len(),
    decreases frames.len(),
{
    if frames.len() > 0 {
        few_buffers_are_kept(kept, frames.drop_last(), platform);
    }
}

/// Keeps a frame's buffers for reuse, unless enough are kept already.
pub fn recycle_video_frame(
    recycled_frames: &mut Vec<VideoFrameBuffer>,
    frame: VideoFrameBuffer,
    platform: Platform,
)
    ensures
        final(recycled_frames)@ == with_recycled(old(recycled_frames)@, frame, platform),
{
    if recycled_frames.len() >= MAX_RECYCLED_FRAMES {
        return;
    }
    let mut frame = frame;
    frame.dirty = false;
    if platform == Platform::Macos {
        frame.clear_native_surfaces();
    }
    recycled_frames.push(frame);
}

/// Keeps several frames' buffers, in order.
pub fn recycle_video_frames(
    recycled_frames: &mut Vec<VideoFrameBuffer>,
    frames: Vec<VideoFrameBuffer>,
    platform: Platform,
)
    ensures
        final(recycled_frames)@ == with_all_recycled(old(recycled_frames)@, frames@, platform),
{
    let ghost all = frames@;
    let ghost start = recycled_frames@;
    for frame in it: frames
        invariant
            it.seq() == all,
            start == old(recycled_frames)@,
            recycled_frames@ == with_all_recycled(start, all.take(it.index() as int), platform),
    {
        proof {
            let k = it.index() as int;
            assert(all.take(k + 1).drop_last() =~= all.take(k));
            assert(all.take(k + 1).last() == all[k]);
        }
        recycle_video_frame(recycled_frames, frame, platform);
    }
    proof {
        assert(all.take(all.len() as int) =~= all);
    }
}

/// What presenting the due frames came to.
#[derive(Clone, Copy, Debug, PartialEq, Eq, Structural)]
pub struct Presented {
    /// How many decoded frames were skipped.
    pub dropped: usize,
    pub repaint: Repaint,
}

/// What the presenter holds: the frames to come, the buffers to reuse, the frame
/// that the window paints, and the pacer.
pub struct Stage {
    pub queue: Seq<QueuedVideoFrame>,
    pub last_presented: Option<u32>,
    pub kept: Seq<VideoFrameBuffer>,
    pub shown: VideoFrameBuffer,
    pub pacer: RepaintPacer,
}

impl Stage {
    /// The stage after the newest due frame has been put up, what is to be
    /// repainted, and how many frames were skipped.
    pub open spec fn presented(self, immediate: bool, now: Instant, platform: Platform) -> (
        Stage,
        Repaint,
        nat,
    ) {
        let count = playout::due_count(self.queue, now) as int;
        let (present, dropped, last) = playout::settle(self.queue.take(count), self.last_presented);
        let after_drops = with_all_recycled(self.kept, dropped, platform);
        match present {
            None => (
                Stage {
                    queue: self.queue.skip(count),
                    last_presented: last,
                    kept: after_drops,
                    ..self
                },
                Repaint::No,
                dropped.len(),
            ),
            Some(frame) => {
                let (repaint, pacer) = self.pacer.video_request(immediate, self.shown.dirty, now);
                (
                    Stage {
                        queue: self.queue.skip(count),
                        last_presented: last,
                        kept: with_recycled(after_drops, self.shown, platform),
                        shown: VideoFrameBuffer { dirty: true, ..frame },
                        pacer,
                    },
                    repaint,
                    dropped.len(),
                )
            },
        }
    }

    /// Presenting never keeps more buffers than the limit.
    pub proof fn presenting_keeps_few_buffers(
        self,
        immediate: bool,
        now: Instant,
        platform: Platform,
    )
        requires
            self.kept.len() <= 3,
        ensures
            self.presented(immediate, now, platform).0.kept.len() <= 3,
    {
        let count = playout::due_count(self.queue, now) as int;
        let (_, dropped, _) = playout::settle(self.queue.take(count), self.last_presented);
        few_buffers_are_kept(self.kept, dropped, platform);
    }
}

/// Puts the newest due frame into `shown`, the frame that the window paints, and
/// recycles it and the frames it superseded.
pub fn present_due_video_frames(
    playout: &mut VideoPlayoutBuffer,
    recycled_frames: &mut Vec<VideoFrameBuffer>,
    shown: &mut VideoFrameBuffer,
    repaint_pacer: &mut RepaintPacer,
    immediate: bool,
    now: Instant,
    platform: Platform,
) -> (presented: Presented)
    ensures
        ({
            let before = Stage {
                queue: old(playout).queued@,
                last_presented: old(playout).last_presented_frame_id,
                kept: old(recycled_frames)@,
                shown: *old(shown),
                pacer: *old(repaint_pacer),
            };
            let (after, repaint, dropped) = before.presented(immediate, now, platform);
            &&& final(playout).queued@ == after.queue
            &&& *final(playout) == (VideoPlayoutBuffer {
                queued: final(playout).queued,
                last_presented_frame_id: after.last_presented,
                ..*old(playout)
            })
            &&& final(recycled_frames)@ == after.kept
            &&& *final(shown) == after.shown
            &&& *final(repaint_pacer) == after.pacer
            &&& presented.repaint == repaint
            &&& presented.dropped == dropped
        }),
{
    let due = playout.take_due_frames(now);
    let dropped: usize = due.dropped.len();
    recycle_video_frames(recycled_frames, due.dropped, platform);
    match due.present {
        None => Presented { dropped, repaint: Repaint::No },
        Some(frame) => {
            let repaint_pending = shown.dirty;
            let mut frame = frame;
            std::mem::swap(shown, &mut frame);
            shown.dirty = true;
            recycle_video_frame(recycled_frames, frame, platform);
            let repaint = repaint_pacer.request_video(immediate, repaint_pending, now);
            Presented { dropped, repaint }
        },
    }
}

} // verus!
