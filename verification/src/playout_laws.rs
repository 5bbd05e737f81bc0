//! What holds of the playout buffer as a whole.
use crate::frames::{Platform, VideoFrameBuffer};
use crate::playout;
use crate::playout::{PlayoutSettings, QueuedVideoFrame, VideoPlayoutBuffer, MAX_ADAPTIVE_DELAY_NANOS};
use crate::time;
use crate::time::{Duration, Instant};
use vstd::prelude::*;

verus! {

/// A fixed delay never changes: while adaptation is off, an arrival leaves the
/// buffer as it is.
pub proof fn fixed_delay_never_adapts(buffer: VideoPlayoutBuffer, now: Instant)
    requires
        !buffer.adaptive,
    ensures
        buffer.observed(now) == buffer,
{
}

/// The delay never leaves the range between its floor and its ceiling, and an
/// arrival moves neither bound.
pub proof fn delay_stays_within_bounds(buffer: VideoPlayoutBuffer, now: Instant)
    requires
        buffer.delay_floor.nanos <= buffer.min_delay.nanos <= buffer.delay_ceiling.nanos,
    ensures
        ({
            let after = buffer.observed(now);
            &&& after.delay_floor == buffer.delay_floor
            &&& after.delay_ceiling == buffer.delay_ceiling
            &&& after.delay_floor.nanos <= after.min_delay.nanos <= after.delay_ceiling.nanos
        }),
{
}

/// A delay that lies below what the jitter asks for goes up to it at once.
pub proof fn delay_grows_at_once(buffer: VideoPlayoutBuffer)
    requires
        buffer.delay_floor.nanos <= buffer.min_delay.nanos <= buffer.delay_ceiling.nanos,
        buffer.min_delay.nanos * 65_536 <= playout::delay_target(
            buffer.delay_floor,
            buffer.delay_ceiling,
            buffer.jitter as int,
        ),
    ensures
        buffer.retargeted().min_delay.nanos >= buffer.min_delay.nanos,
        buffer.retargeted().min_delay.nanos == time::nearest(
            playout::delay_target(buffer.delay_floor, buffer.delay_ceiling, buffer.jitter as int),
            65_536,
        ),
{
}

/// A delay that lies above what the jitter asks for comes down by about a
/// twelfth of the distance to the floor at most, so headroom does not collapse.
pub proof fn delay_shrinks_slowly(buffer: VideoPlayoutBuffer)
    requires
        buffer.delay_floor.nanos <= buffer.min_delay.nanos <= buffer.delay_ceiling.nanos,
        buffer.min_delay.nanos * 65_536 > playout::delay_target(
            buffer.delay_floor,
            buffer.delay_ceiling,
            buffer.jitter as int,
        ),
    ensures
        ({
            let before = buffer.min_delay.nanos;
            let after = buffer.retargeted().min_delay.nanos;
            &&& after <= before
            &&& 12 * (before - after) <= (before - buffer.delay_floor.nanos) + 7
        }),
{
}

/// Frames that arrive exactly one interval apart keep the delay at its floor.
pub proof fn steady_arrivals_keep_the_floor(buffer: VideoPlayoutBuffer, now: Instant)
    requires
        buffer.adaptive,
        buffer.jitter == 0,
        buffer.min_delay == buffer.delay_floor,
        buffer.delay_floor.nanos <= buffer.delay_ceiling.nanos,
        buffer.frame_interval matches Some(interval) && buffer.last_arrival matches Some(last)
            && now.since(last) == interval,
    ensures
        buffer.observed(now).jitter == 0,
        buffer.observed(now).min_delay == buffer.delay_floor,
{
}

/// A fresh buffer's delay is its floor, which does not exceed its ceiling.
pub proof fn fresh_buffers_start_at_the_floor(
    buffer: VideoPlayoutBuffer,
    fps: u16,
    settings: PlayoutSettings,
)
    requires
        buffer.is_fresh(fps, settings),
    ensures
        buffer.min_delay == buffer.delay_floor,
        buffer.delay_floor.nanos <= buffer.delay_ceiling.nanos,
        buffer.adaptive ==> buffer.delay_ceiling.nanos <= MAX_ADAPTIVE_DELAY_NANOS,
        buffer.max_queued_frames >= 1,
{
    if fps > 0 {
        playout::frame_interval_bounds(fps);
    }
    let floor = playout::delay_floor_of(fps, settings);
    assert(0 <= floor <= 250_000_000);
    match (settings.forced_delay_millis, playout::frame_interval_of(fps)) {
        (None, Some(interval)) => {
            let total = buffer.delay_ceiling.nanos + interval.nanos - 1;
            let step = interval.nanos as int;
            assert(total / step >= 0) by (nonlinear_arith)
                requires
                    step > 0,
                    total >= 0,
            ;
        },
        _ => {},
    }
}

/// A frame is presented neither before its delay is over nor sooner than one
/// frame interval after the frame scheduled before it.
pub proof fn presentations_are_spaced(
    buffer: VideoPlayoutBuffer,
    last: Instant,
    interval: Duration,
    now: Instant,
)
    requires
        buffer.last_scheduled_at == Some(last),
        buffer.frame_interval == Some(interval),
        now.nanos + buffer.min_delay.nanos <= u64::MAX,
        last.nanos + interval.nanos <= u64::MAX,
    ensures
        buffer.schedule(now).nanos >= now.nanos + buffer.min_delay.nanos,
        buffer.schedule(now).nanos >= last.nanos + interval.nanos,
{
}

/// Each queued frame that has a number is newer than the numbered one before it.
pub open spec fn in_stream_order(queue: Seq<QueuedVideoFrame>) -> bool {
    forall|i: int|
        0 <= i < queue.len() ==> !playout::stale_after(
            (#[trigger] queue[i]).frame_id,
            playout::last_queued_id(queue.take(i)),
        )
}

/// Frames are in stream order in the queue, and accepting one more keeps it so.
pub proof fn accepted_frames_stay_in_order(
    buffer: VideoPlayoutBuffer,
    queue: Seq<QueuedVideoFrame>,
    next: QueuedVideoFrame,
)
    requires
        buffer.queued@ == queue,
        in_stream_order(queue),
        !buffer.refuses(next.frame_id),
    ensures
        in_stream_order(queue.push(next)),
{
    let longer = queue.push(next);
    assert forall|i: int| 0 <= i < longer.len() implies !playout::stale_after(
        (#[trigger] longer[i]).frame_id,
        playout::last_queued_id(longer.take(i)),
    ) by {
        assert(longer.take(i) =~= queue.take(i));
        if i == queue.len() {
            assert(queue.take(i) =~= queue);
        } else {
            assert(longer[i] == queue[i]);
        }
    }
}

proof fn last_queued_id_of_tail(queue: Seq<QueuedVideoFrame>, from: int)
    requires
        0 <= from <= queue.len(),
    ensures
        playout::last_queued_id(queue.skip(from)) is None || playout::last_queued_id(queue.skip(from))
            == playout::last_queued_id(queue),
    decreases queue.len(),
{
    let tail = queue.skip(from);
    if tail.len() > 0 {
        assert(tail.last() == queue.last());
        assert(tail.drop_last() =~= queue.drop_last().skip(from));
        last_queued_id_of_tail(queue.drop_last(), from);
    }
}

/// Taking frames off the head of the queue leaves the rest in stream order.
pub proof fn taking_due_frames_keeps_order(queue: Seq<QueuedVideoFrame>, count: int)
    requires
        in_stream_order(queue),
        0 <= count <= queue.len(),
    ensures
        in_stream_order(queue.skip(count)),
{
    let rest = queue.skip(count);
    assert forall|i: int| 0 <= i < rest.len() implies !playout::stale_after(
        (#[trigger] rest[i]).frame_id,
        playout::last_queued_id(rest.take(i)),
    ) by {
        assert(rest[i] == queue[i + count]);
        assert(rest.take(i) =~= queue.take(i + count).skip(count));
        last_queued_id_of_tail(queue.take(i + count), count);
    }
}

pub open spec fn frames_of(queue: Seq<QueuedVideoFrame>) -> Seq<VideoFrameBuffer> {
    queue.map_values(|queued: QueuedVideoFrame| queued.frame)
}

/// Every due frame is either presented or dropped, and none of them twice.
pub proof fn due_frames_are_presented_or_dropped(due: Seq<QueuedVideoFrame>, last: Option<u32>)
    ensures
        ({
            let (present, dropped, _) = playout::settle(due, last);
            frames_of(due).to_multiset() == match present {
                Some(frame) => dropped.to_multiset().insert(frame),
                None => dropped.to_multiset(),
            }
        }),
        due.len() > 0 && playout::settle(due, last).0 is None ==> last is Some,
    decreases due.len(),
{
    broadcast use vstd::seq_lib::group_to_multiset_ensures;

    if due.len() == 0 {
        assert(frames_of(due) =~= Seq::empty());
    } else {
        due_frames_are_presented_or_dropped(due.drop_last(), last);
        assert(frames_of(due) =~= frames_of(due.drop_last()).push(due.last().frame));
        let (present, dropped, now_last) = playout::settle(due.drop_last(), last);
        let before = frames_of(due.drop_last()).to_multiset();
        assert(frames_of(due).to_multiset() =~= before.insert(due.last().frame));
        let (present_after, dropped_after, _) = playout::settle(due, last);
        if playout::stale_after(due.last().frame_id, now_last) {
            assert(dropped_after.to_multiset() =~= dropped.to_multiset().insert(due.last().frame));
            match present {
                Some(frame) => {
                    assert(before.insert(due.last().frame) =~= dropped_after.to_multiset().insert(
                        frame,
                    ));
                },
                None => {},
            }
            if playout::settle(due, last).0 is None && last is None {
                no_number_without_presentation(due.drop_last());
            }
        } else {
            match present {
                Some(previous) => {
                    assert(dropped_after.to_multiset() =~= dropped.to_multiset().insert(previous));
                    assert(before.insert(due.last().frame) =~= dropped_after.to_multiset().insert(
                        due.last().frame,
                    ));
                },
                None => {},
            }
        }
    }
}

proof fn no_number_without_presentation(due: Seq<QueuedVideoFrame>)
    ensures
        playout::settle(due, None).0 is None ==> playout::settle(due, None).2 is None,
    decreases due.len(),
{
    if due.len() > 0 {
        no_number_without_presentation(due.drop_last());
    }
}

/// What is presented was, at its turn, not stale after what had been presented
/// until then: presentation never goes back in the stream.
pub proof fn presentation_never_goes_back(due: Seq<QueuedVideoFrame>, last: Option<u32>)
    ensures
        playout::settle(due, last).0 matches Some(frame) ==> exists|k: int|
            0 <= k < due.len() && (#[trigger] due[k]).frame == frame && !playout::stale_after(
                due[k].frame_id,
                playout::settle(due.take(k), last).2,
            ),
    decreases due.len(),
{
    if due.len() > 0 {
        let head = due.drop_last();
        presentation_never_goes_back(head, last);
        let (present, _, before) = playout::settle(head, last);
        let n = due.len() - 1;
        assert(due.take(n) =~= head);
        if playout::stale_after(due.last().frame_id, before) {
            if present is Some {
                let k = choose|k: int|
                    0 <= k < head.len() && (#[trigger] head[k]).frame == present->0 && !playout::stale_after(
                        head[k].frame_id,
                        playout::settle(head.take(k), last).2,
                    );
                assert(due[k] == head[k]);
                assert(due.take(k) =~= head.take(k));
            }
        } else {
            assert(due[n].frame == playout::settle(due, last).0->0);
        }
    }
}

/// From due frames in stream order, the newest is presented and all the others
/// are dropped.
pub proof fn newest_due_frame_is_presented(due: Seq<QueuedVideoFrame>, last: Option<u32>)
    requires
        due.len() > 0,
        !playout::stale_after(due[0].frame_id, last),
        forall|i: int| 0 <= i < due.len() ==> (#[trigger] due[i]).frame_id is Some,
        in_stream_order(due),
    ensures
        playout::settle(due, last).0 == Some(due.last().frame),
        playout::settle(due, last).1 == frames_of(due.drop_last()),
        playout::settle(due, last).2 == due.last().frame_id,
    decreases due.len(),
{
    let head = due.drop_last();
    let n = due.len() - 1;
    assert(due.take(n) =~= head);
    if head.len() == 0 {
        assert(playout::settle(head, last) == (None::<VideoFrameBuffer>, Seq::<VideoFrameBuffer>::empty(), last));
        assert(frames_of(head) =~= Seq::empty());
    } else {
        assert forall|i: int| 0 <= i < head.len() implies !playout::stale_after(
            (#[trigger] head[i]).frame_id,
            playout::last_queued_id(head.take(i)),
        ) by {
            assert(due[i] == head[i]);
            assert(due.take(i) =~= head.take(i));
        }
        assert forall|i: int| 0 <= i < head.len() implies (#[trigger] head[i]).frame_id is Some by {
            assert(due[i] == head[i]);
        }
        assert(head[0] == due[0]);
        newest_due_frame_is_presented(head, last);
        assert(!playout::stale_after(due[n].frame_id, playout::last_queued_id(due.take(n))));
        assert(head.last().frame_id is Some);
        assert(playout::last_queued_id(head) == head.last().frame_id);
        assert(frames_of(head) =~= frames_of(head.drop_last()).push(head.last().frame));
    }
}

/// A frame is presented at the later of two times, and at no other: when its delay is
/// over, and one frame interval after the frame scheduled before it. Without a frame
/// before it, or without a known interval, the delay alone counts.
pub proof fn frames_are_presented_when_first_possible(buffer: VideoPlayoutBuffer, now: Instant)
    requires
        now.nanos + buffer.min_delay.nanos <= u64::MAX,
        buffer.last_scheduled_at matches Some(last) ==> (buffer.frame_interval matches Some(step)
            ==> last.nanos + step.nanos <= u64::MAX),
    ensures
        ({
            let at = buffer.schedule(now).nanos;
            match (buffer.last_scheduled_at, buffer.frame_interval) {
                (Some(last), Some(step)) => {
                    &&& at >= now.nanos + buffer.min_delay.nanos
                    &&& at >= last.nanos + step.nanos
                    &&& at == now.nanos + buffer.min_delay.nanos || at == last.nanos + step.nanos
                },
                _ => at == now.nanos + buffer.min_delay.nanos,
            }
        }),
{
}

/// Times past the last representable instant count as that instant.
pub proof fn schedules_end_with_time(buffer: VideoPlayoutBuffer, now: Instant)
    requires
        now.nanos + buffer.min_delay.nanos > u64::MAX || (buffer.last_scheduled_at matches Some(
            last,
        ) && buffer.frame_interval matches Some(step) && last.nanos + step.nanos > u64::MAX),
    ensures
        buffer.schedule(now).nanos == u64::MAX,
{
}

/// A frame that arrives one interval after the one before it, which was scheduled at its
/// own arrival and delay, is scheduled at its arrival and delay too, as long as the
/// delay has not changed: steady arrivals add no latency.
pub proof fn steady_frames_keep_their_latency(
    buffer: VideoPlayoutBuffer,
    arrival: Instant,
    interval: Duration,
    now: Instant,
)
    requires
        buffer.frame_interval == Some(interval),
        buffer.last_scheduled_at matches Some(last) && last.nanos == arrival.nanos
            + buffer.min_delay.nanos,
        now.nanos == arrival.nanos + interval.nanos,
        now.nanos + buffer.min_delay.nanos <= u64::MAX,
        !buffer.adaptive || (buffer.last_arrival == Some(arrival) && buffer.jitter == 0
            && buffer.min_delay == buffer.delay_floor && buffer.delay_floor.nanos
            <= buffer.delay_ceiling.nanos),
    ensures
        buffer.observed(now).schedule(now).nanos == now.nanos + buffer.min_delay.nanos,
        buffer.observed(now).min_delay == buffer.min_delay,
        buffer.observed(now).frame_interval == Some(interval),
        buffer.adaptive ==> buffer.observed(now).last_arrival == Some(now) && buffer.observed(
            now,
        ).jitter == 0,
{
}

/// A frame that arrives so late that the one before it is long past is held back by its
/// delay alone: a gap is never made up for by waiting longer.
pub proof fn late_frames_wait_for_their_delay_only(
    buffer: VideoPlayoutBuffer,
    last: Instant,
    interval: Duration,
    now: Instant,
)
    requires
        buffer.last_scheduled_at == Some(last),
        buffer.frame_interval == Some(interval),
        last.nanos + interval.nanos <= now.nanos,
        now.nanos + buffer.min_delay.nanos <= u64::MAX,
    ensures
        buffer.schedule(now).nanos == now.nanos + buffer.min_delay.nanos,
{
}

/// The jitter estimate moves a sixteenth of the way to how far this arrival is from
/// where it was expected, of which a tenth of a second at most counts. Both are counted
/// in parts of a nanosecond.
pub proof fn jitter_follows_the_arrivals(
    buffer: VideoPlayoutBuffer,
    last: Instant,
    interval: Duration,
    now: Instant,
    off: int,
)
    requires
        buffer.adaptive,
        buffer.last_arrival == Some(last),
        buffer.frame_interval == Some(interval),
        last.nanos <= now.nanos,
        off >= 0,
        now.nanos - last.nanos - interval.nanos == off || interval.nanos - (now.nanos - last.nanos)
            == off,
    ensures
        ({
            let sample = if off <= 100_000_000 {
                off * 65_536
            } else {
                100_000_000int * 65_536
            };
            let step = buffer.observed(now).jitter - buffer.jitter;
            &&& 16 * step <= sample - buffer.jitter < 16 * step + 16
        }),
        buffer.observed(now).last_arrival == Some(now),
{
    assert(0 <= buffer.jitter <= u64::MAX);
}

/// The first arrival only starts the measurement.
pub proof fn the_first_arrival_is_only_noted(buffer: VideoPlayoutBuffer, now: Instant)
    requires
        buffer.adaptive,
        buffer.last_arrival is None,
    ensures
        buffer.frame_interval is Some ==> buffer.observed(now).last_arrival == Some(now),
        buffer.observed(now).jitter == buffer.jitter,
        buffer.observed(now).min_delay == buffer.min_delay,
        buffer.observed(now).last_scheduled_at == buffer.last_scheduled_at,
        buffer.observed(now).frame_interval == buffer.frame_interval,
{
}

/// Arrivals change the estimate and the delay, and nothing else.
pub proof fn arrivals_touch_the_delay_only(buffer: VideoPlayoutBuffer, now: Instant)
    ensures
        ({
            let after = buffer.observed(now);
            &&& after.queued == buffer.queued
            &&& after.last_scheduled_at == buffer.last_scheduled_at
            &&& after.last_presented_frame_id == buffer.last_presented_frame_id
            &&& after.frame_interval == buffer.frame_interval
            &&& after.max_queued_frames == buffer.max_queued_frames
            &&& after.delay_floor == buffer.delay_floor
            &&& after.delay_ceiling == buffer.delay_ceiling
            &&& after.adaptive == buffer.adaptive
        }),
{
}

/// The delay that the jitter asks for is the floor and two and a half times the jitter,
/// to the nanosecond, and the ceiling where that is more. A shorter delay goes up to it
/// at once.
pub proof fn delays_grow_to_what_the_jitter_asks(buffer: VideoPlayoutBuffer)
    requires
        buffer.delay_floor.nanos <= buffer.min_delay.nanos <= buffer.delay_ceiling.nanos,
    ensures
        ({
            let floor = buffer.delay_floor.nanos;
            let asked = 131_072 * floor + 5 * buffer.jitter;
            let after = buffer.retargeted().min_delay.nanos;
            &&& asked >= 131_072 * buffer.delay_ceiling.nanos + 2 ==> after
                == buffer.delay_ceiling.nanos
            &&& 131_072 * buffer.min_delay.nanos + 2 <= asked <= 131_072
                * buffer.delay_ceiling.nanos ==> -65_538 <= 131_072 * after - asked <= 65_538
        }),
{
}

/// A delay that is longer than the jitter asks for comes down by a twelfth of the
/// difference, to the nanosecond.
pub proof fn delays_come_down_by_a_twelfth(buffer: VideoPlayoutBuffer)
    requires
        buffer.delay_floor.nanos <= buffer.min_delay.nanos <= buffer.delay_ceiling.nanos,
        131_072 * buffer.delay_floor.nanos + 5 * buffer.jitter < 131_072 * buffer.min_delay.nanos,
    ensures
        ({
            let asked = 131_072 * buffer.delay_floor.nanos + 5 * buffer.jitter;
            let before = buffer.min_delay.nanos;
            let after = buffer.retargeted().min_delay.nanos;
            &&& after <= before
            &&& -1_572_864 <= 1_572_864 * (before - after) - (131_072 * before - asked)
                <= 1_572_864
        }),
{
    let floor = buffer.delay_floor.nanos * 65_536;
    let current = buffer.min_delay.nanos * 65_536;
    let target = floor + (5 * buffer.jitter) / 2;
    let next = current + (target - current) / 12;
    assert(target == playout::delay_target(
        buffer.delay_floor,
        buffer.delay_ceiling,
        buffer.jitter as int,
    ));
    assert(floor <= next <= current);
    assert(0 <= 12 * (current - next) - (current - target) < 12);
    let after = time::nearest(next, 65_536);
    assert(-32_768 <= 65_536 * after - next <= 32_768);
    assert(buffer.retargeted().min_delay.nanos == after);
    let before = buffer.min_delay.nanos as int;
    let asked = 131_072 * buffer.delay_floor.nanos + 5 * buffer.jitter;
    assert(after <= before);
    assert(2 * target <= asked <= 2 * target + 1);
}

/// A frame rate's interval is a second divided by it, to the nearest nanosecond.
pub proof fn intervals_divide_the_second(fps: u16)
    ensures
        fps == 0 ==> playout::frame_interval_of(fps) is None,
        fps > 0 ==> (playout::frame_interval_of(fps) matches Some(step) && -fps <= 2 * (step.nanos
            * fps - 1_000_000_000) <= fps),
{
    if fps > 0 {
        playout::frame_interval_bounds(fps);
        time::nearest_is_nearest(1_000_000_000, fps as int);
    }
}

/// A delay that the user forces is taken as it is, up to a quarter of a second, and no
/// other setting changes it.
pub proof fn forced_delays_are_taken(fps: u16, settings: PlayoutSettings, millis: u64)
    requires
        settings.forced_delay_millis == Some(millis),
    ensures
        millis <= 250 ==> playout::delay_floor_of(fps, settings) == millis * 1_000_000,
        millis > 250 ==> playout::delay_floor_of(fps, settings) == 250_000_000,
{
}

/// Without a forced delay the floor is six tenths of a frame interval, from six to twenty
/// milliseconds; on Windows half an interval, from three to eight.
pub proof fn delay_floors_follow_the_frame_rate(fps: u16, settings: PlayoutSettings)
    requires
        settings.forced_delay_millis is None,
        fps > 0,
    ensures
        ({
            let floor = playout::delay_floor_of(fps, settings);
            if settings.platform == Platform::Windows {
                &&& 3_000_000 <= floor <= 8_000_000
                &&& 3_000_000 < floor < 8_000_000 ==> -fps <= 2 * (floor * fps - 500_000_000)
                    <= fps
                &&& floor == 3_000_000 ==> 2 * (floor * fps - 500_000_000) >= -fps
                &&& floor == 8_000_000 ==> 2 * (floor * fps - 500_000_000) <= fps
            } else {
                &&& 6_000_000 <= floor <= 20_000_000
                &&& 6_000_000 < floor < 20_000_000 ==> -fps <= 2 * (floor * fps - 600_000_000)
                    <= fps
                &&& floor == 6_000_000 ==> 2 * (floor * fps - 600_000_000) >= -fps
                &&& floor == 20_000_000 ==> 2 * (floor * fps - 600_000_000) <= fps
            }
        }),
{
    let d = fps as int;
    let n: int = if settings.platform == Platform::Windows {
        500_000_000
    } else {
        600_000_000
    };
    let q = time::nearest(n, d);
    let floor = playout::delay_floor_of(fps, settings);
    time::nearest_is_nearest(n, d);
    if floor > q {
        assert(floor * d >= q * d) by (nonlinear_arith)
            requires
                floor > q,
                d > 0,
        ;
    }
    if floor < q {
        assert(floor * d <= q * d) by (nonlinear_arith)
            requires
                floor < q,
                d > 0,
        ;
    }
}

/// Where the frame rate is unknown, the floor is ten milliseconds, and six on Windows.
pub proof fn delay_floors_without_a_frame_rate(settings: PlayoutSettings)
    requires
        settings.forced_delay_millis is None,
    ensures
        settings.platform == Platform::Windows ==> playout::delay_floor_of(0, settings)
            == 6_000_000,
        settings.platform != Platform::Windows ==> playout::delay_floor_of(0, settings)
            == 10_000_000,
{
}

/// The delay adapts up to three frame intervals, or 45 milliseconds above the floor where
/// the interval is unknown; but never below the floor nor above 80 milliseconds.
pub proof fn ceilings_follow_the_interval(floor: Duration, interval: Option<Duration>)
    requires
        floor.nanos <= 80_000_000,
    ensures
        ({
            let ceiling = playout::delay_ceiling_of(floor, interval);
            let wanted = match interval {
                Some(step) => 3 * step.nanos,
                None => floor.nanos + 45_000_000,
            };
            &&& floor.nanos <= ceiling <= 80_000_000
            &&& floor.nanos <= wanted <= 80_000_000 ==> ceiling == wanted
            &&& wanted < floor.nanos ==> ceiling == floor.nanos
            &&& wanted > 80_000_000 ==> ceiling == 80_000_000
        }),
{
}

/// A queue whose depth the user has not set has room for three frames, and for every
/// frame that arrives while one waits for the longest delay.
pub proof fn queues_hold_a_full_delay(fps: u16, settings: PlayoutSettings, ceiling: int)
    requires
        ceiling >= 0,
    ensures
        ({
            let depth = playout::queue_depth_of(fps, settings, ceiling);
            match settings.max_frames {
                Some(frames) => {
                    &&& 1 <= depth <= 8
                    &&& 1 <= frames <= 8 ==> depth == frames
                    &&& frames == 0 ==> depth == 1
                    &&& frames > 8 ==> depth == 8
                },
                None => {
                    &&& depth >= 3
                    &&& settings.forced_delay_millis is Some || fps == 0 ==> depth == 3
                    &&& settings.forced_delay_millis is None ==> (playout::frame_interval_of(
                        fps,
                    ) matches Some(step) ==> {
                        &&& (depth - 1) * step.nanos >= ceiling
                        &&& depth > 3 ==> (depth - 2) * step.nanos < ceiling
                    })
                },
            }
        }),
{
    if settings.max_frames is None && settings.forced_delay_millis is None && fps > 0 {
        playout::frame_interval_bounds(fps);
        let step = playout::frame_interval_of(fps)->0.nanos as int;
        let k = (ceiling + step - 1) / step;
        assert(k * step >= ceiling && (k - 1) * step < ceiling && k >= 0) by (nonlinear_arith)
            requires
                step > 0,
                ceiling >= 0,
                k == (ceiling + step - 1) / step,
        ;
        let depth = playout::queue_depth_of(fps, settings, ceiling);
        if k + 1 < 3 {
            assert(2 * step >= k * step) by (nonlinear_arith)
                requires
                    k < 2,
                    step > 0,
            ;
        }
    }
}

/// A frame comes after another if it is less than half the number range ahead of it,
/// and only then.
pub proof fn newer_means_less_than_half_the_range_ahead(id: u32, ahead: int)
    requires
        0 <= ahead < 0x1_0000_0000,
    ensures
        playout::newer(((id + ahead) % 0x1_0000_0000) as u32, id) <==> 1 <= ahead <= 0x7fff_ffff,
{
}

/// A frame is refused if and only if it has a number that is not ahead of the last one
/// presented, or of the last one queued that has a number.
pub proof fn frames_behind_are_refused(buffer: VideoPlayoutBuffer, id: u32)
    ensures
        !buffer.refuses(None),
        buffer.refuses(Some(id)) <==> {
            ||| buffer.last_presented_frame_id matches Some(last) && !playout::newer(id, last)
            ||| playout::last_queued_id(buffer.queued@) matches Some(last) && !playout::newer(
                id,
                last,
            )
        },
{
}

/// The last number in the queue is that of a queued frame, and no frame behind it has one.
pub proof fn the_last_number_is_the_last(queue: Seq<QueuedVideoFrame>)
    ensures
        match playout::last_queued_id(queue) {
            Some(id) => exists|k: int|
                0 <= k < queue.len() && (#[trigger] queue[k]).frame_id == Some(id) && (forall|
                    j: int,
                |
                    k < j < queue.len() ==> (#[trigger] queue[j]).frame_id is None),
            None => forall|j: int|
                0 <= j < queue.len() ==> (#[trigger] queue[j]).frame_id is None,
        },
    decreases queue.len(),
{
    if queue.len() > 0 {
        let head = queue.drop_last();
        let n = queue.len() - 1;
        the_last_number_is_the_last(head);
        if queue.last().frame_id is Some {
            assert(queue[n].frame_id == playout::last_queued_id(queue));
        } else {
            match playout::last_queued_id(head) {
                Some(id) => {
                    let k = choose|k: int|
                        0 <= k < head.len() && (#[trigger] head[k]).frame_id == Some(id) && (forall|
                            j: int,
                        |
                            k < j < head.len() ==> (#[trigger] head[j]).frame_id is None);
                    assert(queue[k] == head[k]);
                    assert forall|j: int| k < j < queue.len() implies (#[trigger] queue[j]).frame_id
                        is None by {
                        if j < n {
                            assert(head[j] == queue[j]);
                        }
                    }
                },
                None => {
                    assert forall|j: int| 0 <= j < queue.len() implies (
                    #[trigger] queue[j]).frame_id is None by {
                        if j < n {
                            assert(head[j] == queue[j]);
                        }
                    }
                },
            }
        }
    }
}

/// The frames that are taken are those at the head of the queue whose time has come; the
/// first one left is not due.
pub proof fn due_frames_are_those_whose_time_has_come(queue: Seq<QueuedVideoFrame>, now: Instant)
    ensures
        playout::due_count(queue, now) <= queue.len(),
        forall|i: int|
            0 <= i < playout::due_count(queue, now) ==> (#[trigger] queue[i]).present_at.nanos
                <= now.nanos,
        playout::due_count(queue, now) < queue.len() ==> queue[playout::due_count(
            queue,
            now,
        ) as int].present_at.nanos > now.nanos,
    decreases queue.len(),
{
    if queue.len() > 0 && queue[0].present_at.nanos <= now.nanos {
        let rest = queue.skip(1);
        due_frames_are_those_whose_time_has_come(rest, now);
        assert forall|i: int| 0 <= i < playout::due_count(queue, now) implies (
        #[trigger] queue[i]).present_at.nanos <= now.nanos by {
            if i > 0 {
                assert(rest[i - 1] == queue[i]);
            }
        }
        let k = playout::due_count(queue, now) as int;
        if k < queue.len() {
            assert(rest[k - 1] == queue[k]);
        }
    }
}

/// A frame without a number is never stale: the last due frame is presented if it has
/// none, and every frame before it that would have been is dropped.
pub proof fn frames_without_a_number_are_presented(
    due: Seq<QueuedVideoFrame>,
    last: Option<u32>,
)
    requires
        due.len() > 0,
        due.last().frame_id is None,
    ensures
        playout::settle(due, last).0 == Some(due.last().frame),
        playout::settle(due, last).2 == playout::settle(due.drop_last(), last).2,
{
}

/// A single due frame is presented unless it is behind what was presented last, and is
/// then dropped.
pub proof fn a_single_due_frame(next: QueuedVideoFrame, last: Option<u32>)
    ensures
        ({
            let (present, dropped, after) = playout::settle(seq![next], last);
            let behind = next.frame_id matches Some(id) && (last matches Some(shown)
                && !playout::newer(id, shown));
            if behind {
                present is None && dropped == seq![next.frame] && after == last
            } else {
                &&& present == Some(next.frame)
                &&& dropped.len() == 0
                &&& after == if next.frame_id is Some {
                    next.frame_id
                } else {
                    last
                }
            }
        }),
{
    reveal_with_fuel(playout::settle, 2);
    assert(seq![next].drop_last() =~= Seq::empty());
    assert(Seq::<VideoFrameBuffer>::empty().push(next.frame) =~= seq![next.frame]);
}

/// What is settled of the first frames stays settled: a later frame only takes the place
/// of the one to present, or is dropped itself.
pub proof fn later_frames_take_the_place(due: Seq<QueuedVideoFrame>, last: Option<u32>)
    requires
        due.len() > 0,
    ensures
        ({
            let (present, dropped, before) = playout::settle(due.drop_last(), last);
            let (present_after, dropped_after, after) = playout::settle(due, last);
            let next = due.last();
            let behind = next.frame_id matches Some(id) && (before matches Some(shown)
                && !playout::newer(id, shown));
            &&& dropped.is_prefix_of(dropped_after)
            &&& behind ==> present_after == present && after == before && dropped_after
                == dropped.push(next.frame)
            &&& !behind ==> present_after == Some(next.frame) && (next.frame_id is Some ==> after
                == next.frame_id) && dropped_after.len() == dropped.len() + if present is Some {
                1int
            } else {
                0int
            }
        }),
{
}

/// The queue holds at least one frame, and otherwise as many as it was made for.
pub proof fn queues_hold_at_least_one(buffer: VideoPlayoutBuffer)
    ensures
        buffer.capacity() >= 1,
        buffer.max_queued_frames >= 1 ==> buffer.capacity() == buffer.max_queued_frames,
{
}

/// A buffer is made for its stream: floor, ceiling, interval and depth are those of the
/// frame rate and the settings, and it adapts unless the delay is forced.
pub proof fn fresh_buffers_fit_the_stream(
    buffer: VideoPlayoutBuffer,
    fps: u16,
    settings: PlayoutSettings,
)
    requires
        buffer.is_fresh(fps, settings),
    ensures
        buffer.adaptive <==> settings.forced_delay_millis is None,
        buffer.jitter == 0,
        buffer.last_arrival is None,
        buffer.frame_interval == playout::frame_interval_of(fps),
        buffer.delay_floor.nanos == playout::delay_floor_of(fps, settings),
        buffer.min_delay == buffer.delay_floor,
        buffer.delay_floor.nanos > 80_000_000 ==> buffer.delay_ceiling == buffer.delay_floor,
        buffer.delay_floor.nanos <= 80_000_000 ==> buffer.delay_ceiling.nanos
            == playout::delay_ceiling_of(buffer.delay_floor, buffer.frame_interval),
        buffer.max_queued_frames == playout::queue_depth_of(
            fps,
            settings,
            buffer.delay_ceiling.nanos as int,
        ),
{
    delay_floors_without_a_frame_rate(PlayoutSettings { forced_delay_millis: None, ..settings });
}

/// Wherever the delay stood, it lies between floor and ceiling once it has been set anew.
pub proof fn new_delays_lie_within_bounds(buffer: VideoPlayoutBuffer)
    requires
        buffer.delay_floor.nanos <= buffer.delay_ceiling.nanos,
    ensures
        buffer.delay_floor.nanos <= buffer.retargeted().min_delay.nanos
            <= buffer.delay_ceiling.nanos,
        ({
            let asked = 131_072 * buffer.delay_floor.nanos + 5 * buffer.jitter;
            buffer.min_delay.nanos >= 13 * buffer.delay_ceiling.nanos && asked >= 131_072
                * buffer.delay_ceiling.nanos + 2 ==> buffer.retargeted().min_delay
                == buffer.delay_ceiling
        }),
{
}

} // verus!
