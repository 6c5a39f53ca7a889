//! The decisions of the motion detector: when motion is seen, when a
//! recording starts, which frames go to the video writer, and when the
//! recording ends.
//!
//! Times are nanoseconds since the Unix epoch. The image work that turns two
//! frames into the areas of the regions that changed is done by the
//! application; the detector sees those areas, in the order they were found.

use vstd::prelude::*;
use crate::config::MotionConfig;

verus! {

/// How long recording goes on after the last motion: ten seconds.
pub const MIN_MOTION_CAPTURE_NANOS: i64 = 10_000_000_000;

/// The time the detector starts from as its last motion: 61 seconds after the epoch.
pub const INITIAL_MOTION_TIME: i64 = 61_000_000_000;

/// Whether `current_time` is still inside the capture window that the motion at
/// `last_motion_time` opened: less than ten seconds have passed since it.
pub open spec fn in_motion_window(current_time: i64, last_motion_time: i64) -> bool {
    current_time - MIN_MOTION_CAPTURE_NANOS < last_motion_time
}

/// Whether `current_time` is still inside the capture window of the motion at `last_motion_time`.
pub fn check_in_motion_window(current_time: i64, last_motion_time: i64) -> (r: bool)
    ensures
        r == in_motion_window(current_time, last_motion_time),
{
    if (current_time as i128) - (MIN_MOTION_CAPTURE_NANOS as i128) >= last_motion_time as i128 {
        false
    } else {
        true
    }
}

/// A frame handed to the video writer, with its place in the recording.
#[derive(Clone, Copy, Debug, PartialEq, Eq, Structural)]
pub struct FrameSend {
    /// The frame opens a recording.
    pub is_start: bool,
    /// The frame closes the recording.
    pub is_end: bool,
    /// No writer exists yet: one is created for this frame.
    pub new_writer: bool,
}

/// What the detector decided for one frame.
#[derive(Debug)]
pub struct MotionOutcome {
    /// The first region large enough to count as motion, which is drawn on the frame.
    pub motion_contour: Option<usize>,
    /// The frames handed to the video writer, in order.
    pub sends: Vec<FrameSend>,
    /// The writer is dropped after the sends: its recording is complete.
    pub close_writer: bool,
}

/// Some region is at least `min` in area.
pub open spec fn detects(areas: Seq<i32>, min: i32) -> bool {
    exists|i: int| 0 <= i < areas.len() && #[trigger] areas[i] >= min
}

/// `k` is the first region that is at least `min` in area, or, when it is
/// `None`, no region is.
pub open spec fn is_first_motion(areas: Seq<i32>, min: i32, k: Option<usize>) -> bool {
    match k {
        Some(k) => {
            &&& k < areas.len()
            &&& areas[k as int] >= min
            &&& forall|j: int| 0 <= j < k ==> #[trigger] areas[j] < min
        },
        None => forall|j: int| 0 <= j < areas.len() ==> #[trigger] areas[j] < min,
    }
}

/// The state of a motion detector.
#[derive(Clone, Copy, Debug)]
pub struct MotionDetector {
    /// Motion has been seen since the detector started.
    pub in_motion: bool,
    /// A recording is in progress: motion was seen less than ten seconds ago.
    pub in_motion_window: bool,
    /// When motion was last seen.
    pub last_motion_time: i64,
    /// A video writer exists.
    pub has_writer: bool,
    /// The smallest area of a changed region that counts as motion.
    pub min_threshold_size: i32,
}

impl MotionDetector {
    /// A writer exists exactly while a recording is in progress, and a
    /// recording is only in progress once motion has been seen.
    pub open spec fn wf(&self) -> bool {
        &&& self.has_writer == self.in_motion_window
        &&& self.in_motion_window ==> self.in_motion
    }

    /// The time of the last motion after a frame at `t` in which motion was or was not seen.
    pub open spec fn last_motion_after(self, t: i64, detected: bool) -> i64 {
        if detected {
            t
        } else {
            self.last_motion_time
        }
    }

    /// A recording is open for the frame at `t`: one was in progress or motion was seen.
    pub open spec fn window_open(self, detected: bool) -> bool {
        self.in_motion_window || detected
    }

    /// The recording ends with the frame at `t`: it was open, and ten seconds
    /// have passed since the last motion.
    pub open spec fn window_closes(self, t: i64, detected: bool) -> bool {
        self.window_open(detected) && !in_motion_window(t, self.last_motion_after(t, detected))
    }

    /// The state after a frame at `t` in which motion was or was not seen.
    pub open spec fn next(self, t: i64, detected: bool) -> MotionDetector {
        MotionDetector {
            in_motion: self.in_motion || detected,
            in_motion_window: self.window_open(detected) && !self.window_closes(t, detected),
            last_motion_time: self.last_motion_after(t, detected),
            has_writer: self.window_open(detected) && !self.window_closes(t, detected),
            min_threshold_size: self.min_threshold_size,
        }
    }

    /// The frames sent to the writer for a frame at `t`: a start frame when
    /// motion is seen for the first time; then, while a recording is open, the
    /// frame itself, marked as the end when the recording closes. The first
    /// frame sent when no writer exists creates one.
    pub open spec fn sends(self, t: i64, detected: bool) -> Seq<FrameSend> {
        let start = detected && !self.in_motion;
        let start_frames = if start {
            seq![FrameSend { is_start: true, is_end: false, new_writer: !self.has_writer }]
        } else {
            seq![]
        };
        let window_frames = if self.window_open(detected) {
            seq![
                FrameSend {
                    is_start: false,
                    is_end: self.window_closes(t, detected),
                    new_writer: !self.has_writer && !start,
                },
            ]
        } else {
            seq![]
        };
        start_frames + window_frames
    }

    /// A detector that has seen no motion, with the threshold of the configuration.
    pub fn new(config: &MotionConfig) -> (d: MotionDetector)
        ensures
            d.wf(),
            !d.in_motion,
            !d.in_motion_window,
            !d.has_writer,
            d.last_motion_time == INITIAL_MOTION_TIME,
            d.min_threshold_size == config.min_threshold_size,
    {
        MotionDetector {
            in_motion: false,
            in_motion_window: false,
            last_motion_time: INITIAL_MOTION_TIME,
            has_writer: false,
            min_threshold_size: config.min_threshold_size,
        }
    }

    /// The first region whose area is at least the threshold.
    pub fn find_motion(&self, contour_areas: &Vec<i32>) -> (k: Option<usize>)
        ensures
            is_first_motion(contour_areas@, self.min_threshold_size, k),
            k is Some <==> detects(contour_areas@, self.min_threshold_size),
    {
        let mut i: usize = 0;
        while i < contour_areas.len()
            invariant
                i <= contour_areas@.len(),
                forall|j: int| 0 <= j < i ==> #[trigger] contour_areas@[j] < self.min_threshold_size,
            decreases contour_areas@.len() - i,
        {
            if contour_areas[i] >= self.min_threshold_size {
                return Some(i);
            }
            i += 1;
        }
        None
    }

    /// Decides what happens with the frame taken at `frame_time`, given the
    /// areas of the regions that changed since the previous frame.
    pub fn step(&mut self, frame_time: i64, contour_areas: &Vec<i32>) -> (out: MotionOutcome)
        requires
            old(self).wf(),
        ensures
            is_first_motion(contour_areas@, old(self).min_threshold_size, out.motion_contour),
            out.motion_contour is Some <==> detects(contour_areas@, old(self).min_threshold_size),
            *final(self) == old(self).next(frame_time, out.motion_contour is Some),
            out.sends@ == old(self).sends(frame_time, out.motion_contour is Some),
            out.close_writer == old(self).window_closes(frame_time, out.motion_contour is Some),
            final(self).wf(),
    {
        let ghost pre = *self;
        let motion_contour = self.find_motion(contour_areas);
        let detected = motion_contour.is_some();
        let mut sends: Vec<FrameSend> = Vec::new();
        let mut close_writer = false;
        if detected {
            if !self.in_motion {
                let new_writer = !self.has_writer;
                sends.push(FrameSend { is_start: true, is_end: false, new_writer });
                self.has_writer = true;
            }
            self.in_motion = true;
            self.in_motion_window = true;
            self.last_motion_time = frame_time;
        }
        if self.in_motion_window {
            let new_writer = !self.has_writer;
            if !check_in_motion_window(frame_time, self.last_motion_time) {
                self.in_motion_window = false;
                sends.push(FrameSend { is_start: false, is_end: true, new_writer });
                self.has_writer = false;
                close_writer = true;
            } else {
                sends.push(FrameSend { is_start: false, is_end: false, new_writer });
                self.has_writer = true;
            }
        }
        assert(sends@ =~= pre.sends(frame_time, detected));
        MotionOutcome { motion_contour, sends, close_writer }
    }
}

/// The detector after a sequence of frames, each given by its time and
/// whether motion was seen in it.
pub open spec fn run(d: MotionDetector, frames: Seq<(i64, bool)>) -> MotionDetector
    decreases frames.len(),
{
    if frames.len() == 0 {
        d
    } else {
        let last = frames.last();
        run(d, frames.drop_last()).next(last.0, last.1)
    }
}

/// The number of start frames sent over a sequence of frames.
pub open spec fn start_count(d: MotionDetector, frames: Seq<(i64, bool)>) -> nat
    decreases frames.len(),
{
    if frames.len() == 0 {
        0
    } else {
        let last = frames.last();
        let before = run(d, frames.drop_last());
        start_count(d, frames.drop_last()) + if last.1 && !before.in_motion {
            1nat
        } else {
            0nat
        }
    }
}

/// A start frame is sent for a frame exactly when motion is seen in it for the first time.
pub proof fn lemma_start_frame_iff_first_motion(d: MotionDetector, t: i64, detected: bool)
    requires
        d.wf(),
    ensures
        (exists|i: int| 0 <= i < d.sends(t, detected).len() && (#[trigger] d.sends(t, detected)[i]).is_start)
            <==> (detected && !d.in_motion),
        d.in_motion ==> d.next(t, detected).in_motion,
{
    let s = d.sends(t, detected);
    if detected && !d.in_motion {
        assert(s[0].is_start);
    }
}

/// Over any sequence of frames, at most one start frame is sent, and none
/// once motion has been seen: the first recording alone is marked as a start.
pub proof fn lemma_start_sent_at_most_once(d: MotionDetector, frames: Seq<(i64, bool)>)
    ensures
        start_count(d, frames) <= 1,
        d.in_motion ==> start_count(d, frames) == 0,
        start_count(d, frames) == (if run(d, frames).in_motion && !d.in_motion {
            1nat
        } else {
            0nat
        }),
        d.in_motion ==> run(d, frames).in_motion,
    decreases frames.len(),
{
    if frames.len() > 0 {
        lemma_start_sent_at_most_once(d, frames.drop_last());
    }
}

/// A frame in which motion is seen never ends the recording: the recording is
/// open after it, a writer exists, no end frame is sent, and the motion time is
/// the frame's.
pub proof fn lemma_motion_keeps_recording(d: MotionDetector, t: i64)
    requires
        d.wf(),
    ensures
        !d.window_closes(t, true),
        d.next(t, true).in_motion_window,
        d.next(t, true).has_writer,
        d.next(t, true).last_motion_time == t,
        forall|i: int| 0 <= i < d.sends(t, true).len() ==> !(#[trigger] d.sends(t, true)[i]).is_end,
{
}

/// The recording ends exactly when one was in progress, no motion is seen, and
/// at least ten seconds have passed since the last motion; only then is an
/// end frame sent, and it is the last frame the writer gets.
pub proof fn lemma_recording_ends(d: MotionDetector, t: i64, detected: bool)
    requires
        d.wf(),
    ensures
        d.window_closes(t, detected) <==> (d.in_motion_window && !detected && t
            - d.last_motion_time >= MIN_MOTION_CAPTURE_NANOS),
        (exists|i: int| 0 <= i < d.sends(t, detected).len() && (#[trigger] d.sends(t, detected)[i]).is_end)
            <==> d.window_closes(t, detected),
        d.window_closes(t, detected) ==> {
            &&& d.sends(t, detected).last().is_end
            &&& !d.next(t, detected).has_writer
            &&& !d.next(t, detected).in_motion_window
        },
{
    let s = d.sends(t, detected);
    if d.window_closes(t, detected) {
        assert(s.len() == 1);
        assert(s[0].is_end);
    }
}

/// With no recording in progress and no motion, nothing is sent and the
/// detector is unchanged.
pub proof fn lemma_quiet_frame(d: MotionDetector, t: i64)
    requires
        d.wf(),
        !d.in_motion_window,
    ensures
        d.sends(t, false).len() == 0,
        d.next(t, false) == d,
        !d.window_closes(t, false),
{
}

/// Every frame sent reaches a writer: the first frame sent creates one
/// exactly when none exists, and no other frame creates one.
pub proof fn lemma_writer_created_once(d: MotionDetector, t: i64, detected: bool)
    requires
        d.wf(),
    ensures
        d.sends(t, detected).len() > 0 ==> (d.sends(t, detected)[0].new_writer <==> !d.has_writer),
        forall|i: int| 1 <= i < d.sends(t, detected).len() ==> !(#[trigger] d.sends(t, detected)[i]).new_writer,
        d.sends(t, detected).len() > 0 <==> d.window_open(detected),
{
}

/// Each frame reaches the writer at most once: a frame sends one start frame
/// when motion is seen for the first time, and then the frame itself exactly
/// when a recording is in progress or motion is seen; the frame itself is
/// never a start frame and ends the recording only when no motion is seen and
/// ten seconds have passed since the last motion.
pub proof fn lemma_each_frame_sent_once(d: MotionDetector, t: i64, detected: bool)
    requires
        d.wf(),
    ensures
        d.sends(t, detected).len() == (if detected && !d.in_motion {
            1int
        } else {
            0int
        }) + (if d.in_motion_window || detected {
            1int
        } else {
            0int
        }),
        forall|i: int|
            0 <= i < d.sends(t, detected).len() && (#[trigger] d.sends(t, detected)[i]).is_start
                ==> i == 0 && detected && !d.in_motion,
        (d.in_motion_window || detected) ==> {
            let last = d.sends(t, detected).last();
            &&& !last.is_start
            &&& last.is_end == (d.in_motion_window && !detected && t - d.last_motion_time
                >= 10_000_000_000)
        },
        forall|i: int|
            0 <= i < d.sends(t, detected).len() - 1 ==> !(#[trigger] d.sends(t, detected)[i]).is_end,
{
}

} // verus!
