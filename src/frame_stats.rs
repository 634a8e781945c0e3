//! Frame-rate bookkeeping for the per-frame update.
use vstd::prelude::*;

verus! {

/// One second, in nanoseconds: the span over which frames are counted.
pub const SECOND_NANOS: u64 = 1_000_000_000;

/// Frames counted over the current second, and the result of the last full second. Times are
/// nanoseconds on one clock, as the host reads it.
pub struct FrameStats {
    pub last_fps_check_time: u64,
    pub last_frame_time: u64,
    pub frames_count: u64,
    pub fps_count: u64,
    pub max_frame_time_for_second: u64,
}

/// `later - earlier`, or zero when the clock went back.
pub open spec fn elapsed(earlier: u64, later: u64) -> u64 {
    if later >= earlier {
        (later - earlier) as u64
    } else {
        0
    }
}

impl FrameStats {
    /// Bookkeeping that starts at `now`, with nothing counted yet.
    pub fn new(now: u64) -> (r: FrameStats)
        ensures
            r.last_fps_check_time == now,
            r.last_frame_time == now,
            r.frames_count == 0,
            r.fps_count == 0,
            r.max_frame_time_for_second == 0,
    {
        FrameStats {
            last_fps_check_time: now,
            last_frame_time: now,
            frames_count: 0,
            fps_count: 0,
            max_frame_time_for_second: 0,
        }
    }

    /// Records a frame drawn at `now`. The longest frame of the second is kept; once more than
    /// a second has passed since the last check, the frames counted become the rate and a new
    /// second starts.
    pub fn update_fps(&mut self, now: u64)
        ensures
            ({
                let counted = if old(self).frames_count < u64::MAX {
                    (old(self).frames_count + 1) as u64
                } else {
                    u64::MAX
                };
                let frame = elapsed(old(self).last_frame_time, now);
                let longest = if frame > old(self).max_frame_time_for_second {
                    frame
                } else {
                    old(self).max_frame_time_for_second
                };
                if elapsed(old(self).last_fps_check_time, now) > SECOND_NANOS {
                    *final(self) == FrameStats {
                        last_fps_check_time: now,
                        last_frame_time: now,
                        frames_count: 0,
                        fps_count: counted,
                        max_frame_time_for_second: 0,
                    }
                } else {
                    *final(self) == FrameStats {
                        last_fps_check_time: old(self).last_fps_check_time,
                        last_frame_time: now,
                        frames_count: counted,
                        fps_count: old(self).fps_count,
                        max_frame_time_for_second: longest,
                    }
                }
            }),
    {
        if self.frames_count < u64::MAX {
            self.frames_count = self.frames_count + 1;
        }
        let duration_from_last_frame = if now >= self.last_frame_time {
            now - self.last_frame_time
        } else {
            0
        };
        let duration_from_last_fps_check = if now >= self.last_fps_check_time {
            now - self.last_fps_check_time
        } else {
            0
        };
        if duration_from_last_frame > self.max_frame_time_for_second {
            self.max_frame_time_for_second = duration_from_last_frame;
        }
        if duration_from_last_fps_check > SECOND_NANOS {
            self.fps_count = self.frames_count;
            self.frames_count = 0;
            self.max_frame_time_for_second = 0;
            self.last_fps_check_time = now;
        }
        self.last_frame_time = now;
    }
}

} // verus!
