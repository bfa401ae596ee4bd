//! Polling rates of the robot worker and of the state stream.
use vstd::prelude::*;

verus! {

/// Configuration of a robot worker.
#[derive(Debug, Clone, Copy, PartialEq, Eq, Structural)]
pub struct RobotWorkerConfig {
    /// Polling rate in frames per second (clamped to 1..=240).
    pub fps: u32,
}

impl Default for RobotWorkerConfig {
    fn default() -> (r: RobotWorkerConfig)
        ensures
            r.fps == 30,
    {
        RobotWorkerConfig { fps: 30 }
    }
}

/// A frame rate brought into 1..=240.
pub open spec fn spec_clamp_fps(fps: u32) -> u32 {
    if fps < 1 {
        1
    } else if fps > 240 {
        240
    } else {
        fps
    }
}

/// A rate from 1 to 240 frames per second is kept as asked; a rate of 0 is
/// raised to 1 and a rate above 240 is cut to 240. Clamping a clamped rate
/// changes nothing.
pub proof fn lemma_clamp_fps_keeps_allowed_rates(fps: u32)
    ensures
        1 <= fps <= 240 ==> spec_clamp_fps(fps) == fps,
        fps == 0 ==> spec_clamp_fps(fps) == 1,
        fps > 240 ==> spec_clamp_fps(fps) == 240,
        1 <= spec_clamp_fps(fps) <= 240,
        spec_clamp_fps(spec_clamp_fps(fps)) == spec_clamp_fps(fps),
{
}

/// Brings a frame rate into 1..=240.
pub fn clamp_fps(fps: u32) -> (r: u32)
    ensures
        r == spec_clamp_fps(fps),
        1 <= r <= 240,
        1 <= fps <= 240 ==> r == fps,
        fps == 0 ==> r == 1,
        fps > 240 ==> r == 240,
{
    if fps < 1 {
        1
    } else if fps > 240 {
        240
    } else {
        fps
    }
}

/// The time between two polls, in whole milliseconds, at a frame rate of
/// `fps` (which must not be 0).
pub fn frame_interval_ms(fps: u32) -> (r: u64)
    requires
        fps >= 1,
    ensures
        r == 1000int / (fps as int),
{
    1000 / (fps as u64)
}

impl RobotWorkerConfig {
    /// The time between two polls of a worker with this configuration.
    pub fn poll_interval_ms(&self) -> (r: u64)
        ensures
            r == 1000int / (spec_clamp_fps(self.fps) as int),
            4 <= r <= 1000,
            1 <= self.fps <= 240 ==> r == 1000int / (self.fps as int),
    {
        let fps = clamp_fps(self.fps);
        assert(4 <= 1000int / (fps as int) <= 1000) by (nonlinear_arith)
            requires
                1 <= fps <= 240,
        ;
        frame_interval_ms(fps)
    }
}

/// When the worker polls the servo state: at its first tick, then whenever
/// at least one interval has passed since the last poll. Times are in
/// milliseconds of a monotonic clock.
#[derive(Debug, Clone, Copy, PartialEq, Eq, Structural)]
pub struct PollSchedule {
    pub interval_ms: u64,
    pub last_poll_ms: Option<u64>,
}

impl PollSchedule {
    /// A schedule whose first tick polls.
    pub fn new(interval_ms: u64) -> (r: Self)
        ensures
            r.interval_ms == interval_ms,
            r.last_poll_ms is None,
    {
        PollSchedule { interval_ms, last_poll_ms: None }
    }

    /// Whether the tick at time `now_ms` polls; when it does, the poll is
    /// remembered as the last one.
    pub fn tick(&mut self, now_ms: u64) -> (poll: bool)
        requires
            old(self).last_poll_ms matches Some(t) ==> t <= now_ms,
        ensures
            poll == match old(self).last_poll_ms {
                Some(t) => now_ms - t >= old(self).interval_ms,
                None => true,
            },
            final(self).interval_ms == old(self).interval_ms,
            final(self).last_poll_ms == if poll {
                Some(now_ms)
            } else {
                old(self).last_poll_ms
            },
    {
        let due = match self.last_poll_ms {
            Some(t) => now_ms - t >= self.interval_ms,
            None => true,
        };
        if due {
            self.last_poll_ms = Some(now_ms);
        }
        due
    }
}

/// The query of a robot WebSocket request.
#[derive(Debug, Clone)]
pub struct WsQuery {
    pub fps: Option<u32>,
    pub driver: Option<String>,
    pub normalize: Option<bool>,
    pub calibration_id: Option<String>,
}

impl WsQuery {
    /// The frame rate of the stream: the one asked for, 30 by default,
    /// brought into 1..=240.
    pub fn stream_fps(&self) -> (r: u32)
        ensures
            r == spec_clamp_fps(
                match self.fps {
                    Some(f) => f,
                    None => 30,
                },
            ),
            self.fps is None ==> r == 30,
            self.fps matches Some(f) ==> (1 <= f <= 240 ==> r == f) && (f > 240 ==> r == 240),
            self.fps == Some(0u32) ==> r == 1,
    {
        match self.fps {
            Some(f) => clamp_fps(f),
            None => clamp_fps(30),
        }
    }

    /// Whether the stream reports normalised values: yes unless asked not to.
    pub fn stream_normalize(&self) -> (r: bool)
        ensures
            r == match self.normalize {
                Some(b) => b,
                None => true,
            },
    {
        match self.normalize {
            Some(b) => b,
            None => true,
        }
    }
}

} // verus!
