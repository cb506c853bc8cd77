//! Meeting lifecycle phases and the shared state snapshot.
use vstd::prelude::*;

verus! {

/// Phase of a meeting recording lifecycle.
#[derive(Debug, Clone, Copy, PartialEq, Eq, Structural)]
pub enum MeetingPhase {
    Idle,
    Recording,
    Compressing,
    Transcribing,
    RunningHook,
    Completed,
    Error,
}

impl MeetingPhase {
    pub open spec fn name(self) -> Seq<char> {
        match self {
            MeetingPhase::Idle => "idle"@,
            MeetingPhase::Recording => "recording"@,
            MeetingPhase::Compressing => "compressing"@,
            MeetingPhase::Transcribing => "transcribing"@,
            MeetingPhase::RunningHook => "running_hook"@,
            MeetingPhase::Completed => "completed"@,
            MeetingPhase::Error => "error"@,
        }
    }

    pub fn as_str(&self) -> (r: &'static str)
        ensures
            r@ == self.name(),
    {
        match self {
            MeetingPhase::Idle => "idle",
            MeetingPhase::Recording => "recording",
            MeetingPhase::Compressing => "compressing",
            MeetingPhase::Transcribing => "transcribing",
            MeetingPhase::RunningHook => "running_hook",
            MeetingPhase::Completed => "completed",
            MeetingPhase::Error => "error",
        }
    }
}

/// Options for starting a meeting.
#[derive(Debug, Clone, Default)]
pub struct MeetingStartOptions {
    pub title: Option<String>,
}

/// Current meeting state, as published to readers. `started_at` is a Unix
/// time in seconds.
#[derive(Debug, Clone)]
pub struct MeetingState {
    pub phase: MeetingPhase,
    pub meeting_id: Option<i64>,
    pub started_at: Option<u64>,
    pub title: Option<String>,
    pub audio_path: Option<String>,
    pub last_error: Option<String>,
}

impl Default for MeetingState {
    fn default() -> (r: Self)
        ensures
            r.is_idle_default(),
    {
        MeetingState::idle()
    }
}

impl MeetingState {
    /// Identifier and start time are set together or not at all.
    pub open spec fn wf(&self) -> bool {
        self.meeting_id.is_some() == self.started_at.is_some()
    }

    /// The state a process starts in, and the one `reset` returns to.
    pub open spec fn is_idle_default(&self) -> bool {
        &&& self.phase == MeetingPhase::Idle
        &&& self.meeting_id.is_none()
        &&& self.started_at.is_none()
        &&& self.title.is_none()
        &&& self.audio_path.is_none()
        &&& self.last_error.is_none()
    }

    /// Seconds elapsed from `started_at` to `now`, never negative.
    pub open spec fn elapsed(&self, now: u64) -> Option<u64> {
        match self.started_at {
            Some(t) => Some(if now >= t { (now - t) as u64 } else { 0 }),
            None => None,
        }
    }

    pub fn idle() -> (r: Self)
        ensures
            r.is_idle_default(),
            r.wf(),
    {
        MeetingState {
            phase: MeetingPhase::Idle,
            meeting_id: None,
            started_at: None,
            title: None,
            audio_path: None,
            last_error: None,
        }
    }

    /// Duration since recording started, in seconds, measured at `now`.
    pub fn duration_seconds(&self, now: u64) -> (r: Option<u64>)
        ensures
            r == self.elapsed(now),
    {
        match self.started_at {
            Some(t) => Some(now.saturating_sub(t)),
            None => None,
        }
    }

    /// Enters `Recording` for a new meeting, stamping its start time and
    /// clearing the last error.
    pub fn start_recording(&mut self, meeting_id: i64, title: Option<String>, audio_path: String, now: u64)
        ensures
            final(self).phase == MeetingPhase::Recording,
            final(self).meeting_id == Some(meeting_id),
            final(self).started_at == Some(now),
            final(self).title == title,
            final(self).audio_path == Some(audio_path),
            final(self).last_error.is_none(),
            final(self).wf(),
    {
        *self = MeetingState {
            phase: MeetingPhase::Recording,
            meeting_id: Some(meeting_id),
            started_at: Some(now),
            title,
            audio_path: Some(audio_path),
            last_error: None,
        };
    }

    /// Moves to `phase`, keeping every other field.
    pub fn set_phase(&mut self, phase: MeetingPhase)
        ensures
            *final(self) == (MeetingState { phase, ..*old(self) }),
    {
        self.phase = phase;
    }

    /// Moves to `Error` and records `message`, keeping the other fields.
    pub fn set_error(&mut self, message: String)
        ensures
            *final(self) == (MeetingState { phase: MeetingPhase::Error, last_error: Some(message), ..*old(self) }),
    {
        self.phase = MeetingPhase::Error;
        self.last_error = Some(message);
    }

    /// Moves to `Completed`, keeping the other fields.
    pub fn complete(&mut self)
        ensures
            *final(self) == (MeetingState { phase: MeetingPhase::Completed, ..*old(self) }),
    {
        self.phase = MeetingPhase::Completed;
    }

    /// Back to the defaults.
    pub fn reset(&mut self)
        ensures
            final(self).is_idle_default(),
            final(self).wf(),
    {
        *self = MeetingState::idle();
    }

    /// Whether a meeting is being recorded right now.
    pub fn is_recording(&self) -> (r: bool)
        ensures
            r == (self.phase == MeetingPhase::Recording),
    {
        self.phase == MeetingPhase::Recording
    }
}

} // verus!
