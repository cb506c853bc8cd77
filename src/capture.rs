//! The start/stop discipline every capture source follows.
use vstd::prelude::*;
use vstd::string::*;
use crate::text::{trim, trimmed};

verus! {

/// A lifecycle request a capture source refused.
#[derive(Debug, Clone, Copy, PartialEq, Eq, Structural)]
pub enum SourceError {
    /// `start` while capturing.
    AlreadyRecording,
    /// `stop` while not capturing.
    NotRecording,
}

/// Whether a source is capturing. Starting twice or stopping twice is an
/// error, never a silent restart.
#[derive(Debug, Clone, Copy, Default, PartialEq, Eq, Structural)]
pub struct CaptureState {
    pub active: bool,
}

impl CaptureState {
    pub fn new() -> (r: Self)
        ensures
            !r.active,
    {
        CaptureState { active: false }
    }

    /// Enters capturing; refused, with nothing changed, while capturing.
    pub fn start_capture(&mut self) -> (r: Result<(), SourceError>)
        ensures
            old(self).active ==> r == Err::<(), SourceError>(SourceError::AlreadyRecording) && *final(self) == *old(self),
            !old(self).active ==> r is Ok && final(self).active,
    {
        if self.active {
            Err(SourceError::AlreadyRecording)
        } else {
            self.active = true;
            Ok(())
        }
    }

    /// Leaves capturing; refused, with nothing changed, while not capturing.
    pub fn stop_capture(&mut self) -> (r: Result<(), SourceError>)
        ensures
            !old(self).active ==> r == Err::<(), SourceError>(SourceError::NotRecording) && *final(self) == *old(self),
            old(self).active ==> r is Ok && !final(self).active,
    {
        if !self.active {
            Err(SourceError::NotRecording)
        } else {
            self.active = false;
            Ok(())
        }
    }

    pub fn is_active(&self) -> (r: bool)
        ensures
            r == self.active,
    {
        self.active
    }
}

/// The monitor source that mirrors the default sink named in `pactl
/// get-default-sink` output: the trimmed sink name with `.monitor` added;
/// none for a blank answer.
pub fn monitor_source_name(sink_output: &str) -> (r: Option<String>)
    ensures
        trimmed(sink_output@).len() == 0 <==> r is None,
        r is Some ==> r->0@ == trimmed(sink_output@) + ".monitor"@,
{
    let mut sink = trim(sink_output);
    if sink.unicode_len() == 0 {
        return None;
    }
    sink.append(".monitor");
    Some(sink)
}

} // verus!
