//! What a post-meeting hook receives: the meeting's result and the
//! environment handed to a shell command.
use vstd::prelude::*;
use vstd::string::*;
use crate::hook_env;
use crate::text::{i64_text, u64_text, decimal, signed_decimal, text_or_empty};

verus! {

/// Result of a completed meeting, passed to hooks for post-processing.
#[derive(Debug, Clone)]
pub struct MeetingResult {
    pub meeting_id: i64,
    pub title: Option<String>,
    pub audio_path: String,
    pub transcript_path: String,
    pub transcript_text: String,
    pub duration_seconds: u64,
}

/// Post-meeting processing hook. Its outcome is reported back but never
/// decides the meeting's phase.
pub trait PostMeetingHook {
    fn execute(&self, result: &MeetingResult) -> Result<(), String>;
}

/// Runs a user-supplied shell command with the meeting's data: the
/// transcript on standard input, the metadata in environment variables,
/// killed after `timeout_seconds`.
#[derive(Debug, Clone)]
pub struct ShellCommandHook {
    pub command: String,
    pub timeout_seconds: u64,
}

impl ShellCommandHook {
    pub fn new(command: String, timeout_seconds: u64) -> (r: Self)
        ensures
            r.command == command,
            r.timeout_seconds == timeout_seconds,
    {
        ShellCommandHook { command, timeout_seconds }
    }
}

/// The five variables a hook command sees, in order: meeting id, title
/// (empty when untitled), audio path, transcript path, duration in seconds.
pub open spec fn hook_variables(result: MeetingResult) -> Seq<(Seq<char>, Seq<char>)> {
    seq![
        (hook_env::MEETING_ID@, signed_decimal(result.meeting_id as int)),
        (hook_env::MEETING_TITLE@, text_or_empty(result.title)),
        (hook_env::AUDIO_PATH@, result.audio_path@),
        (hook_env::TRANSCRIPT_PATH@, result.transcript_path@),
        (hook_env::DURATION_SECONDS@, decimal(result.duration_seconds as nat)),
    ]
}

/// The environment variables for a hook run, as name/value pairs.
pub fn hook_environment(result: &MeetingResult) -> (r: Vec<(String, String)>)
    ensures
        r@.len() == 5,
        forall|i: int| 0 <= i < 5 ==> (#[trigger] r@[i]).0@ == hook_variables(*result)[i].0
            && r@[i].1@ == hook_variables(*result)[i].1,
{
    let title = match &result.title {
        Some(t) => t.clone(),
        None => String::new(),
    };
    let mut v: Vec<(String, String)> = Vec::new();
    v.push((String::from_str(hook_env::MEETING_ID), i64_text(result.meeting_id)));
    v.push((String::from_str(hook_env::MEETING_TITLE), title));
    v.push((String::from_str(hook_env::AUDIO_PATH), result.audio_path.clone()));
    v.push((String::from_str(hook_env::TRANSCRIPT_PATH), result.transcript_path.clone()));
    v.push((String::from_str(hook_env::DURATION_SECONDS), u64_text(result.duration_seconds)));
    v
}

} // verus!
