//! The single-utterance recording flow: its phases, the status snapshot,
//! and what a toggle request does in each phase.
use vstd::prelude::*;
use vstd::string::*;
use crate::config::WaybarConfig;

verus! {

#[derive(Debug, Clone, Copy, PartialEq, Eq, Structural)]
pub enum RecordingPhase {
    Idle,
    Recording,
    Processing,
    Error,
}

impl RecordingPhase {
    pub open spec fn name(self) -> Seq<char> {
        match self {
            RecordingPhase::Idle => "idle"@,
            RecordingPhase::Recording => "recording"@,
            RecordingPhase::Processing => "processing"@,
            RecordingPhase::Error => "error"@,
        }
    }

    pub fn as_str(&self) -> (r: &'static str)
        ensures
            r@ == self.name(),
    {
        match self {
            RecordingPhase::Idle => "idle",
            RecordingPhase::Recording => "recording",
            RecordingPhase::Processing => "processing",
            RecordingPhase::Error => "error",
        }
    }
}

/// Information about a completed transcription job.
#[derive(Debug, Clone)]
pub struct CompletedJob {
    /// The job id assigned when recording started
    pub job_id: String,
    /// The history id the transcription was stored under
    pub history_id: i64,
    /// The transcribed text
    pub text: String,
    /// When the job completed
    pub created_at: String,
}

/// Per-job options that can override default behavior.
#[derive(Debug, Clone, Copy, PartialEq, Eq, Structural)]
pub struct JobOptions {
    /// Whether to copy the transcription to the clipboard
    pub copy_to_clipboard: bool,
    /// Whether to inject the text into the focused application
    pub auto_paste: bool,
}

impl Default for JobOptions {
    fn default() -> (r: Self)
        ensures
            r.copy_to_clipboard,
            r.auto_paste,
    {
        JobOptions { copy_to_clipboard: true, auto_paste: true }
    }
}

#[derive(Debug, Clone, Copy, PartialEq, Eq, Structural)]
pub struct BehaviorOptions {
    pub auto_paste: bool,
    pub delete_audio_files: bool,
}

/// Result of a toggle operation: the phase after it and the job involved.
#[derive(Debug, Clone)]
pub struct ToggleResult {
    pub phase: RecordingPhase,
    pub job_id: Option<String>,
}

#[derive(Debug, Clone)]
pub struct RecordingStatus {
    pub phase: RecordingPhase,
    /// Current job id (set when recording starts)
    pub current_job_id: Option<String>,
    /// Current job options (set when recording starts)
    pub current_job_options: Option<JobOptions>,
    /// Last successfully completed job
    pub last_completed_job: Option<CompletedJob>,
    pub last_error: Option<String>,
}

impl Default for RecordingStatus {
    fn default() -> (r: Self)
        ensures
            r.phase == RecordingPhase::Idle,
            r.current_job_id.is_none(),
            r.current_job_options.is_none(),
            r.last_completed_job.is_none(),
            r.last_error.is_none(),
    {
        RecordingStatus {
            phase: RecordingPhase::Idle,
            current_job_id: None,
            current_job_options: None,
            last_completed_job: None,
            last_error: None,
        }
    }
}

impl RecordingStatus {
    pub fn set_phase(&mut self, phase: RecordingPhase, last_error: Option<String>)
        ensures
            *final(self) == (RecordingStatus { phase, last_error, ..*old(self) }),
    {
        self.phase = phase;
        self.last_error = last_error;
    }

    /// A new job starts recording; the last completed job is kept.
    pub fn start_job(&mut self, job_id: String, options: JobOptions)
        ensures
            *final(self) == (RecordingStatus {
                phase: RecordingPhase::Recording,
                current_job_id: Some(job_id),
                current_job_options: Some(options),
                last_error: None,
                ..*old(self)
            }),
    {
        self.phase = RecordingPhase::Recording;
        self.current_job_id = Some(job_id);
        self.current_job_options = Some(options);
        self.last_error = None;
    }

    pub fn complete_job(&mut self, completed_job: CompletedJob)
        ensures
            *final(self) == (RecordingStatus {
                phase: RecordingPhase::Idle,
                current_job_id: None,
                current_job_options: None,
                last_completed_job: Some(completed_job),
                last_error: None,
            }),
    {
        self.phase = RecordingPhase::Idle;
        self.current_job_id = None;
        self.current_job_options = None;
        self.last_completed_job = Some(completed_job);
        self.last_error = None;
    }

    pub fn fail_job(&mut self, error: String)
        ensures
            *final(self) == (RecordingStatus {
                phase: RecordingPhase::Error,
                current_job_id: None,
                current_job_options: None,
                last_error: Some(error),
                ..*old(self)
            }),
    {
        self.phase = RecordingPhase::Error;
        self.current_job_id = None;
        self.current_job_options = None;
        self.last_error = Some(error);
    }

    /// Processing keeps the current job id.
    pub fn set_processing(&mut self)
        ensures
            *final(self) == (RecordingStatus { phase: RecordingPhase::Processing, ..*old(self) }),
    {
        self.phase = RecordingPhase::Processing;
    }
}

/// What a toggle request does in a given phase.
#[derive(Debug, Clone, Copy, PartialEq, Eq, Structural)]
pub enum RecordingTransition {
    StartRecording,
    StopRecording,
    Busy(RecordingPhase),
}

pub fn recording_transition(phase: RecordingPhase) -> (r: RecordingTransition)
    ensures
        r == match phase {
            RecordingPhase::Idle | RecordingPhase::Error => RecordingTransition::StartRecording,
            RecordingPhase::Recording => RecordingTransition::StopRecording,
            RecordingPhase::Processing => RecordingTransition::Busy(RecordingPhase::Processing),
        },
{
    match phase {
        RecordingPhase::Idle | RecordingPhase::Error => RecordingTransition::StartRecording,
        RecordingPhase::Recording => RecordingTransition::StopRecording,
        RecordingPhase::Processing => RecordingTransition::Busy(RecordingPhase::Processing),
    }
}

/// The options a job runs with: the requested ones, or by default copy to
/// the clipboard and paste as configured.
pub fn resolve_job_options(requested: Option<JobOptions>, behavior: BehaviorOptions) -> (r: JobOptions)
    ensures
        r == match requested {
            Some(o) => o,
            None => JobOptions { copy_to_clipboard: true, auto_paste: behavior.auto_paste },
        },
{
    match requested {
        Some(o) => o,
        None => JobOptions { copy_to_clipboard: true, auto_paste: behavior.auto_paste },
    }
}

/// The record of a finished job; a job without an id is filed as `unknown`.
pub fn completed_job(job_id: Option<String>, history_id: i64, text: String, created_at: String) -> (r: CompletedJob)
    ensures
        r.job_id@ == match job_id {
            Some(j) => j@,
            None => "unknown"@,
        },
        r.history_id == history_id,
        r.text == text,
        r.created_at == created_at,
{
    let id = match job_id {
        Some(j) => j,
        None => String::from_str("unknown"),
    };
    CompletedJob { job_id: id, history_id, text, created_at }
}

/// What to do with a finished transcription.
#[derive(Debug, Clone, Copy, PartialEq, Eq, Structural)]
pub struct DeliveryPlan {
    /// Nothing but white space was transcribed: report no speech, keep
    /// nothing.
    pub no_speech: bool,
    pub copy_to_clipboard: bool,
    pub inject: bool,
    /// Paste from the clipboard if injecting fails (only when it was copied).
    pub paste_on_inject_failure: bool,
}

/// Decides how a transcription is delivered under the job's options.
pub fn delivery_plan(text: &str, options: JobOptions) -> (r: DeliveryPlan)
    ensures
        r.no_speech == (crate::text::trimmed(text@).len() == 0),
        r.copy_to_clipboard == (!r.no_speech && options.copy_to_clipboard),
        r.inject == (!r.no_speech && options.auto_paste),
        r.paste_on_inject_failure == (r.inject && options.copy_to_clipboard),
{
    let t = crate::text::trim(text);
    let no_speech = t.unicode_len() == 0;
    DeliveryPlan {
        no_speech,
        copy_to_clipboard: !no_speech && options.copy_to_clipboard,
        inject: !no_speech && options.auto_paste,
        paste_on_inject_failure: !no_speech && options.auto_paste && options.copy_to_clipboard,
    }
}

/// What a status bar shows for the recording status.
#[derive(Debug, Clone, PartialEq, Eq)]
pub struct WaybarIndicator {
    pub text: String,
    pub class: String,
    pub tooltip: String,
}

/// The status bar indicator: configured texts while idle or recording, a
/// fixed one while processing, the last error (or a generic message) on
/// error.
pub fn waybar_indicator(status: &RecordingStatus, config: &WaybarConfig) -> (r: WaybarIndicator)
    ensures
        status.phase == RecordingPhase::Idle ==> r.text@ == config.idle_text@ && r.class@ == "audetic-idle"@
            && r.tooltip@ == config.idle_tooltip@,
        status.phase == RecordingPhase::Recording ==> r.text@ == config.recording_text@
            && r.class@ == "audetic-recording"@ && r.tooltip@ == config.recording_tooltip@,
        status.phase == RecordingPhase::Processing ==> r.text@ == "\u{f0996}"@
            && r.class@ == "audetic-processing"@ && r.tooltip@ == "Processing transcription"@,
        status.phase == RecordingPhase::Error ==> r.text@ == ""@ && r.class@ == "audetic-error"@
            && r.tooltip@ == match status.last_error {
                Some(e) => e@,
                None => "Recording error"@,
            },
{
    match status.phase {
        RecordingPhase::Idle => WaybarIndicator {
            text: config.idle_text.clone(),
            class: String::from_str("audetic-idle"),
            tooltip: config.idle_tooltip.clone(),
        },
        RecordingPhase::Recording => WaybarIndicator {
            text: config.recording_text.clone(),
            class: String::from_str("audetic-recording"),
            tooltip: config.recording_tooltip.clone(),
        },
        RecordingPhase::Processing => WaybarIndicator {
            text: String::from_str("\u{f0996}"),
            class: String::from_str("audetic-processing"),
            tooltip: String::from_str("Processing transcription"),
        },
        RecordingPhase::Error => WaybarIndicator {
            text: String::from_str(""),
            class: String::from_str("audetic-error"),
            tooltip: match &status.last_error {
                Some(e) => e.clone(),
                None => String::from_str("Recording error"),
            },
        },
    }
}

} // verus!
