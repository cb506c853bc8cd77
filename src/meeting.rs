//! The meeting lifecycle: which requests are legal in which phase, the
//! no-audio guard, and the post-recording pipeline as a state machine whose
//! actions (compress, transcribe, persist, run the hook) are carried out by
//! the caller, who feeds back what happened.
use vstd::prelude::*;
use crate::hook::MeetingResult;
use crate::paths::{replace_extension, with_extension};
use crate::status::{MeetingPhase, MeetingState};
use crate::text::text_or_empty;
use vstd::string::*;

verus! {

/// Result returned from stopping a meeting.
#[derive(Debug, Clone, PartialEq, Eq)]
pub struct MeetingStopResult {
    pub meeting_id: i64,
    pub duration_seconds: u64,
}

/// Result returned from starting a meeting.
#[derive(Debug, Clone, PartialEq, Eq)]
pub struct MeetingStartResult {
    pub meeting_id: i64,
    pub audio_path: String,
}

/// Outcome of a toggle operation.
#[derive(Debug, Clone, PartialEq, Eq)]
pub enum ToggleOutcome {
    Started(MeetingStartResult),
    Stopped(MeetingStopResult),
}

/// Why a lifecycle request was refused.
#[derive(Debug, Clone, Copy, PartialEq, Eq, Structural)]
pub enum MeetingError {
    /// `start` while a meeting is being recorded.
    AlreadyRecording { meeting_id: i64 },
    /// `stop` while nothing is being recorded.
    NotRecording { phase: MeetingPhase },
    /// `toggle` while the previous meeting is still being processed.
    Busy { phase: MeetingPhase },
    /// Both sources came back empty.
    NoAudio,
    /// The microphone could not start.
    MicUnavailable,
}

/// What a toggle request turns into.
#[derive(Debug, Clone, Copy, PartialEq, Eq, Structural)]
pub enum ToggleAction {
    Start,
    Stop,
}

/// Everything `stop` needs from the state of the meeting being stopped.
#[derive(Debug, Clone, PartialEq, Eq)]
pub struct StopPlan {
    pub meeting_id: i64,
    pub duration_seconds: u64,
    pub audio_path: String,
    pub title: Option<String>,
}

/// Message stored when a meeting ends without any audio.
pub const NO_AUDIO_MESSAGE: &'static str = "No audio captured";

pub open spec fn start_outcome(s: MeetingState) -> Result<(), MeetingError> {
    if s.phase == MeetingPhase::Recording {
        Err(MeetingError::AlreadyRecording { meeting_id: s.meeting_id.unwrap_or(0) })
    } else {
        Ok(())
    }
}

/// The plan `stop` computes from a recording state `s` at time `now`.
pub open spec fn plans_stop_of(p: StopPlan, s: MeetingState, now: u64) -> bool {
    &&& p.meeting_id == s.meeting_id.unwrap_or(0)
    &&& p.duration_seconds == s.elapsed(now).unwrap_or(0)
    &&& p.audio_path@ == text_or_empty(s.audio_path)
    &&& p.title == s.title
}

/// `stop` is refused unless a meeting is being recorded.
pub open spec fn stop_refused(s: MeetingState) -> bool {
    s.phase != MeetingPhase::Recording
}

pub open spec fn toggle_decision(phase: MeetingPhase) -> Result<ToggleAction, MeetingError> {
    match phase {
        MeetingPhase::Recording => Ok(ToggleAction::Stop),
        MeetingPhase::Idle | MeetingPhase::Completed | MeetingPhase::Error => Ok(ToggleAction::Start),
        p => Err(MeetingError::Busy { phase: p }),
    }
}

/// Whether a new meeting may start: refused while one is being recorded.
pub fn check_start(state: &MeetingState) -> (r: Result<(), MeetingError>)
    ensures
        r == start_outcome(*state),
{
    if state.phase == MeetingPhase::Recording {
        let id = match state.meeting_id {
            Some(i) => i,
            None => 0,
        };
        Err(MeetingError::AlreadyRecording { meeting_id: id })
    } else {
        Ok(())
    }
}

/// What stopping the current meeting involves, measured at `now`; refused
/// unless a meeting is being recorded.
pub fn plan_stop(state: &MeetingState, now: u64) -> (r: Result<StopPlan, MeetingError>)
    ensures
        r is Err <==> stop_refused(*state),
        r is Err ==> r == Err::<StopPlan, MeetingError>(MeetingError::NotRecording { phase: state.phase }),
        r is Ok ==> plans_stop_of(r->Ok_0, *state, now),
{
    if state.phase != MeetingPhase::Recording {
        return Err(MeetingError::NotRecording { phase: state.phase });
    }
    let meeting_id = match state.meeting_id {
        Some(i) => i,
        None => 0,
    };
    let duration_seconds = match state.duration_seconds(now) {
        Some(d) => d,
        None => 0,
    };
    let audio_path = match &state.audio_path {
        Some(p) => p.clone(),
        None => String::new(),
    };
    Ok(StopPlan { meeting_id, duration_seconds, audio_path, title: state.title.clone() })
}

/// Finishes `start` once the meeting's record exists and both sources were
/// asked to start: without the microphone the start fails and nothing is
/// published; without system audio the meeting records the microphone only.
pub fn complete_start(
    state: &mut MeetingState,
    meeting_id: i64,
    title: Option<String>,
    audio_path: String,
    now: u64,
    mic_started: bool,
) -> (r: Result<MeetingStartResult, MeetingError>)
    ensures
        !mic_started ==> r == Err::<MeetingStartResult, MeetingError>(MeetingError::MicUnavailable) && *final(state) == *old(state),
        mic_started ==> r is Ok && r->Ok_0.meeting_id == meeting_id && r->Ok_0.audio_path == audio_path,
        mic_started ==> final(state).phase == MeetingPhase::Recording && final(state).meeting_id == Some(meeting_id)
            && final(state).started_at == Some(now) && final(state).title == title
            && final(state).audio_path == Some(audio_path) && final(state).last_error.is_none(),
{
    if !mic_started {
        return Err(MeetingError::MicUnavailable);
    }
    state.start_recording(meeting_id, title, audio_path.clone(), now);
    Ok(MeetingStartResult { meeting_id, audio_path })
}

/// How a toggle request is served in `phase`: stop while recording, start
/// from a resting phase, refuse while the previous meeting is processed.
pub fn toggle_action(phase: MeetingPhase) -> (r: Result<ToggleAction, MeetingError>)
    ensures
        r == toggle_decision(phase),
{
    match phase {
        MeetingPhase::Recording => Ok(ToggleAction::Stop),
        MeetingPhase::Idle | MeetingPhase::Completed | MeetingPhase::Error => Ok(ToggleAction::Start),
        p => Err(MeetingError::Busy { phase: p }),
    }
}

/// The stage the post-recording pipeline of one meeting is in.
#[derive(Debug, Clone, Copy, PartialEq, Eq, Structural)]
pub enum PostStage {
    Compressing,
    Transcribing,
    RunningHook,
    Done,
}

/// What happened when the caller carried out the last actions.
#[derive(Debug, Clone, PartialEq, Eq)]
pub enum PostEvent {
    /// The audio was compressed to `compressed_path`.
    Compressed { compressed_path: String },
    /// Compression failed; the uncompressed file is used instead.
    CompressionFailed,
    /// The transcription service returned `text`.
    Transcribed { text: String },
    /// The transcription service failed with `error`.
    TranscriptionFailed { error: String },
    /// The hook ran, whatever its outcome.
    HookFinished { succeeded: bool },
}

/// Work the caller must carry out, in order.
#[derive(Debug, Clone)]
pub enum MeetingAction {
    /// Compress the audio file.
    Compress { audio_path: String },
    /// Delete a file that is no longer needed.
    RemoveFile { path: String },
    /// Update the persisted record's status.
    RecordStatus { meeting_id: i64, phase: MeetingPhase },
    /// Submit the audio to the transcription service.
    Transcribe { audio_path: String },
    /// Write the transcript text to `path`.
    SaveTranscript { path: String, text: String },
    /// Mark the persisted record completed.
    RecordCompleted { meeting_id: i64, transcript_path: String, transcript_text: String, duration_seconds: u64 },
    /// Run the configured hook.
    RunHook { result: MeetingResult },
    /// Mark the persisted record failed.
    RecordFailed { meeting_id: i64, error: String },
}

/// The post-recording pipeline of one meeting: compress, transcribe,
/// persist, run the hook.
#[derive(Debug, Clone)]
pub struct PostProcess {
    pub meeting_id: i64,
    pub title: Option<String>,
    /// The audio file in use: the compressed one once compression succeeded.
    pub audio_path: String,
    /// Where the uncompressed recording was written.
    pub original_path: String,
    pub duration_seconds: u64,
    pub has_hook: bool,
    pub stage: PostStage,
}

/// The no-audio guard: with both sources empty the meeting ends in `Error`
/// and its record is marked failed; otherwise nothing changes.
pub fn check_captured(state: &mut MeetingState, plan: &StopPlan, mic_samples: usize, system_samples: usize) -> (r: Result<(), MeetingAction>)
    ensures
        (mic_samples == 0 && system_samples == 0) <==> r is Err,
        r is Ok ==> *final(state) == *old(state),
        r is Err ==> ({
            &&& final(state).phase == MeetingPhase::Error
            &&& final(state).last_error.is_some()
            &&& final(state).last_error->0@ == NO_AUDIO_MESSAGE@
            &&& final(state).meeting_id == old(state).meeting_id
            &&& final(state).started_at == old(state).started_at
            &&& r->Err_0 is RecordFailed
            &&& r->Err_0->RecordFailed_meeting_id == plan.meeting_id
            &&& r->Err_0->RecordFailed_error@ == NO_AUDIO_MESSAGE@
        }),
{
    if mic_samples == 0 && system_samples == 0 {
        state.set_error(String::from_str(NO_AUDIO_MESSAGE));
        Err(MeetingAction::RecordFailed { meeting_id: plan.meeting_id, error: String::from_str(NO_AUDIO_MESSAGE) })
    } else {
        Ok(())
    }
}

/// The transcript file sits beside the audio, with a `txt` extension.
pub open spec fn transcript_path_of(audio: Seq<char>) -> Seq<char> {
    with_extension(audio, "txt"@)
}

impl PostProcess {
    /// Starts the pipeline after the mixed audio was written to
    /// `plan.audio_path`: the state enters `Compressing` and the audio is to
    /// be compressed.
    pub fn begin(plan: StopPlan, has_hook: bool, state: &mut MeetingState) -> (r: (PostProcess, Vec<MeetingAction>))
        ensures
            r.0.meeting_id == plan.meeting_id,
            r.0.title == plan.title,
            r.0.audio_path == plan.audio_path,
            r.0.original_path == plan.audio_path,
            r.0.duration_seconds == plan.duration_seconds,
            r.0.has_hook == has_hook,
            r.0.stage == PostStage::Compressing,
            *final(state) == (MeetingState { phase: MeetingPhase::Compressing, ..*old(state) }),
            r.1@.len() == 1,
            r.1@[0] is Compress,
            r.1@[0]->Compress_audio_path == plan.audio_path,
    {
        state.set_phase(MeetingPhase::Compressing);
        let mut actions: Vec<MeetingAction> = Vec::new();
        actions.push(MeetingAction::Compress { audio_path: plan.audio_path.clone() });
        let p = PostProcess {
            meeting_id: plan.meeting_id,
            title: plan.title,
            audio_path: plan.audio_path.clone(),
            original_path: plan.audio_path,
            duration_seconds: plan.duration_seconds,
            has_hook,
            stage: PostStage::Compressing,
        };
        (p, actions)
    }

    /// Whether `event` is the kind of outcome the current stage waits for.
    pub open spec fn expects(&self, event: PostEvent) -> bool {
        match self.stage {
            PostStage::Compressing => event is Compressed || event is CompressionFailed,
            PostStage::Transcribing => event is Transcribed || event is TranscriptionFailed,
            PostStage::RunningHook => event is HookFinished,
            PostStage::Done => false,
        }
    }

    /// Feeds back the outcome of the last actions and returns the next ones.
    ///
    /// Compression failure falls back to the uncompressed file. A transcript
    /// is saved and persisted before the hook runs; a transcription failure
    /// ends the meeting in `Error`. Whatever the hook did, the meeting then
    /// completes. An event the stage does not wait for changes nothing.
    pub fn advance(&mut self, state: &mut MeetingState, event: PostEvent) -> (r: Vec<MeetingAction>)
        ensures
            !old(self).expects(event) ==> *final(self) == *old(self) && *final(state) == *old(state) && r@.len() == 0,
            old(self).expects(event) ==> ({
                &&& final(self).meeting_id == old(self).meeting_id
                &&& final(self).title == old(self).title
                &&& final(self).original_path == old(self).original_path
                &&& final(self).duration_seconds == old(self).duration_seconds
                &&& final(self).has_hook == old(self).has_hook
            }),
            // compression
            old(self).expects(event) && event is Compressed ==> ({
                &&& final(self).stage == PostStage::Transcribing
                &&& final(self).audio_path == event->Compressed_compressed_path
                &&& *final(state) == (MeetingState { phase: MeetingPhase::Transcribing, ..*old(state) })
                &&& r@.len() == 3
                &&& r@[0] is RemoveFile && r@[0]->RemoveFile_path == old(self).audio_path
                &&& r@[1] is RecordStatus && r@[1]->RecordStatus_meeting_id == old(self).meeting_id
                &&& r@[1]->RecordStatus_phase == MeetingPhase::Transcribing
                &&& r@[2] is Transcribe && r@[2]->Transcribe_audio_path == event->Compressed_compressed_path
            }),
            old(self).expects(event) && event is CompressionFailed ==> ({
                &&& final(self).stage == PostStage::Transcribing
                &&& final(self).audio_path == old(self).audio_path
                &&& *final(state) == (MeetingState { phase: MeetingPhase::Transcribing, ..*old(state) })
                &&& r@.len() == 2
                &&& r@[0] is RecordStatus && r@[0]->RecordStatus_meeting_id == old(self).meeting_id
                &&& r@[0]->RecordStatus_phase == MeetingPhase::Transcribing
                &&& r@[1] is Transcribe && r@[1]->Transcribe_audio_path == old(self).audio_path
            }),
            // transcription
            old(self).expects(event) && event is Transcribed ==> ({
                let text = event->Transcribed_text;
                &&& final(self).audio_path == old(self).audio_path
                &&& r@.len() == if old(self).has_hook { 3int } else { 2int }
                &&& r@[0] is SaveTranscript
                &&& r@[0]->SaveTranscript_path@ == transcript_path_of(old(self).audio_path@)
                &&& r@[0]->SaveTranscript_text == text
                &&& r@[1] is RecordCompleted
                &&& r@[1]->RecordCompleted_meeting_id == old(self).meeting_id
                &&& r@[1]->RecordCompleted_transcript_path@ == transcript_path_of(old(self).audio_path@)
                &&& r@[1]->RecordCompleted_transcript_text == text
                &&& r@[1]->RecordCompleted_duration_seconds == old(self).duration_seconds
                &&& if old(self).has_hook {
                    &&& final(self).stage == PostStage::RunningHook
                    &&& *final(state) == (MeetingState { phase: MeetingPhase::RunningHook, ..*old(state) })
                    &&& r@[2] is RunHook
                    &&& r@[2]->RunHook_result.meeting_id == old(self).meeting_id
                    &&& r@[2]->RunHook_result.title == old(self).title
                    &&& r@[2]->RunHook_result.audio_path == old(self).audio_path
                    &&& r@[2]->RunHook_result.transcript_path@ == transcript_path_of(old(self).audio_path@)
                    &&& r@[2]->RunHook_result.transcript_text == text
                    &&& r@[2]->RunHook_result.duration_seconds == old(self).duration_seconds
                } else {
                    &&& final(self).stage == PostStage::Done
                    &&& *final(state) == (MeetingState { phase: MeetingPhase::Completed, ..*old(state) })
                }
            }),
            old(self).expects(event) && event is TranscriptionFailed ==> ({
                &&& final(self).stage == PostStage::Done
                &&& final(self).audio_path == old(self).audio_path
                &&& *final(state) == (MeetingState {
                    phase: MeetingPhase::Error,
                    last_error: Some(event->TranscriptionFailed_error),
                    ..*old(state)
                })
                &&& r@.len() == 1
                &&& r@[0] is RecordFailed && r@[0]->RecordFailed_meeting_id == old(self).meeting_id
                &&& r@[0]->RecordFailed_error == event->TranscriptionFailed_error
            }),
            // the hook's outcome never reaches the meeting's status
            old(self).expects(event) && event is HookFinished ==> ({
                &&& final(self).stage == PostStage::Done
                &&& final(self).audio_path == old(self).audio_path
                &&& *final(state) == (MeetingState { phase: MeetingPhase::Completed, ..*old(state) })
                &&& r@.len() == 0
            }),
    {
        let mut actions: Vec<MeetingAction> = Vec::new();
        match (self.stage, event) {
            (PostStage::Compressing, PostEvent::Compressed { compressed_path }) => {
                let old_path = self.audio_path.clone();
                self.audio_path = compressed_path.clone();
                self.stage = PostStage::Transcribing;
                state.set_phase(MeetingPhase::Transcribing);
                actions.push(MeetingAction::RemoveFile { path: old_path });
                actions.push(MeetingAction::RecordStatus { meeting_id: self.meeting_id, phase: MeetingPhase::Transcribing });
                actions.push(MeetingAction::Transcribe { audio_path: compressed_path });
            },
            (PostStage::Compressing, PostEvent::CompressionFailed) => {
                self.stage = PostStage::Transcribing;
                state.set_phase(MeetingPhase::Transcribing);
                actions.push(MeetingAction::RecordStatus { meeting_id: self.meeting_id, phase: MeetingPhase::Transcribing });
                actions.push(MeetingAction::Transcribe { audio_path: self.audio_path.clone() });
            },
            (PostStage::Transcribing, PostEvent::Transcribed { text }) => {
                let transcript_path = replace_extension(self.audio_path.as_str(), "txt");
                actions.push(MeetingAction::SaveTranscript { path: transcript_path.clone(), text: text.clone() });
                actions.push(MeetingAction::RecordCompleted {
                    meeting_id: self.meeting_id,
                    transcript_path: transcript_path.clone(),
                    transcript_text: text.clone(),
                    duration_seconds: self.duration_seconds,
                });
                if self.has_hook {
                    self.stage = PostStage::RunningHook;
                    state.set_phase(MeetingPhase::RunningHook);
                    let result = MeetingResult {
                        meeting_id: self.meeting_id,
                        title: self.title.clone(),
                        audio_path: self.audio_path.clone(),
                        transcript_path,
                        transcript_text: text,
                        duration_seconds: self.duration_seconds,
                    };
                    actions.push(MeetingAction::RunHook { result });
                } else {
                    self.stage = PostStage::Done;
                    state.complete();
                }
            },
            (PostStage::Transcribing, PostEvent::TranscriptionFailed { error }) => {
                self.stage = PostStage::Done;
                state.set_error(error.clone());
                actions.push(MeetingAction::RecordFailed { meeting_id: self.meeting_id, error });
            },
            (PostStage::RunningHook, PostEvent::HookFinished { succeeded: _ }) => {
                self.stage = PostStage::Done;
                state.complete();
            },
            _ => {},
        }
        actions
    }
}

/// Lifecycle legality: `stop` from `Idle`, `start` while `Recording`, and
/// `toggle` while the previous meeting is still compressing, transcribing or
/// running its hook are all refused. The three checks only read the state,
/// so a refusal leaves it as it was.
pub proof fn lemma_lifecycle_legality(s: MeetingState)
    ensures
        s.phase == MeetingPhase::Idle ==> stop_refused(s),
        s.phase == MeetingPhase::Recording ==> start_outcome(s) is Err,
        (s.phase == MeetingPhase::Compressing || s.phase == MeetingPhase::Transcribing
            || s.phase == MeetingPhase::RunningHook) ==> toggle_decision(s.phase) is Err,
{
}

} // verus!
