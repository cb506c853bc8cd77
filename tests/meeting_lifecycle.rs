use audetic::audio_mixer::{mix_plan, resample_identity, MixPlan};
use audetic::hook::{hook_environment, MeetingResult, ShellCommandHook};
use audetic::hook_env;
use audetic::meeting::{
    check_captured, check_start, complete_start, plan_stop, toggle_action, MeetingAction, MeetingError, PostEvent,
    PostProcess, PostStage, ToggleAction,
};
use audetic::status::{MeetingPhase, MeetingState};
use std::time::Duration;

#[test]
fn test_meeting_phase_as_str() {
    assert_eq!(MeetingPhase::Idle.as_str(), "idle");
    assert_eq!(MeetingPhase::Recording.as_str(), "recording");
    assert_eq!(MeetingPhase::Compressing.as_str(), "compressing");
    assert_eq!(MeetingPhase::Transcribing.as_str(), "transcribing");
    assert_eq!(MeetingPhase::RunningHook.as_str(), "running_hook");
    assert_eq!(MeetingPhase::Completed.as_str(), "completed");
    assert_eq!(MeetingPhase::Error.as_str(), "error");
}

#[test]
fn test_meeting_state_default() {
    let state = MeetingState::default();
    assert_eq!(state.phase, MeetingPhase::Idle);
    assert!(state.meeting_id.is_none());
    assert!(state.started_at.is_none());
    assert!(state.title.is_none());
    assert!(state.audio_path.is_none());
    assert!(state.last_error.is_none());
}

#[test]
fn test_hook_env_constants() {
    assert_eq!(hook_env::MEETING_ID, "AUDETIC_MEETING_ID");
    assert_eq!(hook_env::MEETING_TITLE, "AUDETIC_MEETING_TITLE");
    assert_eq!(hook_env::AUDIO_PATH, "AUDETIC_AUDIO_PATH");
    assert_eq!(hook_env::TRANSCRIPT_PATH, "AUDETIC_TRANSCRIPT_PATH");
    assert_eq!(hook_env::DURATION_SECONDS, "AUDETIC_DURATION_SECONDS");
}

#[test]
fn test_shell_command_hook_creation() {
    let hook = ShellCommandHook::new("echo hello".to_string(), 3600);
    assert_eq!(hook.command, "echo hello");
    assert_eq!(Duration::from_secs(hook.timeout_seconds), Duration::from_secs(3600));
}

#[test]
fn hook_environment_values() {
    let result = MeetingResult {
        meeting_id: -42,
        title: None,
        audio_path: "/tmp/test.mp3".to_string(),
        transcript_path: "/tmp/test.txt".to_string(),
        transcript_text: "Hello world".to_string(),
        duration_seconds: 300,
    };
    let env = hook_environment(&result);
    assert_eq!(env[0], ("AUDETIC_MEETING_ID".to_string(), "-42".to_string()));
    assert_eq!(env[1], ("AUDETIC_MEETING_TITLE".to_string(), "".to_string()));
    assert_eq!(env[2].1, "/tmp/test.mp3");
    assert_eq!(env[3].1, "/tmp/test.txt");
    assert_eq!(env[4], ("AUDETIC_DURATION_SECONDS".to_string(), "300".to_string()));
}

#[test]
fn status_transitions() {
    let mut state = MeetingState::default();
    state.start_recording(1, Some("Standup".to_string()), "/tmp/test.wav".to_string(), 100);
    assert_eq!(state.phase, MeetingPhase::Recording);
    assert_eq!(state.meeting_id, Some(1));
    assert_eq!(state.title, Some("Standup".to_string()));
    assert_eq!(state.duration_seconds(160), Some(60));
    assert_eq!(state.duration_seconds(50), Some(0));
    state.set_phase(MeetingPhase::Compressing);
    assert_eq!(state.phase, MeetingPhase::Compressing);
    state.set_error("test error".to_string());
    assert_eq!(state.phase, MeetingPhase::Error);
    assert_eq!(state.last_error, Some("test error".to_string()));
    state.complete();
    assert_eq!(state.phase, MeetingPhase::Completed);
    state.reset();
    assert_eq!(state.phase, MeetingPhase::Idle);
    assert!(state.meeting_id.is_none());
}

#[test]
fn lifecycle_legality() {
    let idle = MeetingState::default();
    assert_eq!(plan_stop(&idle, 10).unwrap_err(), MeetingError::NotRecording { phase: MeetingPhase::Idle });
    assert_eq!(idle.phase, MeetingPhase::Idle);

    let mut recording = MeetingState::default();
    recording.start_recording(7, None, "/m/a.wav".to_string(), 5);
    assert_eq!(check_start(&recording), Err(MeetingError::AlreadyRecording { meeting_id: 7 }));
    assert_eq!(recording.phase, MeetingPhase::Recording);

    for phase in [MeetingPhase::Compressing, MeetingPhase::Transcribing, MeetingPhase::RunningHook] {
        assert_eq!(toggle_action(phase), Err(MeetingError::Busy { phase }));
    }
    assert_eq!(toggle_action(MeetingPhase::Recording), Ok(ToggleAction::Stop));
    for phase in [MeetingPhase::Idle, MeetingPhase::Completed, MeetingPhase::Error] {
        assert_eq!(toggle_action(phase), Ok(ToggleAction::Start));
        assert_eq!(check_start(&MeetingState { phase, ..MeetingState::default() }), Ok(()));
    }
}

#[test]
fn no_audio_guard() {
    let mut state = MeetingState::default();
    state.start_recording(3, None, "/m/a.wav".to_string(), 0);
    let plan = plan_stop(&state, 4).unwrap();
    match check_captured(&mut state, &plan, 0, 0) {
        Err(MeetingAction::RecordFailed { meeting_id, error }) => {
            assert_eq!(meeting_id, 3);
            assert_eq!(error, "No audio captured");
        }
        other => panic!("unexpected {:?}", other),
    }
    assert_eq!(state.phase, MeetingPhase::Error);
    assert_eq!(state.last_error, Some("No audio captured".to_string()));

    let mut other = MeetingState::default();
    other.start_recording(4, None, "/m/b.wav".to_string(), 0);
    assert!(check_captured(&mut other, &plan, 0, 5).is_ok());
    assert_eq!(other.phase, MeetingPhase::Recording);
}

fn run_to_transcript(has_hook: bool) -> (PostProcess, MeetingState, Vec<MeetingAction>) {
    let mut state = MeetingState::default();
    state.start_recording(9, Some("Sync".to_string()), "/m/meeting-1.wav".to_string(), 1000);
    let plan = plan_stop(&state, 1002).unwrap();
    assert!(check_captured(&mut state, &plan, 32000, 0).is_ok());
    let (mut post, actions) = PostProcess::begin(plan, has_hook, &mut state);
    assert_eq!(state.phase, MeetingPhase::Compressing);
    assert!(matches!(&actions[0], MeetingAction::Compress { audio_path } if audio_path == "/m/meeting-1.wav"));
    let actions = post.advance(&mut state, PostEvent::Compressed { compressed_path: "/m/meeting-1.mp3".to_string() });
    assert_eq!(actions.len(), 3);
    assert!(matches!(&actions[0], MeetingAction::RemoveFile { path } if path == "/m/meeting-1.wav"));
    assert!(matches!(&actions[2], MeetingAction::Transcribe { audio_path } if audio_path == "/m/meeting-1.mp3"));
    let actions = post.advance(&mut state, PostEvent::Transcribed { text: "notes".to_string() });
    (post, state, actions)
}

#[test]
fn hook_outcome_never_reaches_status() {
    for succeeded in [true, false] {
        let (mut post, mut state, actions) = run_to_transcript(true);
        assert_eq!(state.phase, MeetingPhase::RunningHook);
        assert!(matches!(&actions[1], MeetingAction::RecordCompleted { transcript_text, transcript_path, .. }
            if transcript_text == "notes" && transcript_path == "/m/meeting-1.txt"));
        match &actions[2] {
            MeetingAction::RunHook { result } => {
                assert_eq!(result.meeting_id, 9);
                assert_eq!(result.title, Some("Sync".to_string()));
                assert_eq!(result.duration_seconds, 2);
            }
            other => panic!("unexpected {:?}", other),
        }
        let after = post.advance(&mut state, PostEvent::HookFinished { succeeded });
        assert!(after.is_empty());
        assert_eq!(state.phase, MeetingPhase::Completed);
        assert!(state.last_error.is_none());
        assert_eq!(post.stage, PostStage::Done);
    }
}

#[test]
fn transcription_failure_ends_in_error() {
    let mut state = MeetingState::default();
    state.start_recording(2, None, "/m/x.wav".to_string(), 0);
    let plan = plan_stop(&state, 1).unwrap();
    let (mut post, _) = PostProcess::begin(plan, false, &mut state);
    post.advance(&mut state, PostEvent::CompressionFailed);
    let actions = post.advance(&mut state, PostEvent::TranscriptionFailed { error: "timeout".to_string() });
    assert!(matches!(&actions[0], MeetingAction::RecordFailed { meeting_id: 2, error } if error == "timeout"));
    assert_eq!(state.phase, MeetingPhase::Error);
    assert_eq!(state.last_error, Some("timeout".to_string()));
    // an event out of turn changes nothing
    let again = post.advance(&mut state, PostEvent::HookFinished { succeeded: true });
    assert!(again.is_empty());
    assert_eq!(state.phase, MeetingPhase::Error);
}

#[test]
fn end_to_end_without_title_or_hook() {
    let mut state = MeetingState::default();
    assert_eq!(check_start(&state), Ok(()));
    state.start_recording(1, None, "/data/meetings/meeting-20250101-100000.wav".to_string(), 1_000);
    let plan = plan_stop(&state, 1_002).unwrap();
    assert_eq!(plan.duration_seconds, 2);
    assert!(check_captured(&mut state, &plan, 32000, 0).is_ok());
    // the mic buffer alone is mixed, unchanged and already at the target rate
    assert!(resample_identity(32000, 16000, 16000));
    assert_eq!(mix_plan(&[32000, 0]), MixPlan::Single { index: 0 });
    let (mut post, _) = PostProcess::begin(plan, false, &mut state);
    let actions = post.advance(&mut state, PostEvent::CompressionFailed);
    assert!(matches!(&actions[1], MeetingAction::Transcribe { audio_path } if audio_path.ends_with(".wav")));
    let actions = post.advance(&mut state, PostEvent::Transcribed { text: "hello world".to_string() });
    assert_eq!(actions.len(), 2);
    match &actions[1] {
        MeetingAction::RecordCompleted { meeting_id, transcript_text, duration_seconds, transcript_path } => {
            assert_eq!(*meeting_id, 1);
            assert_eq!(transcript_text, "hello world");
            assert_eq!(*duration_seconds, 2);
            assert_eq!(transcript_path, "/data/meetings/meeting-20250101-100000.txt");
        }
        other => panic!("unexpected {:?}", other),
    }
    assert_eq!(state.phase, MeetingPhase::Completed);
}

#[test]
fn start_needs_the_microphone_only() {
    let mut state = MeetingState::default();
    let refused = complete_start(&mut state, 5, None, "/m/a.wav".to_string(), 10, false);
    assert_eq!(refused, Err(MeetingError::MicUnavailable));
    assert_eq!(state.phase, MeetingPhase::Idle);
    let started = complete_start(&mut state, 5, Some("t".to_string()), "/m/a.wav".to_string(), 10, true).unwrap();
    assert_eq!(started.meeting_id, 5);
    assert_eq!(started.audio_path, "/m/a.wav");
    assert_eq!(state.phase, MeetingPhase::Recording);
    assert_eq!(state.started_at, Some(10));
}
