use audetic::paths::first_free;
use audetic::history::{search_query, text_by_id, EntryNotFound, HistoryQuery};
use audetic::keybind::{backup_file_name, is_backup_of, stale_backups};
use audetic::config::{WaybarConfig, WhisperConfig};
use audetic::provider::{config_diff, field_diff, secret_diff};
use audetic::recording::{delivery_plan, waybar_indicator};
use audetic::db::{prune_count, InvalidWorkflowType, VoiceToTextData, Workflow, WorkflowData, WorkflowType};
use audetic::history::{entries_from, find_entry, HistoryEntry, SearchParams};
use audetic::logs::{log_lines, LogsOptions};
use audetic::media::{
    base_url, derive_jobs_url, is_already_compressed, mime_type_for_extension, needs_compression, poll_action,
    validate_file, FileError, PollAction,
};
use audetic::normalizer::{AssemblyAINormalizer, AudeticWhisperNormalizer, OpenAIWhisperNormalizer, TranscriptionNormalizer};
use audetic::paths::{extension, generate_audio_path, join, meeting_file, replace_extension};
use audetic::provider::{
    get_provider_info_from_config, get_provider_status_from_config, mask_secret, provider_status_display,
    validate_provider_config, ProviderSelection, ProviderStatus,
};
use audetic::recording::{
    completed_job, recording_transition, resolve_job_options, BehaviorOptions, JobOptions, RecordingPhase,
    RecordingStatus, RecordingTransition,
};
use audetic::update::{needs_update, update_step, UpdateMode, UpdateReport, UpdateState, UpdateStep};
use std::cmp::Ordering;

#[test]
fn test_recording_phase_as_str() {
    assert_eq!(RecordingPhase::Idle.as_str(), "idle");
    assert_eq!(RecordingPhase::Recording.as_str(), "recording");
    assert_eq!(RecordingPhase::Processing.as_str(), "processing");
    assert_eq!(RecordingPhase::Error.as_str(), "error");
}

#[test]
fn test_recording_status_default() {
    let status = RecordingStatus::default();
    assert_eq!(status.phase, RecordingPhase::Idle);
    assert!(status.current_job_id.is_none());
    assert!(status.current_job_options.is_none());
    assert!(status.last_completed_job.is_none());
    assert!(status.last_error.is_none());
}

#[test]
fn test_job_options_default() {
    let options = JobOptions::default();
    assert!(options.copy_to_clipboard);
    assert!(options.auto_paste);
}

#[test]
fn recording_status_lifecycle() {
    let mut status = RecordingStatus::default();
    status.start_job("first-job".to_string(), JobOptions::default());
    status.set_processing();
    assert_eq!(status.current_job_id, Some("first-job".to_string()));
    status.complete_job(completed_job(None, 3, "hi".to_string(), "now".to_string()));
    assert_eq!(status.phase, RecordingPhase::Idle);
    assert_eq!(status.last_completed_job.as_ref().unwrap().job_id, "unknown");
    status.start_job("second-job".to_string(), JobOptions { copy_to_clipboard: false, auto_paste: true });
    assert_eq!(status.last_completed_job.as_ref().unwrap().history_id, 3);
    status.fail_job("boom".to_string());
    assert_eq!(status.phase, RecordingPhase::Error);
    assert!(status.current_job_id.is_none());
    assert_eq!(recording_transition(RecordingPhase::Error), RecordingTransition::StartRecording);
    assert_eq!(recording_transition(RecordingPhase::Processing), RecordingTransition::Busy(RecordingPhase::Processing));
    let behavior = BehaviorOptions { auto_paste: false, delete_audio_files: true };
    assert_eq!(resolve_job_options(None, behavior), JobOptions { copy_to_clipboard: true, auto_paste: false });
}

#[test]
fn compression_test_is_already_compressed() {
    assert!(is_already_compressed("test.mp3"));
    assert!(is_already_compressed("test.MP3"));
    assert!(is_already_compressed("test.opus"));
    assert!(is_already_compressed("test.OPUS"));
    assert!(!is_already_compressed("test.wav"));
    assert!(!is_already_compressed("test.mp4"));
    assert!(!is_already_compressed("test"));
}

#[test]
fn test_mime_type_for_known_audio_extensions() {
    assert_eq!(mime_type_for_extension("wav"), Some("audio/wav"));
    assert_eq!(mime_type_for_extension("mp3"), Some("audio/mpeg"));
    assert_eq!(mime_type_for_extension("m4a"), Some("audio/mp4"));
    assert_eq!(mime_type_for_extension("flac"), Some("audio/flac"));
    assert_eq!(mime_type_for_extension("ogg"), Some("audio/ogg"));
    assert_eq!(mime_type_for_extension("opus"), Some("audio/opus"));
}

#[test]
fn test_mime_type_for_known_video_extensions() {
    assert_eq!(mime_type_for_extension("mp4"), Some("video/mp4"));
    assert_eq!(mime_type_for_extension("mkv"), Some("video/x-matroska"));
    assert_eq!(mime_type_for_extension("webm"), Some("video/webm"));
    assert_eq!(mime_type_for_extension("avi"), Some("video/x-msvideo"));
    assert_eq!(mime_type_for_extension("mov"), Some("video/quicktime"));
}

#[test]
fn test_mime_type_for_unknown_extension() {
    assert_eq!(mime_type_for_extension("xyz"), None);
    assert_eq!(mime_type_for_extension(""), None);
    assert_eq!(mime_type_for_extension("pdf"), None);
}

#[test]
fn test_validate_file_not_found() {
    let path = "/tmp/nonexistent_file.wav";
    assert!(validate_file(path).is_err());
}

#[test]
fn validate_file_checks_format() {
    assert_eq!(validate_file("/tmp/nonexistent_file.wav"), Err(FileError::NotFound));
    assert_eq!(validate_file("/"), Err(FileError::Unsupported { extension: String::new() }));
    assert!(needs_compression("a.wav", false));
    assert!(!needs_compression("a.wav", true));
    assert!(!needs_compression("a.Opus", false));
}

#[test]
fn test_derive_jobs_url_from_transcriptions() {
    assert_eq!(
        derive_jobs_url("https://audio.audetic.link/api/v1/transcriptions"),
        "https://audio.audetic.link/api/v1/jobs"
    );
}

#[test]
fn test_derive_jobs_url_from_transcriptions_trailing_slash() {
    assert_eq!(
        derive_jobs_url("https://audio.audetic.link/api/v1/transcriptions/"),
        "https://audio.audetic.link/api/v1/jobs"
    );
}

#[test]
fn test_derive_jobs_url_base() {
    assert_eq!(derive_jobs_url("https://audio.audetic.link/api/v1"), "https://audio.audetic.link/api/v1/jobs");
}

#[test]
fn urls_and_polling() {
    assert_eq!(derive_jobs_url("https://x.example/api//"), "https://x.example/api/jobs");
    assert_eq!(base_url("https://example.com/api/v1/jobs/"), "https://example.com/api/v1/jobs");
    assert_eq!(poll_action("completed"), PollAction::FetchJob);
    assert_eq!(poll_action("failed"), PollAction::FetchJob);
    assert_eq!(poll_action("cancelled"), PollAction::Cancelled);
    assert_eq!(poll_action("transcribing"), PollAction::Wait);
}

#[test]
fn paths_and_extensions() {
    assert_eq!(extension("/a/b.tar.gz"), Some("gz".to_string()));
    assert_eq!(extension("/a.d/.bashrc"), None);
    assert_eq!(extension("/a.d/file"), None);
    assert_eq!(replace_extension("/m/meeting.wav", "mp3"), "/m/meeting.mp3");
    assert_eq!(replace_extension("/m/notes", "txt"), "/m/notes.txt");
    assert_eq!(join("/data/", "x"), "/data/x");
    assert_eq!(join("/data", "x"), "/data/x");
    assert_eq!(meeting_file("20250101-100000", 0), "meeting-20250101-100000.wav");
    assert_eq!(meeting_file("20250101-100000", 12), "meeting-20250101-100000-12.wav");
    assert_eq!(
        generate_audio_path("/nonexistent-dir-for-tests", "s"),
        "/nonexistent-dir-for-tests/meeting-s.wav"
    );
}

#[test]
fn test_search_params_has_filters() {
    let params = SearchParams::new();
    assert!(!params.has_filters());

    let params = SearchParams::new().with_query("test");
    assert!(params.has_filters());

    let params = SearchParams::new().with_date_range(Some("2024-01-01".into()), None);
    assert!(params.has_filters());
}

#[test]
fn test_search_params_builder() {
    let params = SearchParams::new()
        .with_limit(50)
        .with_query("hello")
        .with_date_range(Some("2024-01-01".into()), Some("2024-12-31".into()));

    assert_eq!(params.limit, 50);
    assert_eq!(params.query, Some("hello".to_string()));
    assert_eq!(params.from, Some("2024-01-01".to_string()));
    assert_eq!(params.to, Some("2024-12-31".to_string()));
}

fn workflow(id: Option<i64>, text: &str) -> Workflow {
    Workflow {
        id,
        workflow_type: WorkflowType::VoiceToText,
        data: WorkflowData::VoiceToText(VoiceToTextData { text: text.to_string(), audio_path: "/a.wav".to_string() }),
        created_at: None,
    }
}

#[test]
fn history_entries() {
    let ws = vec![workflow(Some(4), "four"), workflow(None, "none")];
    let entries = entries_from(&ws);
    assert_eq!(entries[1].id, 0);
    assert_eq!(entries[1].created_at, "Unknown");
    assert_eq!(
        find_entry(&ws, 4),
        Some(HistoryEntry { id: 4, text: "four".to_string(), audio_path: "/a.wav".to_string(), created_at: "Unknown".to_string() })
    );
    assert_eq!(find_entry(&ws, 5), None);
    assert_eq!(WorkflowType::parse("VoiceToText"), Ok(WorkflowType::VoiceToText));
    assert_eq!(WorkflowType::from_str("Other"), Err(InvalidWorkflowType { name: "Other".to_string() }));
    assert_eq!(WorkflowType::VoiceToText.to_str(), "VoiceToText");
    let w = Workflow::new(WorkflowType::VoiceToText, WorkflowData::VoiceToText(VoiceToTextData { text: "t".to_string(), audio_path: "p".to_string() }));
    assert!(w.id.is_none() && w.created_at.is_none());
    assert_eq!(prune_count(10_005, 10_000), 5);
    assert_eq!(prune_count(3, 10_000), 0);
}

#[test]
fn test_logs_options_new() {
    let opts = LogsOptions::new(50);
    assert_eq!(opts.lines, 50);
}

#[test]
fn journal_lines_skip_blank_ones() {
    assert_eq!(log_lines("a\n  \nb\r\n\n"), vec!["a".to_string(), "b".to_string()]);
}

#[test]
fn openai_whisper_test_openai_whisper_normalizer() {
    let normalizer = OpenAIWhisperNormalizer::new();

    let input = "  This is clean text  ";
    let expected = "This is clean text";

    assert_eq!(normalizer.normalize(input), expected);
}

#[test]
fn test_assembly_ai_normalizer() {
    let normalizer = AssemblyAINormalizer::new();

    let input = "  This is clean text  ";
    let expected = "This is clean text";

    assert_eq!(normalizer.normalize(input), expected);
}

#[test]
fn audetic_api_test_openai_whisper_normalizer() {
    let normalizer = AudeticWhisperNormalizer::new();

    let input = "  This is clean text  ";
    let expected = "This is clean text";

    assert_eq!(normalizer.normalize(input), expected);
}

#[test]
fn test_provider_status_display() {
    let status = ProviderStatus::Ready {
        provider: "audetic-api".to_string(),
        model: Some("base".to_string()),
        language: Some("en".to_string()),
    };
    assert_eq!(provider_status_display(&status), "Ready");

    let status = ProviderStatus::NotConfigured;
    assert_eq!(provider_status_display(&status), "Not configured");
}

#[test]
fn test_mask_secret() {
    assert_eq!(mask_secret(&None), "<not set>");
    assert_eq!(mask_secret(&Some("".to_string())), "<not set>");
    assert_eq!(mask_secret(&Some("short".to_string())), "*****");
    assert_eq!(mask_secret(&Some("sk-1234567890abcdef".to_string())), "sk-1****ef");
}

#[test]
fn test_get_provider_status() {
    let mut whisper = WhisperConfig::default();

    // Default has audetic-api which needs no extra config
    let status = get_provider_status_from_config(&whisper).unwrap();
    assert!(matches!(status, ProviderStatus::Ready { .. }));

    // OpenAI API without key should error
    whisper.provider = Some("openai-api".to_string());
    whisper.api_key = None;
    let status = get_provider_status_from_config(&whisper).unwrap();
    assert!(matches!(status, ProviderStatus::ConfigError { .. }));

    // OpenAI API with key is valid
    whisper.api_key = Some("sk-test".to_string());
    let status = get_provider_status_from_config(&whisper).unwrap();
    assert!(matches!(status, ProviderStatus::Ready { .. } | ProviderStatus::ConfigError { .. }));
}

#[test]
fn provider_validation_messages() {
    let mut whisper = WhisperConfig::default();
    whisper.provider = None;
    assert!(matches!(get_provider_status_from_config(&whisper).unwrap(), ProviderStatus::NotConfigured));
    assert_eq!(validate_provider_config("whisper-cpp", &whisper), Some("Command path required for whisper.cpp".to_string()));
    whisper.command_path = Some("/bin/w".to_string());
    assert_eq!(validate_provider_config("whisper-cpp", &whisper), Some("Model path required for whisper.cpp".to_string()));
    assert_eq!(validate_provider_config("nope", &whisper), Some("Unknown provider: nope".to_string()));
    let info = get_provider_info_from_config(&whisper);
    assert!(!info.has_api_key);
    assert_eq!(ProviderSelection::from_index(9).as_str(), "whisper-cpp");
}

#[test]
fn update_decisions() {
    let forced = UpdateMode::Install { force: true };
    let plain = UpdateMode::Install { force: false };
    assert!(needs_update(Some(Ordering::Greater), plain));
    assert!(!needs_update(Some(Ordering::Equal), plain));
    assert!(needs_update(Some(Ordering::Less), forced));
    assert!(!needs_update(None, forced));
    assert_eq!(update_step(UpdateMode::CheckOnly, true, false, true), UpdateStep::ReportChecked);
    assert_eq!(update_step(plain, false, false, true), UpdateStep::ReportUpToDate);
    assert_eq!(update_step(plain, true, false, false), UpdateStep::ReportDisabled);
    assert_eq!(update_step(forced, false, false, false), UpdateStep::Install);
    assert_eq!(UpdateReport::checked("1.0.0".to_string(), "1.1.0".to_string(), true).message, "Update available: 1.0.0 \u{2192} 1.1.0");
    assert_eq!(UpdateReport::auto_update_changed("1.0.0".to_string(), true, false).message, "Auto-update state unchanged");
}

#[test]
fn reconcile_uses_semver_order() {
    let mut state = UpdateState::default();
    state.pending_restart = true;
    state.last_downloaded_version = Some("1.2.0".to_string());
    state.reconcile_with_running("1.10.0");
    assert!(!state.pending_restart);
    assert_eq!(state.current_version, Some("1.10.0".to_string()));

    let mut behind = UpdateState::default();
    behind.pending_restart = true;
    behind.last_downloaded_version = Some("1.10.0".to_string());
    behind.reconcile_with_running("1.9.0");
    assert!(behind.pending_restart);

    let mut fresh = UpdateState::default();
    fresh.reconcile_with_running("0.3.0");
    assert_eq!(fresh.current_version, Some("0.3.0".to_string()));
}

#[test]
fn delivery_follows_job_options() {
    let plan = delivery_plan("  hello ", JobOptions { copy_to_clipboard: false, auto_paste: true });
    assert!(!plan.no_speech && !plan.copy_to_clipboard && plan.inject && !plan.paste_on_inject_failure);
    let plan = delivery_plan(" \n ", JobOptions::default());
    assert!(plan.no_speech && !plan.copy_to_clipboard && !plan.inject);
    let plan = delivery_plan("x", JobOptions::default());
    assert!(plan.copy_to_clipboard && plan.inject && plan.paste_on_inject_failure);
}

#[test]
fn waybar_indicator_per_phase() {
    let config = WaybarConfig::default();
    let mut status = RecordingStatus::default();
    let idle = waybar_indicator(&status, &config);
    assert_eq!(idle.class, "audetic-idle");
    assert_eq!(idle.tooltip, "Press Super+R to record");
    status.fail_job("mic busy".to_string());
    let err = waybar_indicator(&status, &config);
    assert_eq!((err.text.as_str(), err.class.as_str(), err.tooltip.as_str()), ("", "audetic-error", "mic busy"));
    status.set_processing();
    assert_eq!(waybar_indicator(&status, &config).tooltip, "Processing transcription");
}

#[test]
fn provider_config_changes() {
    assert_eq!(field_diff("Model", &None, &None), None);
    assert_eq!(field_diff("Model", &None, &Some("base".to_string())), Some("  Model: <not set> -> base".to_string()));
    assert_eq!(
        secret_diff("API Key", &None, &Some("sk-1234567890abcdef".to_string())),
        Some("  API Key: <not set> -> sk-1****ef".to_string())
    );
    let old = WhisperConfig::default();
    let mut new = WhisperConfig::default();
    assert!(config_diff(&old, &new).is_empty());
    new.provider = Some("openai-api".to_string());
    new.api_key = Some("secret".to_string());
    assert_eq!(
        config_diff(&old, &new),
        vec!["  Provider: audetic-api -> openai-api".to_string(), "  API Key: <not set> -> ******".to_string()]
    );
}

#[test]
fn extensions_follow_path_components() {
    assert!(is_already_compressed("d/t.mp3/"));
    assert!(is_already_compressed("d/t.OPUS/."));
    assert_eq!(extension("d/t.mp3/"), Some("mp3".to_string()));
    assert_eq!(extension("a/.."), None);
    assert_eq!(extension("a/b../"), Some("".to_string()));
    assert_eq!(extension("."), None);
    assert_eq!(extension("/"), None);
    assert_eq!(replace_extension("d/t.wav/", "mp3"), "d/t.mp3");
    assert_eq!(replace_extension("..", "txt"), "..");
    assert_eq!(replace_extension("a/b.c", ""), "a/b");
}

#[test]
fn first_free_candidate() {
    assert_eq!(first_free(&[true, true, false]), 2);
    assert_eq!(first_free(&[false]), 0);
    assert_eq!(first_free(&[true, true]), 0);
    assert_eq!(first_free(&[]), 0);
}

#[test]
fn history_queries_and_text_lookup() {
    assert_eq!(search_query(&SearchParams::new()), HistoryQuery::Recent { limit: 20 });
    assert_eq!(
        search_query(&SearchParams::new().with_query("x")),
        HistoryQuery::Filtered { query: Some("x".to_string()), from: None, to: None, limit: 20 }
    );
    let ws = vec![workflow(Some(4), "four"), workflow(Some(4), "again")];
    assert_eq!(text_by_id(&ws, 4), Ok("four".to_string()));
    assert_eq!(text_by_id(&ws, 7), Err(EntryNotFound { id: 7 }));
}

#[test]
fn backups_beyond_three_are_stale() {
    assert_eq!(backup_file_name("b.conf", "20250101-000000"), "b.conf.audetic-backup-20250101-000000");
    assert!(is_backup_of("b.conf.audetic-backup-1", "b.conf"));
    assert!(!is_backup_of("c.conf.audetic-backup-1", "b.conf"));
    let names: Vec<String> = ["4", "3", "2", "1"].iter().map(|s| s.to_string()).collect();
    assert_eq!(stale_backups(&names), vec!["1".to_string()]);
    assert!(stale_backups(&names[..3]).is_empty());
}

#[test]
fn provider_error_carries_validation_message() {
    let mut whisper = WhisperConfig::default();
    whisper.provider = Some("openai-api".to_string());
    match get_provider_status_from_config(&whisper).unwrap() {
        ProviderStatus::ConfigError { provider, error } => {
            assert_eq!(provider, "openai-api");
            assert_eq!(error, "API key required for OpenAI API");
        }
        other => panic!("unexpected {:?}", other),
    }
}
