use audetic::capture::monitor_source_name;
use audetic::normalizer::{TranscriptionNormalizer, WhisperCppNormalizer};
use audetic::audio_mixer::{mix_plan, resample_identity, resampled_len, MixPlan};
use audetic::capture::{CaptureState, SourceError};
use audetic::normalizer::join_cleaned_lines;
use audetic::paths::{config_file, db_file, meetings_dir};
use audetic::pcm::{au_bytes_to_skip, is_au_header, PcmDecoder};
use audetic::text_io::InjectionMethod;

#[test]
fn mix_plans() {
    assert_eq!(mix_plan(&[]), MixPlan::Empty);
    assert_eq!(mix_plan(&[0, 0]), MixPlan::Empty);
    assert_eq!(mix_plan(&[3]), MixPlan::Single { index: 0 });
    assert_eq!(mix_plan(&[0, 2]), MixPlan::Single { index: 1 });
    assert_eq!(mix_plan(&[2, 4]), MixPlan::Average { sources: 2, len: 4 });
    assert_eq!(mix_plan(&[3, 0, 3]), MixPlan::Average { sources: 2, len: 3 });
}

#[test]
fn resample_lengths() {
    assert_eq!(resampled_len(48, 48000, 16000), 16);
    assert_eq!(resampled_len(49, 48000, 16000), 17);
    assert_eq!(resampled_len(32000, 16000, 16000), 32000);
    assert_eq!(resampled_len(10, 16000, 48000), 30);
    assert_eq!(resampled_len(0, 48000, 16000), 0);
    assert!(resample_identity(3, 16000, 16000));
    assert!(resample_identity(0, 48000, 16000));
    assert!(!resample_identity(3, 48000, 16000));
}

#[test]
fn capture_start_stop_discipline() {
    let mut s = CaptureState::new();
    assert_eq!(s.stop_capture(), Err(SourceError::NotRecording));
    assert!(!s.is_active());
    assert_eq!(s.start_capture(), Ok(()));
    assert_eq!(s.start_capture(), Err(SourceError::AlreadyRecording));
    assert!(s.is_active());
    assert_eq!(s.stop_capture(), Ok(()));
    assert!(!s.is_active());
}

#[test]
fn pcm_framing_keeps_partial_samples() {
    let one = 1.5f32.to_le_bytes();
    let two = (-0.25f32).to_le_bytes();
    let mut d = PcmDecoder::new();
    let first = d.feed(&[one[0], one[1], one[2]]);
    assert!(first.is_empty());
    let second = d.feed(&[one[3], two[0], two[1], two[2], two[3], 9]);
    assert_eq!(second.iter().map(|w| f32::from_bits(*w)).collect::<Vec<_>>(), vec![1.5, -0.25]);
    assert_eq!(d.finish(), 1);
    assert!(is_au_header(&[0x2e, 0x73, 0x6e, 0x64]));
    assert!(!is_au_header(&[0, 0, 0, 0]));
    assert_eq!(au_bytes_to_skip(&[0, 0, 0, 24]), 16);
    assert_eq!(au_bytes_to_skip(&[0, 0, 0, 8]), 0);
    assert_eq!(au_bytes_to_skip(&[0, 0, 1, 0]), 248);
}

#[test]
fn injection_method_selection() {
    assert_eq!(InjectionMethod::select(Some("wtype"), true, true, false, false), InjectionMethod::Wtype);
    assert_eq!(InjectionMethod::select(Some("wtype"), true, false, false, false), InjectionMethod::Ydotool);
    assert_eq!(InjectionMethod::select(None, false, true, true, true), InjectionMethod::Clipboard);
    assert_eq!(InjectionMethod::select(None, false, true, true, false), InjectionMethod::Wtype);
    assert_eq!(InjectionMethod::select(Some("other"), false, false, false, false), InjectionMethod::Clipboard);
    let _ = InjectionMethod::detect(None, false);
}

#[test]
fn cleaned_lines_join_into_a_paragraph() {
    let lines = vec![" This is me talking".to_string(), "   ".to_string(), "And more text ".to_string()];
    assert_eq!(join_cleaned_lines(&lines), "This is me talking And more text");
    assert_eq!(join_cleaned_lines(&[]), "");
}

#[test]
fn application_directories() {
    if let Ok(path) = config_file() {
        assert!(path.ends_with("/audetic/config.toml"));
    }
    if let Ok(path) = db_file() {
        assert!(path.ends_with("/audetic/audetic.db"));
    }
    assert!(meetings_dir().ends_with("meetings"));
}

#[test]
fn monitor_name_from_sink() {
    assert_eq!(monitor_source_name("alsa_output.pci\n"), Some("alsa_output.pci.monitor".to_string()));
    assert_eq!(monitor_source_name(" \n"), None);
}

#[test]
fn whisper_cpp_output_is_cleaned() {
    let normalizer = WhisperCppNormalizer::new().unwrap();
    let input = "[00:00:00.000 --> 00:00:03.280] This is me talking\n[00:00:03.280 --> 00:00:05.000] And more text";
    assert_eq!(normalizer.normalize(input), "This is me talking And more text");
    assert_eq!(normalizer.normalize("[00:00:00:000 --> 00:00:03:280] This is me talking"), "This is me talking");
}
