//! Application configuration and its defaults.
use vstd::prelude::*;
use vstd::string::*;

verus! {

#[derive(Debug)]
pub struct Config {
    pub whisper: WhisperConfig,
    pub ui: UiConfig,
    pub wayland: WaylandConfig,
    pub behavior: BehaviorConfig,
    pub meeting: MeetingConfig,
}

#[derive(Debug)]
pub struct MeetingConfig {
    /// Shell command to run after a meeting transcription completes; it
    /// receives the transcript on standard input.
    pub post_command: String,
    /// Timeout in seconds for the post command
    pub post_command_timeout_seconds: u64,
}

#[derive(Debug, Clone)]
pub struct WhisperConfig {
    pub model: Option<String>,
    pub language: Option<String>,
    pub command_path: Option<String>,
    pub model_path: Option<String>,
    pub api_endpoint: Option<String>,
    pub provider: Option<String>,
    pub api_key: Option<String>,
}

#[derive(Debug)]
pub struct UiConfig {
    pub notification_color: String,
    pub waybar: WaybarConfig,
}

#[derive(Debug, Clone)]
pub struct WaybarConfig {
    pub idle_text: String,
    pub recording_text: String,
    pub idle_tooltip: String,
    pub recording_tooltip: String,
}

#[derive(Debug)]
pub struct WaylandConfig {
    pub input_method: String,
}

#[derive(Debug)]
pub struct BehaviorConfig {
    pub auto_paste: bool,
    pub preserve_clipboard: bool,
    pub delete_audio_files: bool,
    pub audio_feedback: bool,
}

/// Audio feedback is on unless configured otherwise.
pub fn default_audio_feedback() -> (r: bool)
    ensures
        r,
{
    true
}

impl Default for MeetingConfig {
    /// No post command; a one-hour timeout.
    fn default() -> (r: Self)
        ensures
            r.post_command@.len() == 0,
            r.post_command_timeout_seconds == 3600,
    {
        MeetingConfig { post_command: String::new(), post_command_timeout_seconds: 3600 }
    }
}

impl Default for WhisperConfig {
    fn default() -> (r: Self)
        ensures
            r.model.is_some() && r.model->0@ == "base"@,
            r.language.is_some() && r.language->0@ == "en"@,
            r.command_path.is_none(),
            r.model_path.is_none(),
            r.api_endpoint.is_none(),
            r.provider.is_some() && r.provider->0@ == "audetic-api"@,
            r.api_key.is_none(),
    {
        WhisperConfig {
            model: Some(String::from_str("base")),
            language: Some(String::from_str("en")),
            command_path: None,
            model_path: None,
            api_endpoint: None,
            provider: Some(String::from_str("audetic-api")),
            api_key: None,
        }
    }
}

impl Default for WaybarConfig {
    fn default() -> (r: Self)
        ensures
            r.idle_text@ == "\u{f044a}"@,
            r.recording_text@ == "\u{f0ec3}"@,
            r.idle_tooltip@ == "Press Super+R to record"@,
            r.recording_tooltip@ == "Recording... Press Super+R to stop"@,
    {
        WaybarConfig {
            idle_text: String::from_str("\u{f044a}"),
            recording_text: String::from_str("\u{f0ec3}"),
            idle_tooltip: String::from_str("Press Super+R to record"),
            recording_tooltip: String::from_str("Recording... Press Super+R to stop"),
        }
    }
}

impl Default for UiConfig {
    fn default() -> (r: Self)
        ensures
            r.notification_color@ == "rgb(ff1744)"@,
            r.waybar.idle_tooltip@ == "Press Super+R to record"@,
    {
        UiConfig { notification_color: String::from_str("rgb(ff1744)"), waybar: WaybarConfig::default() }
    }
}

impl Default for WaylandConfig {
    fn default() -> (r: Self)
        ensures
            r.input_method@ == "wtype"@,
    {
        WaylandConfig { input_method: String::from_str("wtype") }
    }
}

impl Default for BehaviorConfig {
    fn default() -> (r: Self)
        ensures
            r.auto_paste,
            !r.preserve_clipboard,
            r.delete_audio_files,
            r.audio_feedback,
    {
        BehaviorConfig {
            auto_paste: true,
            preserve_clipboard: false,
            delete_audio_files: true,
            audio_feedback: default_audio_feedback(),
        }
    }
}

impl Default for Config {
    fn default() -> (r: Self)
        ensures
            r.whisper.provider.is_some() && r.whisper.provider->0@ == "audetic-api"@,
            r.meeting.post_command@.len() == 0,
            r.meeting.post_command_timeout_seconds == 3600,
            r.behavior.auto_paste,
    {
        Config {
            whisper: WhisperConfig::default(),
            ui: UiConfig::default(),
            wayland: WaylandConfig::default(),
            behavior: BehaviorConfig::default(),
            meeting: MeetingConfig::default(),
        }
    }
}

impl MeetingConfig {
    /// The post command, when one is configured (a non-empty one).
    pub fn hook_command(&self) -> (r: Option<&String>)
        ensures
            self.post_command@.len() == 0 <==> r.is_none(),
            r.is_some() ==> r->0 == &self.post_command,
    {
        if self.post_command.unicode_len() == 0 {
            None
        } else {
            Some(&self.post_command)
        }
    }
}

} // verus!
