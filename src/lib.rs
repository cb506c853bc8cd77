//! Meeting capture and transcription core: lifecycle state machines,
//! keybinding configuration handling, and the small rules around them.
pub mod text;
pub mod status;
pub mod paths;
pub mod hook_env;
pub mod hook;
pub mod meeting;
pub mod recording;
pub mod parser;
pub mod keybind;
pub mod writer;
pub mod discovery;
pub mod config;
pub mod db;
pub mod history;
pub mod logs;
pub mod media;
pub mod provider;
pub mod normalizer;
pub mod update;
pub mod audio_mixer;
pub mod pcm;
pub mod text_io;
pub mod capture;
