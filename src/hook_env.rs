//! Environment variable names for meeting metadata passed to hooks.
use vstd::prelude::*;

verus! {

pub const MEETING_ID: &'static str = "AUDETIC_MEETING_ID";
pub const MEETING_TITLE: &'static str = "AUDETIC_MEETING_TITLE";
pub const AUDIO_PATH: &'static str = "AUDETIC_AUDIO_PATH";
pub const TRANSCRIPT_PATH: &'static str = "AUDETIC_TRANSCRIPT_PATH";
pub const DURATION_SECONDS: &'static str = "AUDETIC_DURATION_SECONDS";

} // verus!
