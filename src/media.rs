//! Media files sent for transcription: supported formats, compression, and
//! the jobs service's URLs and statuses.
use vstd::prelude::*;
use vstd::string::*;
use crate::paths::{extension, extension_of, path_exists};
use crate::text::{chars_of, ends_with_chars, ends_with_seq, eq_ignore_ascii_case, eq_ignore_ascii_case_seq, lower_of, replace_all, replace_all_seq, str_eq, to_lower, trim_end_char, trim_end_matches_char};

verus! {

/// Job status names used by the jobs service.
pub const STATUS_PENDING: &'static str = "pending";
pub const STATUS_EXTRACTING_AUDIO: &'static str = "extracting_audio";
pub const STATUS_TRANSCRIBING: &'static str = "transcribing";
pub const STATUS_COMPLETED: &'static str = "completed";
pub const STATUS_FAILED: &'static str = "failed";
pub const STATUS_CANCELLED: &'static str = "cancelled";

/// Polling interval, and how many polls before giving up.
pub const POLL_INTERVAL_MS: u64 = 1000;
pub const MAX_POLL_ATTEMPTS: u32 = 1800;
pub const DEFAULT_API_URL: &'static str = "https://audio.audetic.link/api/v1/jobs";

/// Response from submitting a new transcription job.
#[derive(Debug, Clone)]
pub struct SubmitJobResponse {
    pub success: bool,
    pub job_id: String,
    pub status: String,
    pub message: String,
}

/// Lightweight status response for polling.
#[derive(Debug, Clone)]
pub struct JobStatusResponse {
    pub success: bool,
    pub job_id: String,
    pub status: String,
    pub progress: u8,
    pub progress_message: Option<String>,
}

/// Whether a path names an audio file that is already compressed: an `mp3`
/// or `opus` extension, in any ASCII case.
pub open spec fn compressed_name(p: Seq<char>) -> bool {
    match extension_of(p) {
        Some(e) => eq_ignore_ascii_case_seq(e, "mp3"@) || eq_ignore_ascii_case_seq(e, "opus"@),
        None => false,
    }
}

/// Files already in a compressed audio format are sent as they are.
pub fn is_already_compressed(path: &str) -> (r: bool)
    ensures
        r == compressed_name(path@),
{
    match extension(path) {
        Some(e) => eq_ignore_ascii_case(e.as_str(), "mp3") || eq_ignore_ascii_case(e.as_str(), "opus"),
        None => false,
    }
}

/// The MIME type of a lower-case file extension, for supported formats.
pub open spec fn mime_of(ext: Seq<char>) -> Option<Seq<char>> {
    if ext == "wav"@ {
        Some("audio/wav"@)
    } else if ext == "mp3"@ {
        Some("audio/mpeg"@)
    } else if ext == "m4a"@ {
        Some("audio/mp4"@)
    } else if ext == "flac"@ {
        Some("audio/flac"@)
    } else if ext == "ogg"@ {
        Some("audio/ogg"@)
    } else if ext == "opus"@ {
        Some("audio/opus"@)
    } else if ext == "mp4"@ {
        Some("video/mp4"@)
    } else if ext == "mkv"@ {
        Some("video/x-matroska"@)
    } else if ext == "webm"@ {
        Some("video/webm"@)
    } else if ext == "avi"@ {
        Some("video/x-msvideo"@)
    } else if ext == "mov"@ {
        Some("video/quicktime"@)
    } else {
        None
    }
}

/// Maps a lower-case file extension to its MIME type.
pub fn mime_type_for_extension(ext: &str) -> (r: Option<&'static str>)
    ensures
        match (r, mime_of(ext@)) {
            (Some(a), Some(b)) => a@ == b,
            (None, None) => true,
            _ => false,
        },
{
    if str_eq(ext, "wav") {
        Some("audio/wav")
    } else if str_eq(ext, "mp3") {
        Some("audio/mpeg")
    } else if str_eq(ext, "m4a") {
        Some("audio/mp4")
    } else if str_eq(ext, "flac") {
        Some("audio/flac")
    } else if str_eq(ext, "ogg") {
        Some("audio/ogg")
    } else if str_eq(ext, "opus") {
        Some("audio/opus")
    } else if str_eq(ext, "mp4") {
        Some("video/mp4")
    } else if str_eq(ext, "mkv") {
        Some("video/x-matroska")
    } else if str_eq(ext, "webm") {
        Some("video/webm")
    } else if str_eq(ext, "avi") {
        Some("video/x-msvideo")
    } else if str_eq(ext, "mov") {
        Some("video/quicktime")
    } else {
        None
    }
}

/// Why a file cannot be sent for transcription.
#[derive(Debug, Clone, PartialEq, Eq)]
pub enum FileError {
    NotFound,
    /// The (lower-cased) extension of an unsupported file
    Unsupported { extension: String },
}

/// The lower-cased extension of a path, empty when it has none.
pub open spec fn lower_extension(p: Seq<char>) -> Seq<char> {
    match extension_of(p) {
        Some(e) => lower_of(e),
        None => lower_of(Seq::empty()),
    }
}

/// Checks that a file is there and has a supported format.
pub fn validate_file(path: &str) -> (r: Result<(), FileError>)
    ensures
        r is Ok ==> mime_of(lower_extension(path@)).is_some(),
        r matches Err(FileError::NotFound) || (r is Ok <==> mime_of(lower_extension(path@)).is_some()),
        r matches Err(FileError::Unsupported { extension }) ==> extension@ == lower_extension(path@)
            && mime_of(lower_extension(path@)).is_none(),
{
    if !path_exists(path) {
        return Err(FileError::NotFound);
    }
    let ext = match extension(path) {
        Some(e) => to_lower(e.as_str()),
        None => {
            proof { reveal_strlit(""); }
            assert(""@ =~= Seq::<char>::empty());
            to_lower("")
        },
    };
    assert(ext@ == lower_extension(path@));
    match mime_type_for_extension(ext.as_str()) {
        Some(_) => Ok(()),
        None => Err(FileError::Unsupported { extension: ext }),
    }
}

/// Whether a file is to be compressed before upload: unless it already is,
/// or the user asked not to.
pub fn needs_compression(path: &str, skip_compression: bool) -> (r: bool)
    ensures
        r == (!compressed_name(path@) && !skip_compression),
{
    !is_already_compressed(path) && !skip_compression
}

/// The jobs URL for a configured transcriptions endpoint: a trailing
/// `/transcriptions` (or `/transcriptions/`) becomes `/jobs`, any other
/// endpoint gets `/jobs` appended after its trailing slashes are dropped.
pub open spec fn jobs_url_of(e: Seq<char>) -> Seq<char> {
    if ends_with_seq(e, "/transcriptions"@) {
        replace_all_seq(e, "/transcriptions"@, "/jobs"@)
    } else if ends_with_seq(e, "/transcriptions/"@) {
        replace_all_seq(e, "/transcriptions/"@, "/jobs"@)
    } else {
        trim_end_char(e, '/') + "/jobs"@
    }
}

/// Derives the jobs URL from a transcriptions endpoint.
pub fn derive_jobs_url(endpoint: &str) -> (r: String)
    ensures
        r@ == jobs_url_of(endpoint@),
{
    let e = chars_of(endpoint);
    let a = chars_of("/transcriptions");
    let b = chars_of("/transcriptions/");
    proof {
        reveal_strlit("/transcriptions");
        reveal_strlit("/transcriptions/");
    }
    if ends_with_chars(e.as_slice(), a.as_slice()) {
        replace_all(endpoint, "/transcriptions", "/jobs")
    } else if ends_with_chars(e.as_slice(), b.as_slice()) {
        replace_all(endpoint, "/transcriptions/", "/jobs")
    } else {
        let mut s = trim_end_matches_char(endpoint, '/');
        s.append("/jobs");
        s
    }
}

/// A base URL without trailing slashes.
pub fn base_url(url: &str) -> (r: String)
    ensures
        r@ == trim_end_char(url@, '/'),
{
    trim_end_matches_char(url, '/')
}

/// What to do after a status poll.
#[derive(Debug, Clone, Copy, PartialEq, Eq, Structural)]
pub enum PollAction {
    /// The job finished (completed or failed): fetch it.
    FetchJob,
    /// The job was cancelled.
    Cancelled,
    /// Still running: wait and poll again.
    Wait,
}

pub fn poll_action(status: &str) -> (r: PollAction)
    ensures
        r == if status@ == STATUS_COMPLETED@ || status@ == STATUS_FAILED@ {
            PollAction::FetchJob
        } else if status@ == STATUS_CANCELLED@ {
            PollAction::Cancelled
        } else {
            PollAction::Wait
        },
{
    if str_eq(status, STATUS_COMPLETED) || str_eq(status, STATUS_FAILED) {
        PollAction::FetchJob
    } else if str_eq(status, STATUS_CANCELLED) {
        PollAction::Cancelled
    } else {
        PollAction::Wait
    }
}

/// The progress text shown for a status without a message of its own.
pub fn status_message(status: &str) -> (r: &'static str)
    ensures
        r@ == if status@ == STATUS_PENDING@ {
            "Waiting..."@
        } else if status@ == STATUS_EXTRACTING_AUDIO@ {
            "Extracting audio..."@
        } else if status@ == STATUS_TRANSCRIBING@ {
            "Transcribing..."@
        } else {
            ""@
        },
{
    if str_eq(status, STATUS_PENDING) {
        "Waiting..."
    } else if str_eq(status, STATUS_EXTRACTING_AUDIO) {
        "Extracting audio..."
    } else if str_eq(status, STATUS_TRANSCRIBING) {
        "Transcribing..."
    } else {
        ""
    }
}

} // verus!
