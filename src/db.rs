//! Stored records: transcription workflows and meetings.
use vstd::prelude::*;
use vstd::string::*;
use crate::text::str_eq;

verus! {

#[derive(Debug, Clone, PartialEq, Eq)]
pub struct VoiceToTextData {
    pub text: String,
    pub audio_path: String,
}

#[derive(Debug, Clone, PartialEq, Eq)]
pub enum WorkflowData {
    VoiceToText(VoiceToTextData),
}

#[derive(Debug, Clone, Copy, PartialEq, Eq, Structural)]
pub enum WorkflowType {
    VoiceToText,
}

/// A stored workflow type name that is not known.
#[derive(Debug, Clone, PartialEq, Eq)]
pub struct InvalidWorkflowType {
    pub name: String,
}

impl WorkflowType {
    /// The type a stored name stands for.
    pub fn parse(s: &str) -> (r: Result<WorkflowType, InvalidWorkflowType>)
        ensures
            s@ == "VoiceToText"@ <==> r is Ok,
            r is Ok ==> r->Ok_0 == WorkflowType::VoiceToText,
            r is Err ==> r->Err_0.name@ == s@,
    {
        if str_eq(s, "VoiceToText") {
            Ok(WorkflowType::VoiceToText)
        } else {
            Err(InvalidWorkflowType { name: String::from_str(s) })
        }
    }

    /// Same as `parse`.
    pub fn from_str(s: &str) -> (r: Result<WorkflowType, InvalidWorkflowType>)
        ensures
            s@ == "VoiceToText"@ <==> r is Ok,
            r is Ok ==> r->Ok_0 == WorkflowType::VoiceToText,
            r is Err ==> r->Err_0.name@ == s@,
    {
        WorkflowType::parse(s)
    }

    pub fn to_str(&self) -> (r: &'static str)
        ensures
            r@ == "VoiceToText"@,
    {
        match self {
            WorkflowType::VoiceToText => "VoiceToText",
        }
    }
}

#[derive(Debug, Clone, PartialEq, Eq)]
pub struct Workflow {
    pub id: Option<i64>,
    pub workflow_type: WorkflowType,
    pub data: WorkflowData,
    pub created_at: Option<String>,
}

impl Workflow {
    /// A workflow not stored yet: no id, no creation time.
    pub fn new(workflow_type: WorkflowType, data: WorkflowData) -> (r: Self)
        ensures
            r.id.is_none(),
            r.workflow_type == workflow_type,
            r.data == data,
            r.created_at.is_none(),
    {
        Workflow { id: None, workflow_type, data, created_at: None }
    }
}

/// A meeting record as stored.
#[derive(Debug, Clone)]
pub struct MeetingRecord {
    pub id: i64,
    pub title: Option<String>,
    pub status: String,
    pub audio_path: String,
    pub transcript_path: Option<String>,
    pub transcript_text: Option<String>,
    pub duration_seconds: Option<i64>,
    pub started_at: String,
    pub completed_at: Option<String>,
    pub error: Option<String>,
    pub created_at: String,
}

/// Transcriptions kept in the history; older ones are pruned.
pub const MAX_STORED_WORKFLOWS: i64 = 10000;

/// How many of `count` stored workflows to prune to keep at most
/// `max_count`.
pub fn prune_count(count: i64, max_count: i64) -> (r: i64)
    requires
        max_count >= 0,
    ensures
        r == if count <= max_count { 0 } else { count - max_count },
{
    if count <= max_count {
        0
    } else {
        count - max_count
    }
}

} // verus!
