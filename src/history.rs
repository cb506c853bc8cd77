//! Transcription history: search parameters and entries.
use vstd::prelude::*;
use vstd::string::*;
use crate::db::{Workflow, WorkflowData};

verus! {

/// Parameters for searching transcription history.
#[derive(Debug, Clone, Default, PartialEq, Eq)]
pub struct SearchParams {
    /// Text query to filter transcriptions
    pub query: Option<String>,
    /// Filter by start date (YYYY-MM-DD format)
    pub from: Option<String>,
    /// Filter by end date (YYYY-MM-DD format)
    pub to: Option<String>,
    /// Maximum number of results
    pub limit: usize,
}

impl SearchParams {
    /// No filters, at most 20 results.
    pub fn new() -> (r: Self)
        ensures
            r.query.is_none() && r.from.is_none() && r.to.is_none(),
            r.limit == 20,
    {
        SearchParams { query: None, from: None, to: None, limit: 20 }
    }

    pub fn with_limit(self, limit: usize) -> (r: Self)
        ensures
            r == (SearchParams { limit, ..self }),
    {
        SearchParams { limit, ..self }
    }

    pub fn with_query(self, query: &str) -> (r: Self)
        ensures
            r.query.is_some() && r.query->0@ == query@,
            r.from == self.from && r.to == self.to && r.limit == self.limit,
    {
        SearchParams { query: Some(String::from_str(query)), ..self }
    }

    pub fn with_date_range(self, from: Option<String>, to: Option<String>) -> (r: Self)
        ensures
            r == (SearchParams { from, to, ..self }),
    {
        SearchParams { from, to, ..self }
    }

    /// Whether any filter is set (the limit alone is no filter).
    pub fn has_filters(&self) -> (r: bool)
        ensures
            r == (self.query.is_some() || self.from.is_some() || self.to.is_some()),
    {
        self.query.is_some() || self.from.is_some() || self.to.is_some()
    }
}

/// A single history entry.
#[derive(Debug, Clone, PartialEq, Eq)]
pub struct HistoryEntry {
    pub id: i64,
    pub text: String,
    pub audio_path: String,
    pub created_at: String,
}

impl HistoryEntry {
    /// The entry of a stored workflow; a missing id reads as 0 and a missing
    /// creation time as `Unknown`.
    pub fn from_workflow(workflow: Workflow) -> (r: Self)
        ensures
            r.id == workflow.id.unwrap_or(0),
            r.text == match workflow.data {
                WorkflowData::VoiceToText(d) => d.text,
            },
            r.audio_path == match workflow.data {
                WorkflowData::VoiceToText(d) => d.audio_path,
            },
            r.created_at@ == match workflow.created_at {
                Some(c) => c@,
                None => "Unknown"@,
            },
    {
        let (text, audio_path) = match workflow.data {
            WorkflowData::VoiceToText(d) => (d.text, d.audio_path),
        };
        let id = match workflow.id {
            Some(i) => i,
            None => 0,
        };
        let created_at = match workflow.created_at {
            Some(c) => c,
            None => String::from_str("Unknown"),
        };
        HistoryEntry { id, text, audio_path, created_at }
    }
}

/// `e` is the entry of workflow `w`: a missing id reads as 0 and a missing
/// creation time as `Unknown`.
pub open spec fn entry_matches(e: HistoryEntry, w: Workflow) -> bool {
    &&& e.id == w.id.unwrap_or(0)
    &&& e.text@ == match w.data {
        WorkflowData::VoiceToText(d) => d.text@,
    }
    &&& e.audio_path@ == match w.data {
        WorkflowData::VoiceToText(d) => d.audio_path@,
    }
    &&& e.created_at@ == match w.created_at {
        Some(c) => c@,
        None => "Unknown"@,
    }
}

/// The entry of a stored workflow, read through a reference.
pub fn entry_of(workflow: &Workflow) -> (r: HistoryEntry)
    ensures
        entry_matches(r, *workflow),
{
    let (text, audio_path) = match &workflow.data {
        WorkflowData::VoiceToText(d) => (d.text.clone(), d.audio_path.clone()),
    };
    let id = match workflow.id {
        Some(i) => i,
        None => 0,
    };
    let created_at = match &workflow.created_at {
        Some(c) => c.clone(),
        None => String::from_str("Unknown"),
    };
    HistoryEntry { id, text, audio_path, created_at }
}

/// The entries of stored workflows, in order.
pub fn entries_from(workflows: &[Workflow]) -> (r: Vec<HistoryEntry>)
    ensures
        r@.len() == workflows@.len(),
        forall|i: int| 0 <= i < r@.len() ==> entry_matches(#[trigger] r@[i], workflows@[i]),
{
    let mut out: Vec<HistoryEntry> = Vec::new();
    let mut i: usize = 0;
    while i < workflows.len()
        invariant
            i <= workflows@.len(),
            out@.len() == i,
            forall|k: int| 0 <= k < i ==> entry_matches(#[trigger] out@[k], workflows@[k]),
        decreases workflows@.len() - i,
    {
        out.push(entry_of(&workflows[i]));
        i = i + 1;
    }
    out
}

/// The entry with the given id among stored workflows, if any (the first).
pub fn find_entry(workflows: &[Workflow], id: i64) -> (r: Option<HistoryEntry>)
    ensures
        r.is_some() <==> exists|i: int| 0 <= i < workflows@.len() && #[trigger] workflows@[i].id == Some(id),
        r.is_some() ==> exists|i: int| 0 <= i < workflows@.len() && #[trigger] workflows@[i].id == Some(id)
            && entry_matches(r->0, workflows@[i])
            && forall|k: int| 0 <= k < i ==> workflows@[k].id != Some(id),
{
    let mut i: usize = 0;
    while i < workflows.len()
        invariant
            i <= workflows@.len(),
            forall|k: int| 0 <= k < i ==> #[trigger] workflows@[k].id != Some(id),
        decreases workflows@.len() - i,
    {
        let hit = match workflows[i].id {
            Some(x) => x == id,
            None => false,
        };
        if hit {
            return Some(entry_of(&workflows[i]));
        }
        i = i + 1;
    }
    None
}

/// Where a history search reads from.
#[derive(Debug, Clone, PartialEq, Eq)]
pub enum HistoryQuery {
    /// The most recent transcriptions.
    Recent { limit: usize },
    /// Transcriptions matching the filters.
    Filtered { query: Option<String>, from: Option<String>, to: Option<String>, limit: usize },
}

/// A search without filters reads the recent list; otherwise it filters.
pub fn search_query(params: &SearchParams) -> (r: HistoryQuery)
    ensures
        !(params.query.is_some() || params.from.is_some() || params.to.is_some()) ==> r == (HistoryQuery::Recent { limit: params.limit }),
        (params.query.is_some() || params.from.is_some() || params.to.is_some()) ==> r == (HistoryQuery::Filtered {
            query: params.query,
            from: params.from,
            to: params.to,
            limit: params.limit,
        }),
{
    if params.has_filters() {
        HistoryQuery::Filtered {
            query: params.query.clone(),
            from: params.from.clone(),
            to: params.to.clone(),
            limit: params.limit,
        }
    } else {
        HistoryQuery::Recent { limit: params.limit }
    }
}

/// No stored transcription has the requested id.
#[derive(Debug, Clone, Copy, PartialEq, Eq, Structural)]
pub struct EntryNotFound {
    pub id: i64,
}

/// The text of the transcription with the given id (the first such).
pub fn text_by_id(workflows: &[Workflow], id: i64) -> (r: Result<String, EntryNotFound>)
    ensures
        r is Ok <==> exists|i: int| 0 <= i < workflows@.len() && #[trigger] workflows@[i].id == Some(id),
        r is Err ==> r->Err_0 == (EntryNotFound { id }),
        r is Ok ==> exists|i: int| 0 <= i < workflows@.len() && #[trigger] workflows@[i].id == Some(id)
            && (forall|k: int| 0 <= k < i ==> workflows@[k].id != Some(id))
            && r->Ok_0@ == match workflows@[i].data {
                WorkflowData::VoiceToText(d) => d.text@,
            },
{
    match find_entry(workflows, id) {
        Some(e) => Ok(e.text),
        None => Err(EntryNotFound { id }),
    }
}

} // verus!
