//! The entities that the store holds, and the summary derived from them.
//!
//! An id of -1 or 0 stands for "not yet persisted". Points in time are held
//! as plain numbers, so that they can be built and compared anywhere.

use vstd::prelude::*;

verus! {

/// A point in time: whole seconds since the Unix epoch, and the nanoseconds
/// within that second.
#[derive(Debug, Clone, Copy)]
pub struct Timestamp {
    pub seconds: i64,
    pub nanos: u32,
}

/// `chrono::Utc::now`, read as seconds (`DateTime::timestamp`) and
/// nanoseconds (`DateTime::timestamp_subsec_nanos`). Only the instant is
/// kept, which is the same in every time zone. The clock decides the
/// result, so nothing is claimed of it.
#[verifier::external_body]
pub(crate) fn current_time() -> Timestamp {
    let now = chrono::Utc::now();
    Timestamp { seconds: now.timestamp(), nanos: now.timestamp_subsec_nanos() }
}

/// A journal entry. `sentiment` and `ai_tags` are filled in once, when the
/// entry is stored.
#[derive(Debug, Clone)]
pub struct JournalEntry {
    pub id: i64,
    pub entry: String,
    pub date: Timestamp,
    pub tags: Option<String>,
    pub sentiment: Option<String>,
    pub ai_tags: Option<String>,
}

impl JournalEntry {
    /// A fresh entry that is not stored yet: it has id -1, the given text and
    /// tags, no sentiment and no topic tags.
    pub fn new(entry: String, tags: Option<String>) -> (r: JournalEntry)
        ensures
            r.id == -1,
            r.entry == entry,
            r.tags == tags,
            r.sentiment is None,
            r.ai_tags is None,
    {
        JournalEntry {
            id: -1,
            entry,
            date: current_time(),
            tags,
            sentiment: None,
            ai_tags: None,
        }
    }

    /// Marks the entry as not stored yet (id -1) and stamps it with the
    /// current time. Text, tags and analysis stay as they are.
    pub fn finalize(&mut self)
        ensures
            final(self).id == -1,
            final(self).entry == old(self).entry,
            final(self).tags == old(self).tags,
            final(self).sentiment == old(self).sentiment,
            final(self).ai_tags == old(self).ai_tags,
    {
        self.id = -1;
        self.date = current_time();
    }
}

/// A programming language. Rows are seeded with the schema and only read.
#[derive(Debug, Clone)]
pub struct Language {
    pub id: i64,
    pub name: String,
    pub created_at: Timestamp,
    pub updated_at: Timestamp,
}

/// A stored piece of code. `full_code` is held in its framed form.
#[derive(Debug, Clone)]
pub struct CodeSnippet {
    pub id: i64,
    pub full_code: String,
    pub created_at: Timestamp,
    pub updated_at: Timestamp,
    pub language_id: i64,
}

/// A reference to a markdown file outside the store.
#[derive(Debug, Clone)]
pub struct LearningNote {
    pub id: i64,
    pub file_path: String,
    pub file_name: String,
    pub created_at: Timestamp,
    pub updated_at: Timestamp,
}

/// Links a snippet to the note or the entry that uses it.
#[derive(Debug, Clone)]
pub struct SnippetUsed {
    pub id: i64,
    pub snippet_id: i64,
    pub description: String,
    pub learning_note_id: Option<i64>,
    pub journal_entry_id: Option<i64>,
}

impl SnippetUsed {
    /// A link names exactly one user of the snippet: a learning note or a
    /// journal entry, not both and not neither.
    pub open spec fn well_formed(&self) -> bool {
        (self.learning_note_id is Some) != (self.journal_entry_id is Some)
    }

    /// Whether the link names exactly one user of the snippet.
    pub fn is_well_formed(&self) -> (r: bool)
        ensures
            r == self.well_formed(),
    {
        self.learning_note_id.is_some() != self.journal_entry_id.is_some()
    }
}

/// Statistics over a set of journal entries. Derived on demand, never stored.
#[derive(Debug, Clone)]
pub struct JournalSummary {
    pub total_entries: usize,
    pub positive_count: usize,
    pub negative_count: usize,
    pub neutral_count: usize,
    pub common_topics: String,
}

} // verus!
