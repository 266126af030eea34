//! The entity operations: languages, code snippets, journal entries and
//! learning notes.
//!
//! Each operation works in three steps. It plans the statement, which fixes
//! the text and the values that go to the database; it runs the statement
//! over the connection; and it reads the outcome. The first and the last
//! step are functions of their arguments and are stated exactly. What the
//! database answers in between is not for this library to promise, so an
//! operation states what holds whatever the answer was.

pub use crate::ai::call_journal_ai;
pub use crate::error::DaoError;
pub use crate::preprocess::preprocess_code;
pub use crate::summary::summarize_journal_entries;

use crate::ai::analysis_of;
use crate::db::presence;
use crate::models::{CodeSnippet, JournalEntry, LearningNote};
use crate::preprocess::{frame_text, framed, is_supported_language};
use crate::store::{
    fetch_row, fetch_rows, first_integer, first_text, integer_in, is_no_rows, last_row_id,
    optional_row, optional_text_in, read_off_a_row, row_integer, row_optional_text, row_text,
    row_time, run_statement, text_in, time_in, SqlValue, SqlValueView, Statement, StatementView,
    StoreResult,
};
use crate::text::{from_chars, lowercase, lowercase_of, same_text, to_chars};
use vstd::prelude::*;

verus! {

/// Asks for the name of the language with a given id.
pub const LANGUAGE_NAME_QUERY: &'static str = "SELECT name FROM languages WHERE id = ?";

/// Asks for the id of the language with a given name.
pub const LANGUAGE_ID_QUERY: &'static str = "SELECT id FROM languages WHERE name = ?";

/// Counts the languages with a given name.
pub const LANGUAGE_COUNT_QUERY: &'static str = "SELECT COUNT(*) FROM languages WHERE name = ?";

/// Stores a snippet: its framed code and the id of its language.
pub const SNIPPET_INSERT: &'static str =
    "INSERT INTO code_snippets (full_code, language_id) VALUES (?, ?)";

/// Asks for the snippet with a given id.
pub const SNIPPET_QUERY: &'static str =
    "SELECT id, full_code, created_at, updated_at, language_id FROM code_snippets WHERE id = ?1";

/// Replaces the code and the language of the snippet with a given id.
pub const SNIPPET_UPDATE: &'static str =
    "UPDATE code_snippets SET full_code = ?, language_id = ? WHERE id = ?";

/// Deletes the snippet with a given id.
pub const SNIPPET_DELETE: &'static str = "DELETE FROM code_snippets WHERE id = ?";

/// Stores a journal entry: its text, tags, sentiment and topic tags. The
/// date is left to the database, which stamps the row with the current time.
pub const ENTRY_INSERT: &'static str =
    "INSERT INTO journal_entries (entry, tags, sentiment, ai_tags) VALUES (?, ?, ?, ?)";

/// Asks for the journal entry with a given id.
pub const ENTRY_QUERY: &'static str =
    "SELECT id, entry, date, tags, sentiment, ai_tags FROM journal_entries WHERE id = ?1";

/// Asks for the journal entries dated within the seven days before the
/// moment of the call, newest first.
pub const ENTRIES_OF_WEEK: &'static str =
    "SELECT id, entry, date, tags, sentiment, ai_tags FROM journal_entries WHERE date >= datetime('now', '-7 days') ORDER BY date DESC";

/// Asks for the journal entries dated within the month before the moment of
/// the call, newest first.
pub const ENTRIES_OF_MONTH: &'static str =
    "SELECT id, entry, date, tags, sentiment, ai_tags FROM journal_entries WHERE date >= datetime('now', '-1 month') ORDER BY date DESC";

/// Asks for the journal entries dated within the year before the moment of
/// the call, newest first.
pub const ENTRIES_OF_YEAR: &'static str =
    "SELECT id, entry, date, tags, sentiment, ai_tags FROM journal_entries WHERE date >= datetime('now', '-1 year') ORDER BY date DESC";

/// Asks for the journal entries whose text, tags or topic tags match a
/// pattern, newest first. In the pattern a backslash takes the special
/// meaning from the character that follows it. SQLite compares without
/// regard to the case of the letters `a` to `z`; other letters must agree
/// exactly.
pub const ENTRY_SEARCH: &'static str =
    "SELECT id, entry, date, tags, sentiment, ai_tags FROM journal_entries WHERE LOWER(entry) LIKE ?1 ESCAPE '\\' OR LOWER(tags) LIKE ?1 ESCAPE '\\' OR LOWER(ai_tags) LIKE ?1 ESCAPE '\\' ORDER BY date DESC";

/// Stores a learning note: the path and the name of its file.
pub const NOTE_INSERT: &'static str =
    "INSERT INTO learning_notes (file_path, file_name) VALUES (?, ?)";

/// Asks for the learning note with a given id.
pub const NOTE_QUERY: &'static str =
    "SELECT id, file_path, file_name, created_at, updated_at FROM learning_notes WHERE id = ?1";

/// The failure of a lookup that expects one row. `no_rows` says whether the
/// driver failed because the query gave no row: that is `NotFound`, and
/// every other failure of the driver is handed on as it is.
pub fn lookup_failure(error: rusqlite::Error, no_rows: bool) -> (r: DaoError)
    ensures
        no_rows ==> r is NotFound,
        !no_rows ==> r == DaoError::DatabaseError(error),
{
    if no_rows {
        DaoError::NotFound
    } else {
        DaoError::DatabaseError(error)
    }
}

/// The outcome of a lookup that expects one row: the value that was found,
/// `NotFound` where `no_rows` says that the query gave no row, and the
/// driver's failure otherwise.
pub fn lookup_outcome<T>(found: StoreResult<T>, no_rows: bool) -> (r: Result<T, DaoError>)
    ensures
        found matches Ok(value) ==> r == Ok::<T, DaoError>(value),
        found is Err && no_rows ==> r == Err::<T, DaoError>(DaoError::NotFound),
        !no_rows ==> (found matches Err(e) ==> r == Err::<T, DaoError>(DaoError::DatabaseError(e))),
{
    match found {
        Ok(value) => Ok(value),
        Err(e) => Err(lookup_failure(e, no_rows)),
    }
}

/// The outcome of a call that reads: what was read, or the driver's failure
/// as a `DatabaseError`.
pub fn read_outcome<T>(found: StoreResult<T>) -> (r: Result<T, DaoError>)
    ensures
        found matches Ok(value) ==> r == Ok::<T, DaoError>(value),
        found matches Err(e) ==> r == Err::<T, DaoError>(DaoError::DatabaseError(e)),
{
    match found {
        Ok(value) => Ok(value),
        Err(e) => Err(DaoError::from(e)),
    }
}

/// The outcome of a call that changed rows: success for every number of
/// rows, none included, and the driver's failure otherwise. So deleting what
/// is not there succeeds.
pub fn change_outcome(changed: Result<usize, rusqlite::Error>) -> (r: Result<(), DaoError>)
    ensures
        changed is Ok ==> r is Ok,
        changed matches Err(e) ==> r == Err::<(), DaoError>(DaoError::DatabaseError(e)),
{
    match changed {
        Ok(_) => Ok(()),
        Err(e) => Err(DaoError::from(e)),
    }
}

/// The statement with the text `sql` and the one value `key`: how a row is
/// asked for, or deleted, by its id or its name.
pub fn keyed_statement(sql: &str, key: SqlValue) -> (st: Statement)
    ensures
        st@ == (StatementView { sql: sql@, params: seq![key@] }),
{
    let mut st = statement(sql);
    bind(&mut st, key);
    assert(st@.params =~= seq![key@]);
    st
}

/// A statement with the text `sql` and no values yet.
fn statement(sql: &str) -> (st: Statement)
    ensures
        st@ == (StatementView { sql: sql@, params: Seq::<SqlValueView>::empty() }),
{
    let st = Statement { sql: sql.to_owned(), params: Vec::new() };
    assert(st@.params =~= Seq::<SqlValueView>::empty());
    st
}

/// Adds `value` as the next value of `st`.
fn bind(st: &mut Statement, value: SqlValue)
    ensures
        final(st)@ == (StatementView { sql: old(st)@.sql, params: old(st)@.params.push(value@) }),
{
    st.params.push(value);
    assert(st@.params =~= old(st)@.params.push(value@));
}

/// `row` holds the snippet `snippet`: its id, code, two times and language
/// in columns 0 to 4.
pub open spec fn row_holds_snippet(row: rusqlite::Row<'_>, snippet: CodeSnippet) -> bool {
    &&& integer_in(row, 0) == Some(snippet.id)
    &&& text_in(row, 1) == Some(snippet.full_code@)
    &&& time_in(row, 2) == Some(snippet.created_at)
    &&& time_in(row, 3) == Some(snippet.updated_at)
    &&& integer_in(row, 4) == Some(snippet.language_id)
}

/// `row` can be read as a snippet: each of its columns 0 to 4 holds what a
/// snippet has there.
pub open spec fn is_snippet_row(row: rusqlite::Row<'_>) -> bool {
    &&& integer_in(row, 0) is Some
    &&& text_in(row, 1) is Some
    &&& time_in(row, 2) is Some
    &&& time_in(row, 3) is Some
    &&& integer_in(row, 4) is Some
}

/// `row` holds the journal entry `entry`: its id, text, date, tags,
/// sentiment and topic tags in columns 0 to 5.
pub open spec fn row_holds_entry(row: rusqlite::Row<'_>, entry: JournalEntry) -> bool {
    &&& integer_in(row, 0) == Some(entry.id)
    &&& text_in(row, 1) == Some(entry.entry@)
    &&& time_in(row, 2) == Some(entry.date)
    &&& optional_text_in(row, 3) == Some(text_view(entry.tags))
    &&& optional_text_in(row, 4) == Some(text_view(entry.sentiment))
    &&& optional_text_in(row, 5) == Some(text_view(entry.ai_tags))
}

/// `row` can be read as a journal entry: each of its columns 0 to 5 holds
/// what an entry has there.
pub open spec fn is_entry_row(row: rusqlite::Row<'_>) -> bool {
    &&& integer_in(row, 0) is Some
    &&& text_in(row, 1) is Some
    &&& time_in(row, 2) is Some
    &&& optional_text_in(row, 3) is Some
    &&& optional_text_in(row, 4) is Some
    &&& optional_text_in(row, 5) is Some
}

/// `row` holds the learning note `note`: its id, path, name and two times
/// in columns 0 to 4.
pub open spec fn row_holds_note(row: rusqlite::Row<'_>, note: LearningNote) -> bool {
    &&& integer_in(row, 0) == Some(note.id)
    &&& text_in(row, 1) == Some(note.file_path@)
    &&& text_in(row, 2) == Some(note.file_name@)
    &&& time_in(row, 3) == Some(note.created_at)
    &&& time_in(row, 4) == Some(note.updated_at)
}

/// `row` can be read as a learning note: each of its columns 0 to 4 holds
/// what a note has there.
pub open spec fn is_note_row(row: rusqlite::Row<'_>) -> bool {
    &&& integer_in(row, 0) is Some
    &&& text_in(row, 1) is Some
    &&& text_in(row, 2) is Some
    &&& time_in(row, 3) is Some
    &&& time_in(row, 4) is Some
}

/// An optional text as an optional character sequence.
pub open spec fn text_view(text: Option<String>) -> Option<Seq<char>> {
    match text {
        Some(t) => Some(t@),
        None => None,
    }
}

/// The snippet that `row` holds: id, code, the two times and the language,
/// read in this order from columns 0 to 4. It is read where every one of
/// these columns holds what a snippet has there, and only there.
fn snippet_of_row(row: &rusqlite::Row<'_>) -> (r: StoreResult<CodeSnippet>)
    ensures
        r matches Ok(snippet) ==> row_holds_snippet(*row, snippet),
        r is Err ==> !is_snippet_row(*row),
{
    let id = row_integer(row, 0)?;
    let full_code = row_text(row, 1)?;
    let created_at = row_time(row, 2)?;
    let updated_at = row_time(row, 3)?;
    let language_id = row_integer(row, 4)?;
    Ok(CodeSnippet { id, full_code, created_at, updated_at, language_id })
}

/// The journal entry that `row` holds: id, text, date, tags, sentiment and
/// topic tags, read in this order from columns 0 to 5. It is read where
/// every one of these columns holds what an entry has there, and only there.
fn entry_of_row(row: &rusqlite::Row<'_>) -> (r: StoreResult<JournalEntry>)
    ensures
        r matches Ok(entry) ==> row_holds_entry(*row, entry),
        r is Err ==> !is_entry_row(*row),
{
    let id = row_integer(row, 0)?;
    let entry = row_text(row, 1)?;
    let date = row_time(row, 2)?;
    let tags = row_optional_text(row, 3)?;
    let sentiment = row_optional_text(row, 4)?;
    let ai_tags = row_optional_text(row, 5)?;
    Ok(JournalEntry { id, entry, date, tags, sentiment, ai_tags })
}

/// The learning note that `row` holds: id, path, name and the two times,
/// read in this order from columns 0 to 4. It is read where every one of
/// these columns holds what a note has there, and only there.
fn note_of_row(row: &rusqlite::Row<'_>) -> (r: StoreResult<LearningNote>)
    ensures
        r matches Ok(note) ==> row_holds_note(*row, note),
        r is Err ==> !is_note_row(*row),
{
    let id = row_integer(row, 0)?;
    let file_path = row_text(row, 1)?;
    let file_name = row_text(row, 2)?;
    let created_at = row_time(row, 3)?;
    let updated_at = row_time(row, 4)?;
    Ok(LearningNote { id, file_path, file_name, created_at, updated_at })
}

/// Some row holds the snippet `snippet`.
pub open spec fn some_row_holds_snippet(snippet: CodeSnippet) -> bool {
    exists|row: &rusqlite::Row<'_>| row_holds_snippet(*row, snippet)
}

/// Some row holds the journal entry `entry`.
pub open spec fn some_row_holds_entry(entry: JournalEntry) -> bool {
    exists|row: &rusqlite::Row<'_>| row_holds_entry(*row, entry)
}

/// Some row holds the learning note `note`.
pub open spec fn some_row_holds_note(note: LearningNote) -> bool {
    exists|row: &rusqlite::Row<'_>| row_holds_note(*row, note)
}

/// What `read_off_a_row` means for a snippet: a row holds it.
proof fn lemma_snippet_off_a_row(snippet: CodeSnippet)
    requires
        read_off_a_row(snippet_of_row, snippet),
    ensures
        some_row_holds_snippet(snippet),
{
    let row = choose|row: &rusqlite::Row<'_>|
        call_ensures(snippet_of_row, (row,), Ok::<CodeSnippet, rusqlite::Error>(snippet));
    assert(row_holds_snippet(*row, snippet));
}

/// What `read_off_a_row` means for a journal entry: a row holds it.
proof fn lemma_entry_off_a_row(entry: JournalEntry)
    requires
        read_off_a_row(entry_of_row, entry),
    ensures
        some_row_holds_entry(entry),
{
    let row = choose|row: &rusqlite::Row<'_>|
        call_ensures(entry_of_row, (row,), Ok::<JournalEntry, rusqlite::Error>(entry));
    assert(row_holds_entry(*row, entry));
}

/// What `read_off_a_row` means for a learning note: a row holds it.
proof fn lemma_note_off_a_row(note: LearningNote)
    requires
        read_off_a_row(note_of_row, note),
    ensures
        some_row_holds_note(note),
{
    let row = choose|row: &rusqlite::Row<'_>|
        call_ensures(note_of_row, (row,), Ok::<LearningNote, rusqlite::Error>(note));
    assert(row_holds_note(*row, note));
}

/// The statement that asks for the name of the language with the id
/// `language_id`.
pub fn language_name_query(language_id: i64) -> (st: Statement)
    ensures
        st@ == (StatementView {
            sql: LANGUAGE_NAME_QUERY@,
            params: seq![SqlValueView::Integer(language_id)],
        }),
{
    keyed_statement(LANGUAGE_NAME_QUERY, SqlValue::Integer(language_id))
}

/// The statement that asks for the id of the language called `lang_name`.
pub fn language_id_query(lang_name: &str) -> (st: Statement)
    ensures
        st@ == (StatementView {
            sql: LANGUAGE_ID_QUERY@,
            params: seq![SqlValueView::Text(lang_name@)],
        }),
{
    keyed_statement(LANGUAGE_ID_QUERY, SqlValue::Text(lang_name.to_owned()))
}

/// The statement that counts the languages called `language_name`.
pub fn language_count_query(language_name: &str) -> (st: Statement)
    ensures
        st@ == (StatementView {
            sql: LANGUAGE_COUNT_QUERY@,
            params: seq![SqlValueView::Text(language_name@)],
        }),
{
    keyed_statement(LANGUAGE_COUNT_QUERY, SqlValue::Text(language_name.to_owned()))
}

/// The statement that asks for the snippet with the id `snippet_id`.
pub fn snippet_query(snippet_id: i64) -> (st: Statement)
    ensures
        st@ == (StatementView {
            sql: SNIPPET_QUERY@,
            params: seq![SqlValueView::Integer(snippet_id)],
        }),
{
    keyed_statement(SNIPPET_QUERY, SqlValue::Integer(snippet_id))
}

/// The statement that deletes the snippet with the id `snippet_id`.
pub fn snippet_delete(snippet_id: i64) -> (st: Statement)
    ensures
        st@ == (StatementView {
            sql: SNIPPET_DELETE@,
            params: seq![SqlValueView::Integer(snippet_id)],
        }),
{
    keyed_statement(SNIPPET_DELETE, SqlValue::Integer(snippet_id))
}

/// The statement that asks for the journal entry with the id
/// `journal_entry_id`.
pub fn entry_query(journal_entry_id: i64) -> (st: Statement)
    ensures
        st@ == (StatementView {
            sql: ENTRY_QUERY@,
            params: seq![SqlValueView::Integer(journal_entry_id)],
        }),
{
    keyed_statement(ENTRY_QUERY, SqlValue::Integer(journal_entry_id))
}

/// The statement that asks for the learning note with the id `note_id`.
pub fn note_query(note_id: i64) -> (st: Statement)
    ensures
        st@ == (StatementView { sql: NOTE_QUERY@, params: seq![SqlValueView::Integer(note_id)] }),
{
    keyed_statement(NOTE_QUERY, SqlValue::Integer(note_id))
}

/// The name of the language with the id `language_id`: the text in the
/// first column of the row that the database gives. `NotFound` where it
/// gives none.
pub fn get_language_from_id(conn: &rusqlite::Connection, language_id: i64) -> (r: Result<
    String,
    DaoError,
>)
    ensures
        r matches Ok(name) ==> exists|row: &rusqlite::Row<'_>| text_in(*row, 0) == Some(name@),
        r matches Err(e) ==> e is NotFound || e is DatabaseError,
{
    let st = language_name_query(language_id);
    let found = fetch_row(conn, st.sql.as_str(), &st.params, first_text);
    proof {
        if found is Ok {
            let name = found->Ok_0;
            let row = choose|row: &rusqlite::Row<'_>|
                call_ensures(first_text, (row,), Ok::<String, rusqlite::Error>(name));
            assert(text_in(*row, 0) == Some(name@));
        }
    }
    let no_rows = match &found {
        Err(e) => is_no_rows(e),
        Ok(_) => false,
    };
    lookup_outcome(found, no_rows)
}

/// The id of the language called `lang_name`: the integer in the first
/// column of the row that the database gives. `NotFound` where it gives
/// none.
pub fn get_language_id_from_name(conn: &rusqlite::Connection, lang_name: &str) -> (r: Result<
    i64,
    DaoError,
>)
    ensures
        r matches Ok(id) ==> exists|row: &rusqlite::Row<'_>| integer_in(*row, 0) == Some(id),
        r matches Err(e) ==> e is NotFound || e is DatabaseError,
{
    let st = language_id_query(lang_name);
    let found = fetch_row(conn, st.sql.as_str(), &st.params, first_integer);
    proof {
        if found is Ok {
            let id = found->Ok_0;
            let row = choose|row: &rusqlite::Row<'_>|
                call_ensures(first_integer, (row,), Ok::<i64, rusqlite::Error>(id));
            assert(integer_in(*row, 0) == Some(id));
        }
    }
    let no_rows = match &found {
        Err(e) => is_no_rows(e),
        Ok(_) => false,
    };
    lookup_outcome(found, no_rows)
}

/// Whether a language called `language_name` is in the store: whether the
/// count that the database gives, in the first column of a row, is above
/// zero.
pub fn language_exists(conn: &rusqlite::Connection, language_name: &str) -> (r: Result<
    bool,
    DaoError,
>)
    ensures
        r matches Ok(found) ==> exists|row: &rusqlite::Row<'_>|
            integer_in(*row, 0) is Some && found == (integer_in(*row, 0)->0 > 0),
        r matches Err(e) ==> e is DatabaseError,
{
    let st = language_count_query(language_name);
    let counted = fetch_row(conn, st.sql.as_str(), &st.params, first_integer);
    proof {
        if counted is Ok {
            let n = counted->Ok_0;
            let row = choose|row: &rusqlite::Row<'_>|
                call_ensures(first_integer, (row,), Ok::<i64, rusqlite::Error>(n));
            assert(integer_in(*row, 0) is Some && (n > 0) == (integer_in(*row, 0)->0 > 0));
        }
    }
    read_outcome(presence(counted))
}

/// The statement that stores `code`, framed, for the language with the id
/// `language_id`; or the refusal of a tag whose text is not framed.
pub fn snippet_insert(code: &str, lang_name: &str, language_id: i64) -> (r: Result<
    Statement,
    DaoError,
>)
    ensures
        is_supported_language(lang_name@) ==> (r matches Ok(st) && st@ == (StatementView {
            sql: SNIPPET_INSERT@,
            params: seq![SqlValueView::Text(framed(code@)), SqlValueView::Integer(language_id)],
        })),
        !is_supported_language(lang_name@) ==> (r matches Err(DaoError::PreprocessingError(m))
            && m@ == "Unsupported language."@),
{
    match preprocess_code(code, lang_name) {
        Err(m) => Err(DaoError::PreprocessingError(m)),
        Ok(processed) => {
            let mut st = statement(SNIPPET_INSERT);
            bind(&mut st, SqlValue::Text(processed));
            bind(&mut st, SqlValue::Integer(language_id));
            assert(st@.params =~= seq![
                SqlValueView::Text(framed(code@)),
                SqlValueView::Integer(language_id),
            ]);
            Ok(st)
        },
    }
}

/// Stores the code of `snippet` for the language called `lang_name` and
/// gives the id of the new row.
///
/// The language is looked up first; then the code is framed, which only
/// the tags `rust`, `ts` and `js` allow. So success is had only with such a
/// tag, and a `PreprocessingError` only without one.
pub fn create_code_snippet(conn: &rusqlite::Connection, snippet: &CodeSnippet, lang_name: &str) -> (r:
    Result<i64, DaoError>)
    ensures
        r is Ok ==> is_supported_language(lang_name@),
        r matches Err(e) ==> e is NotFound || e is DatabaseError || (e
            matches DaoError::PreprocessingError(m) && !is_supported_language(lang_name@) && m@
            == "Unsupported language."@),
{
    let language_id = match get_language_id_from_name(conn, lang_name) {
        Ok(id) => id,
        Err(e) => {
            return Err(e);
        },
    };
    let st = match snippet_insert(snippet.full_code.as_str(), lang_name, language_id) {
        Ok(st) => st,
        Err(e) => {
            return Err(e);
        },
    };
    match read_outcome(run_statement(conn, st.sql.as_str(), &st.params)) {
        Ok(_) => Ok(last_row_id(conn)),
        Err(e) => Err(e),
    }
}

/// The snippet with the id `snippet_id`, or `None` where there is none.
/// A snippet that is returned is what a row of the result holds: id, code,
/// the two times and the language in columns 0 to 4.
pub fn read_code_snippet(conn: &rusqlite::Connection, snippet_id: i64) -> (r: Result<
    Option<CodeSnippet>,
    DaoError,
>)
    ensures
        r matches Ok(Some(snippet)) ==> some_row_holds_snippet(snippet),
        r matches Err(e) ==> e is DatabaseError,
{
    let st = snippet_query(snippet_id);
    let found = fetch_row(conn, st.sql.as_str(), &st.params, snippet_of_row);
    proof {
        if found is Ok {
            lemma_snippet_off_a_row(found->Ok_0);
        }
    }
    read_outcome(optional_row(found))
}

/// The statement that replaces the code and the language of the row of
/// `snippet`; or the refusal of a tag whose text is not framed.
pub fn snippet_update(snippet: &CodeSnippet, lang_name: &str) -> (r: Result<Statement, DaoError>)
    ensures
        is_supported_language(lang_name@) ==> (r matches Ok(st) && st@ == (StatementView {
            sql: SNIPPET_UPDATE@,
            params: seq![
                SqlValueView::Text(framed(snippet.full_code@)),
                SqlValueView::Integer(snippet.language_id),
                SqlValueView::Integer(snippet.id),
            ],
        })),
        !is_supported_language(lang_name@) ==> (r matches Err(DaoError::PreprocessingError(m))
            && m@ == "Unsupported language."@),
{
    match preprocess_code(snippet.full_code.as_str(), lang_name) {
        Err(m) => Err(DaoError::PreprocessingError(m)),
        Ok(processed) => {
            let mut st = statement(SNIPPET_UPDATE);
            bind(&mut st, SqlValue::Text(processed));
            bind(&mut st, SqlValue::Integer(snippet.language_id));
            bind(&mut st, SqlValue::Integer(snippet.id));
            assert(st@.params =~= seq![
                SqlValueView::Text(framed(snippet.full_code@)),
                SqlValueView::Integer(snippet.language_id),
                SqlValueView::Integer(snippet.id),
            ]);
            Ok(st)
        },
    }
}

/// Replaces the code and the language of the stored row of `snippet`.
///
/// As in creating, the language called `lang_name` is looked up first and
/// must be there; then the code is framed anew, which only the tags `rust`,
/// `ts` and `js` allow. The row keeps the language that `snippet` names.
/// So success is had only with such a tag, and a `PreprocessingError` only
/// without one.
pub fn update_code_snippet(conn: &rusqlite::Connection, snippet: &CodeSnippet, lang_name: &str) -> (r:
    Result<(), DaoError>)
    ensures
        r is Ok ==> is_supported_language(lang_name@),
        r matches Err(e) ==> e is NotFound || e is DatabaseError || (e
            matches DaoError::PreprocessingError(m) && !is_supported_language(lang_name@) && m@
            == "Unsupported language."@),
{
    match get_language_id_from_name(conn, lang_name) {
        Ok(_) => {},
        Err(e) => {
            return Err(e);
        },
    }
    let st = match snippet_update(snippet, lang_name) {
        Ok(st) => st,
        Err(e) => {
            return Err(e);
        },
    };
    change_outcome(run_statement(conn, st.sql.as_str(), &st.params))
}

/// Deletes the snippet with the id `snippet_id`. That no such snippet was
/// there is no failure.
pub fn delete_code_snippet(conn: &rusqlite::Connection, snippet_id: i64) -> (r: Result<(), DaoError>)
    ensures
        r matches Err(e) ==> e is DatabaseError,
{
    let st = snippet_delete(snippet_id);
    change_outcome(run_statement(conn, st.sql.as_str(), &st.params))
}

/// The tags of an entry as they are stored: as given, or empty.
pub open spec fn stored_tags(entry: JournalEntry) -> Seq<char> {
    match entry.tags {
        Some(t) => t@,
        None => Seq::<char>::empty(),
    }
}

/// The statement that stores `journal_entry`: its text framed, its tags as
/// they are, and the sentiment and topic tags that the analyzer finds in the
/// text.
pub fn entry_insert(journal_entry: &JournalEntry) -> (st: Statement)
    ensures
        st@ == (StatementView {
            sql: ENTRY_INSERT@,
            params: seq![
                SqlValueView::Text(framed(journal_entry.entry@)),
                SqlValueView::Text(stored_tags(*journal_entry)),
                SqlValueView::Text(analysis_of(lowercase_of(journal_entry.entry@)).0),
                SqlValueView::Text(analysis_of(lowercase_of(journal_entry.entry@)).1),
            ],
        }),
{
    let tags = match &journal_entry.tags {
        None => String::new(),
        Some(tag) => tag.clone(),
    };
    let (sentiment, ai_tags) = call_journal_ai(journal_entry.entry.as_str());
    let mut st = statement(ENTRY_INSERT);
    bind(&mut st, SqlValue::Text(frame_text(journal_entry.entry.as_str())));
    bind(&mut st, SqlValue::Text(tags));
    bind(&mut st, SqlValue::Text(sentiment));
    bind(&mut st, SqlValue::Text(ai_tags));
    assert(st@.params =~= seq![
        SqlValueView::Text(framed(journal_entry.entry@)),
        SqlValueView::Text(stored_tags(*journal_entry)),
        SqlValueView::Text(analysis_of(lowercase_of(journal_entry.entry@)).0),
        SqlValueView::Text(analysis_of(lowercase_of(journal_entry.entry@)).1),
    ]);
    st
}

/// Stores `journal_entry` and gives the id of the new row. The analyzer
/// runs on the text before the row is written.
pub fn create_journal_entry(conn: &rusqlite::Connection, journal_entry: &JournalEntry) -> (r: Result<
    i64,
    DaoError,
>)
    ensures
        r matches Err(e) ==> e is DatabaseError,
{
    let st = entry_insert(journal_entry);
    match read_outcome(run_statement(conn, st.sql.as_str(), &st.params)) {
        Ok(_) => Ok(last_row_id(conn)),
        Err(e) => Err(e),
    }
}

/// The journal entry with the id `journal_entry_id`, or `None` where there
/// is none. An entry that is returned is what a row of the result holds:
/// id, text, date, tags, sentiment and topic tags in columns 0 to 5.
pub fn read_journal_entry(conn: &rusqlite::Connection, journal_entry_id: i64) -> (r: Result<
    Option<JournalEntry>,
    DaoError,
>)
    ensures
        r matches Ok(Some(entry)) ==> some_row_holds_entry(entry),
        r matches Err(e) ==> e is DatabaseError,
{
    let st = entry_query(journal_entry_id);
    let found = fetch_row(conn, st.sql.as_str(), &st.params, entry_of_row);
    proof {
        if found is Ok {
            lemma_entry_off_a_row(found->Ok_0);
        }
    }
    read_outcome(optional_row(found))
}

/// The time windows that entries can be asked for.
pub open spec fn is_period(period: Seq<char>) -> bool {
    period == "week"@ || period == "month"@ || period == "year"@
}

/// The query for the entries of `period`, newest first.
pub open spec fn period_query_of(period: Seq<char>) -> Seq<char> {
    if period == "week"@ {
        ENTRIES_OF_WEEK@
    } else if period == "month"@ {
        ENTRIES_OF_MONTH@
    } else {
        ENTRIES_OF_YEAR@
    }
}

/// The statement that asks for the entries of `period`, or `InvalidPeriod`
/// with the tag where `period` is none of `week`, `month` and `year`.
pub fn period_query(period: &str) -> (r: Result<Statement, DaoError>)
    ensures
        is_period(period@) ==> (r matches Ok(st) && st@ == (StatementView {
            sql: period_query_of(period@),
            params: Seq::<SqlValueView>::empty(),
        })),
        !is_period(period@) ==> (r matches Err(DaoError::InvalidPeriod(p)) && p@ == period@),
{
    if same_text(period, "week") {
        Ok(statement(ENTRIES_OF_WEEK))
    } else if same_text(period, "month") {
        Ok(statement(ENTRIES_OF_MONTH))
    } else if same_text(period, "year") {
        Ok(statement(ENTRIES_OF_YEAR))
    } else {
        Err(DaoError::InvalidPeriod(period.to_owned()))
    }
}

/// The journal entries dated within the week, month or year before the
/// moment of the call, newest first, as the database selects and orders
/// them. Every entry that is returned is what a row of the result holds.
/// Any other `period` is refused with `InvalidPeriod` before the database
/// is touched.
pub fn get_journal_entries_by_period(conn: &rusqlite::Connection, period: &str) -> (r: Result<
    Vec<JournalEntry>,
    DaoError,
>)
    ensures
        !is_period(period@) <==> r matches Err(DaoError::InvalidPeriod(_)),
        r matches Err(DaoError::InvalidPeriod(p)) ==> p@ == period@,
        r matches Err(e) ==> e is InvalidPeriod || e is DatabaseError,
        r matches Ok(entries) ==> forall|i: int|
            0 <= i < entries@.len() ==> some_row_holds_entry(#[trigger] entries@[i]),
{
    let st = match period_query(period) {
        Ok(st) => st,
        Err(e) => {
            return Err(e);
        },
    };
    let found = fetch_rows(conn, st.sql.as_str(), &st.params, entry_of_row);
    proof {
        if found is Ok {
            let entries = found->Ok_0;
            assert forall|i: int| 0 <= i < entries@.len() implies some_row_holds_entry(
                #[trigger] entries@[i],
            ) by {
                lemma_entry_off_a_row(entries@[i]);
            }
        }
    }
    read_outcome(found)
}

/// What one character of a text becomes in a pattern that is to match the
/// text itself: a backslash goes before a backslash, a percent sign and an
/// underscore, which would else have a meaning of their own.
pub open spec fn like_literal_char(c: char) -> Seq<char> {
    if c == '\\' || c == '%' || c == '_' {
        seq!['\\', c]
    } else {
        seq![c]
    }
}

/// `text` as a piece of a pattern that matches exactly `text`: every
/// backslash, percent sign and underscore with a backslash before it.
pub open spec fn like_literal(text: Seq<char>) -> Seq<char>
    decreases text.len(),
{
    if text.len() == 0 {
        Seq::<char>::empty()
    } else {
        like_literal(text.drop_last()) + like_literal_char(text.last())
    }
}

/// `literal` between two percent signs: the pattern for every text in
/// which what `literal` stands for occurs.
pub open spec fn like_pattern(literal: Seq<char>) -> Seq<char> {
    seq!['%'] + literal + seq!['%']
}

/// The statement that searches the entries for `query`: the pattern is the
/// lower-case form of `query`, taken literally, between two percent signs.
pub fn search_statement(query: &str) -> (st: Statement)
    ensures
        st@ == (StatementView {
            sql: ENTRY_SEARCH@,
            params: seq![SqlValueView::Text(like_pattern(like_literal(lowercase_of(query@))))],
        }),
{
    let lowered = lowercase(query);
    let chars = to_chars(lowered.as_str());
    let mut pattern: Vec<char> = Vec::new();
    pattern.push('%');
    let mut i: usize = 0;
    assert(chars@.take(0) =~= Seq::<char>::empty());
    assert(pattern@ =~= seq!['%'] + like_literal(chars@.take(0)));
    while i < chars.len()
        invariant
            i <= chars.len(),
            pattern@ == seq!['%'] + like_literal(chars@.take(i as int)),
        decreases chars.len() - i,
    {
        let c = chars[i];
        proof {
            assert(chars@.take(i + 1).drop_last() =~= chars@.take(i as int));
            assert(chars@.take(i + 1).last() == c);
        }
        let ghost before = pattern@;
        if c == '\\' || c == '%' || c == '_' {
            pattern.push('\\');
        }
        pattern.push(c);
        assert(pattern@ =~= before + like_literal_char(c));
        assert(pattern@ =~= seq!['%'] + like_literal(chars@.take(i + 1)));
        i += 1;
    }
    assert(chars@.take(chars@.len() as int) =~= chars@);
    pattern.push('%');
    assert(pattern@ =~= like_pattern(like_literal(lowercase_of(query@))));
    let mut st = statement(ENTRY_SEARCH);
    bind(&mut st, SqlValue::Text(from_chars(&pattern)));
    assert(st@.params =~= seq![
        SqlValueView::Text(like_pattern(like_literal(lowercase_of(query@)))),
    ]);
    st
}

/// The journal entries whose text, tags or topic tags hold the lower-case
/// form of `query`, newest first, as the database selects and orders them.
/// The database compares without regard to the case of the letters `a` to
/// `z`. Every entry that is returned is what a row of the result holds.
pub fn search_journal_entries(conn: &rusqlite::Connection, query: &str) -> (r: Result<
    Vec<JournalEntry>,
    DaoError,
>)
    ensures
        r matches Err(e) ==> e is DatabaseError,
        r matches Ok(entries) ==> forall|i: int|
            0 <= i < entries@.len() ==> some_row_holds_entry(#[trigger] entries@[i]),
{
    let st = search_statement(query);
    let found = fetch_rows(conn, st.sql.as_str(), &st.params, entry_of_row);
    proof {
        if found is Ok {
            let entries = found->Ok_0;
            assert forall|i: int| 0 <= i < entries@.len() implies some_row_holds_entry(
                #[trigger] entries@[i],
            ) by {
                lemma_entry_off_a_row(entries@[i]);
            }
        }
    }
    read_outcome(found)
}

/// The statement that stores a reference to the file at `file_path`, which
/// is called `file_name`. Both are stored as they are.
pub fn note_insert(file_path: &str, file_name: &str) -> (st: Statement)
    ensures
        st@ == (StatementView {
            sql: NOTE_INSERT@,
            params: seq![SqlValueView::Text(file_path@), SqlValueView::Text(file_name@)],
        }),
{
    let mut st = statement(NOTE_INSERT);
    bind(&mut st, SqlValue::Text(file_path.to_owned()));
    bind(&mut st, SqlValue::Text(file_name.to_owned()));
    assert(st@.params =~= seq![SqlValueView::Text(file_path@), SqlValueView::Text(file_name@)]);
    st
}

/// Stores a reference to the file at `file_path`, called `file_name`, and
/// gives the id of the new row. The file itself is not read.
pub fn create_learning_note(conn: &rusqlite::Connection, file_path: &str, file_name: &str) -> (r:
    Result<i64, DaoError>)
    ensures
        r matches Err(e) ==> e is DatabaseError,
{
    let st = note_insert(file_path, file_name);
    match read_outcome(run_statement(conn, st.sql.as_str(), &st.params)) {
        Ok(_) => Ok(last_row_id(conn)),
        Err(e) => Err(e),
    }
}

/// The learning note with the id `note_id`, or `None` where there is none.
/// A note that is returned is what a row of the result holds: id, path,
/// name and the two times in columns 0 to 4.
pub fn read_learning_note(conn: &rusqlite::Connection, note_id: i64) -> (r: Result<
    Option<LearningNote>,
    DaoError,
>)
    ensures
        r matches Ok(Some(note)) ==> some_row_holds_note(note),
        r matches Err(e) ==> e is DatabaseError,
{
    let st = note_query(note_id);
    let found = fetch_row(conn, st.sql.as_str(), &st.params, note_of_row);
    proof {
        if found is Ok {
            lemma_note_off_a_row(found->Ok_0);
        }
    }
    read_outcome(optional_row(found))
}

} // verus!
