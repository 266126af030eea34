use cli_notes::dao;
use cli_notes::dao::DaoError;
use cli_notes::models::{CodeSnippet, JournalEntry, Timestamp};
use rusqlite::Connection;

fn now() -> Timestamp {
    let t = chrono::Local::now();
    Timestamp {
        seconds: t.timestamp(),
        nanos: t.timestamp_subsec_nanos(),
    }
}

fn with_languages() -> Connection {
    let conn = Connection::open_in_memory().unwrap();
    conn.execute(
        "CREATE TABLE languages (
            id INTEGER PRIMARY KEY AUTOINCREMENT,
            name TEXT NOT NULL UNIQUE,
            created_at DATETIME DEFAULT CURRENT_TIMESTAMP,
            updated_at DATETIME DEFAULT CURRENT_TIMESTAMP
        )",
        [],
    )
    .unwrap();
    conn.execute(
        "CREATE TABLE code_snippets (
            id INTEGER PRIMARY KEY AUTOINCREMENT,
            full_code TEXT NOT NULL,
            created_at DATETIME DEFAULT CURRENT_TIMESTAMP,
            updated_at DATETIME DEFAULT CURRENT_TIMESTAMP,
            language_id INTEGER,
            FOREIGN KEY(language_id) REFERENCES languages(id)
        )",
        [],
    )
    .unwrap();
    conn
}

fn with_journal() -> Connection {
    let conn = Connection::open_in_memory().unwrap();
    conn.execute(
        "CREATE TABLE journal_entries (
            id INTEGER PRIMARY KEY AUTOINCREMENT,
            entry TEXT NOT NULL,
            date DATETIME DEFAULT CURRENT_TIMESTAMP,
            tags TEXT,
            sentiment TEXT,
            ai_tags TEXT
        )",
        [],
    )
    .unwrap();
    conn
}

fn snippet(code: &str) -> CodeSnippet {
    CodeSnippet {
        id: 0,
        full_code: String::from(code),
        created_at: now(),
        updated_at: now(),
        language_id: 1,
    }
}

#[test]
fn test_create_and_read_code_snippet() {
    // Create an in-memory database
    let conn = Connection::open_in_memory().unwrap();

    // Create the necessary tables
    conn.execute(
        "CREATE TABLE languages (
            id INTEGER PRIMARY KEY AUTOINCREMENT,
            name TEXT NOT NULL UNIQUE,
            created_at DATETIME DEFAULT CURRENT_TIMESTAMP,
            updated_at DATETIME DEFAULT CURRENT_TIMESTAMP
        )",
        [],
    )
    .unwrap();

    conn.execute(
        "CREATE TABLE code_snippets (
            id INTEGER PRIMARY KEY AUTOINCREMENT,
            full_code TEXT NOT NULL,
            created_at DATETIME DEFAULT CURRENT_TIMESTAMP,
            updated_at DATETIME DEFAULT CURRENT_TIMESTAMP,
            language_id INTEGER,
            FOREIGN KEY(language_id) REFERENCES languages(id)
        )",
        [],
    )
    .unwrap();

    // Insert a test language
    conn.execute("INSERT INTO languages (name) VALUES ('rust')", [])
        .unwrap();

    // Create a code snippet
    let snippet = CodeSnippet {
        id: 0,
        full_code: String::from("fn main() { println!(\"Hello, world!\"); }"),
        created_at: now(),
        updated_at: now(),
        language_id: 1,
    };

    // Create the code snippet in the database
    let snippet_id = dao::create_code_snippet(&conn, &snippet, "rust").unwrap();

    // Read the code snippet back from the database
    let mut read_snippet = dao::read_code_snippet(&conn, snippet_id)
        .unwrap()
        .unwrap();

    // Verify that the code snippet was created correctly - account for preprocessed code
    assert!(read_snippet.full_code.starts_with("'''\n"));
    assert!(read_snippet.full_code.ends_with("\n'''"));
    assert!(read_snippet
        .full_code
        .contains("fn main() { println!(\"Hello, world!\"); }"));

    // Verify language_id
    assert_eq!(read_snippet.language_id, 1);

    // Update the code snippet
    read_snippet.full_code.push_str("\n// Updated code");
    dao::update_code_snippet(&conn, &read_snippet, "rust").unwrap();

    // Read the updated code snippet
    let updated_snippet = dao::read_code_snippet(&conn, snippet_id)
        .unwrap()
        .unwrap();
    assert!(updated_snippet
        .full_code
        .ends_with("\n// Updated code\n'''"));

    // Delete the code snippet
    dao::delete_code_snippet(&conn, snippet_id).unwrap();

    // Verify that the code snippet was deleted
    let deleted_snippet = dao::read_code_snippet(&conn, snippet_id).unwrap();
    assert!(deleted_snippet.is_none());
}

#[test]
fn test_create_and_read_journal_entry() {
    // Create an in-memory database
    let conn = Connection::open_in_memory().unwrap();

    // Create the necessary tables
    conn.execute(
        "CREATE TABLE journal_entries (
            id INTEGER PRIMARY KEY AUTOINCREMENT,
            entry TEXT NOT NULL,
            date DATETIME DEFAULT CURRENT_TIMESTAMP,
            tags TEXT,
            sentiment TEXT,
            ai_tags TEXT
        )",
        [],
    )
    .unwrap();

    // Create a journal entry
    let mut journal_entry = JournalEntry::new(
        String::from("Today I worked on the Rust DAO module and I'm excited about the progress!"),
        Some(String::from("rust, testing")),
    );

    // Finalize the journal entry (sets default values)
    journal_entry.finalize();

    // Create the journal entry in the database
    let entry_id = dao::create_journal_entry(&conn, &journal_entry).unwrap();

    // Read the journal entry back from the database
    let read_entry = dao::read_journal_entry(&conn, entry_id).unwrap().unwrap();

    // Verify that the journal entry was created correctly - account for preprocessed code
    assert!(read_entry.entry.starts_with("'''\n"));
    assert!(read_entry.entry.ends_with("\n'''"));
    assert!(read_entry.entry.contains(
        "Today I worked on the Rust DAO module and I''m excited about the progress!"
    ));

    // Check tags if present - now stored directly without preprocessing
    if let Some(tags) = read_entry.tags {
        assert!(tags == "rust, testing");
    }

    // Check AI-generated sentiment (should be positive due to "excited")
    if let Some(sentiment) = read_entry.sentiment {
        assert!(sentiment == "positive");
    }

    // Check AI-generated tags (should include "rust" from the content)
    if let Some(ai_tags) = read_entry.ai_tags {
        println!("AI tags: {}", ai_tags);
        assert!(ai_tags.contains("rust"));
    } else {
        println!("No AI tags found");
        panic!("Expected AI tags to be present");
    }
}

#[test]
fn test_language_functions() {
    // Create an in-memory database
    let conn = Connection::open_in_memory().unwrap();

    // Create the languages table
    conn.execute(
        "CREATE TABLE languages (
            id INTEGER PRIMARY KEY AUTOINCREMENT,
            name TEXT NOT NULL UNIQUE,
            created_at DATETIME DEFAULT CURRENT_TIMESTAMP,
            updated_at DATETIME DEFAULT CURRENT_TIMESTAMP
        )",
        [],
    )
    .unwrap();

    // Insert a test language
    conn.execute("INSERT INTO languages (name) VALUES ('javascript')", [])
        .unwrap();

    // Test get_language_from_id
    let lang_name = dao::get_language_from_id(&conn, 1).unwrap();
    assert_eq!(lang_name, "javascript");

    // Test get_language_id_from_name
    let lang_id = dao::get_language_id_from_name(&conn, "javascript").unwrap();
    assert_eq!(lang_id, 1);

    // Test language_exists
    let exists = dao::language_exists(&conn, "javascript").unwrap();
    assert!(exists);

    // Test language_exists with non-existent language
    let exists = dao::language_exists(&conn, "nonexistent").unwrap();
    assert!(!exists);
}

#[test]
fn language_lookups_report_not_found() {
    let conn = with_languages();
    conn.execute("INSERT INTO languages (name) VALUES ('rust')", [])
        .unwrap();
    assert!(matches!(
        dao::get_language_id_from_name(&conn, "cobol"),
        Err(DaoError::NotFound)
    ));
    assert!(matches!(
        dao::get_language_from_id(&conn, 99),
        Err(DaoError::NotFound)
    ));
}

#[test]
fn lookups_report_store_errors() {
    let conn = Connection::open_in_memory().unwrap();
    assert!(matches!(
        dao::get_language_id_from_name(&conn, "rust"),
        Err(DaoError::DatabaseError(_))
    ));
    assert!(matches!(
        dao::language_exists(&conn, "rust"),
        Err(DaoError::DatabaseError(_))
    ));
    assert!(matches!(
        dao::read_code_snippet(&conn, 1),
        Err(DaoError::DatabaseError(_))
    ));
    assert!(matches!(
        dao::delete_code_snippet(&conn, 1),
        Err(DaoError::DatabaseError(_))
    ));
    assert!(matches!(
        dao::read_journal_entry(&conn, 1),
        Err(DaoError::DatabaseError(_))
    ));
    assert!(matches!(
        dao::search_journal_entries(&conn, "x"),
        Err(DaoError::DatabaseError(_))
    ));
    assert!(matches!(
        dao::get_journal_entries_by_period(&conn, "week"),
        Err(DaoError::DatabaseError(_))
    ));
}

#[test]
fn snippet_scenario_from_create_to_delete() {
    let conn = with_languages();
    conn.execute("INSERT INTO languages (name) VALUES ('rust')", [])
        .unwrap();
    let id = dao::create_code_snippet(&conn, &snippet("fn main() {}"), "rust").unwrap();
    assert!(id > 0);
    let mut stored = dao::read_code_snippet(&conn, id).unwrap().unwrap();
    assert_eq!(stored.id, id);
    assert_eq!(stored.full_code, "'''\nfn main() {}\n'''");
    assert_eq!(stored.language_id, 1);
    stored.full_code = String::from("fn main() { let c = 'x'; }");
    dao::update_code_snippet(&conn, &stored, "rust").unwrap();
    let updated = dao::read_code_snippet(&conn, id).unwrap().unwrap();
    assert_eq!(updated.full_code, "'''\nfn main() { let c = ''x''; }\n'''");
    dao::delete_code_snippet(&conn, id).unwrap();
    assert!(dao::read_code_snippet(&conn, id).unwrap().is_none());
}

#[test]
fn create_snippet_needs_a_known_language() {
    let conn = with_languages();
    conn.execute("INSERT INTO languages (name) VALUES ('rust')", [])
        .unwrap();
    assert!(matches!(
        dao::create_code_snippet(&conn, &snippet("x"), "ts"),
        Err(DaoError::NotFound)
    ));
}

#[test]
fn create_snippet_refuses_an_unlisted_language() {
    let conn = with_languages();
    conn.execute("INSERT INTO languages (name) VALUES ('python')", [])
        .unwrap();
    match dao::create_code_snippet(&conn, &snippet("print('x')"), "python") {
        Err(DaoError::PreprocessingError(message)) => {
            assert_eq!(message, "Unsupported language.")
        }
        other => panic!("expected a refusal, got {:?}", other),
    }
    let count: i64 = conn
        .query_row("SELECT COUNT(*) FROM code_snippets", [], |row| row.get(0))
        .unwrap();
    assert_eq!(count, 0);
}

#[test]
fn update_snippet_refuses_an_unlisted_language() {
    let conn = with_languages();
    conn.execute("INSERT INTO languages (name) VALUES ('rust')", [])
        .unwrap();
    let id = dao::create_code_snippet(&conn, &snippet("a"), "rust").unwrap();
    let mut stored = dao::read_code_snippet(&conn, id).unwrap().unwrap();
    stored.full_code = String::from("b");
    conn.execute("INSERT INTO languages (name) VALUES ('go')", [])
        .unwrap();
    match dao::update_code_snippet(&conn, &stored, "go") {
        Err(DaoError::PreprocessingError(message)) => {
            assert_eq!(message, "Unsupported language.")
        }
        other => panic!("expected a refusal, got {:?}", other),
    }
    let kept = dao::read_code_snippet(&conn, id).unwrap().unwrap();
    assert_eq!(kept.full_code, "'''\na\n'''");
}

#[test]
fn update_snippet_needs_a_known_language() {
    let conn = with_languages();
    conn.execute("INSERT INTO languages (name) VALUES ('rust')", [])
        .unwrap();
    let id = dao::create_code_snippet(&conn, &snippet("a"), "rust").unwrap();
    let mut stored = dao::read_code_snippet(&conn, id).unwrap().unwrap();
    stored.full_code = String::from("b");
    assert!(matches!(
        dao::update_code_snippet(&conn, &stored, "js"),
        Err(DaoError::NotFound)
    ));
    assert!(matches!(
        dao::update_code_snippet(&conn, &stored, "cobol"),
        Err(DaoError::NotFound)
    ));
    let kept = dao::read_code_snippet(&conn, id).unwrap().unwrap();
    assert_eq!(kept.full_code, "'''\na\n'''");
}

#[test]
fn update_of_a_missing_snippet_changes_nothing() {
    let conn = with_languages();
    conn.execute("INSERT INTO languages (name) VALUES ('rust')", [])
        .unwrap();
    let mut absent = snippet("x");
    absent.id = 77;
    assert!(dao::update_code_snippet(&conn, &absent, "rust").is_ok());
    assert!(dao::read_code_snippet(&conn, 77).unwrap().is_none());
}

#[test]
fn delete_of_a_missing_snippet_succeeds() {
    let conn = with_languages();
    assert!(dao::delete_code_snippet(&conn, 12345).is_ok());
    assert!(dao::delete_code_snippet(&conn, 12345).is_ok());
    assert!(dao::delete_code_snippet(&conn, -1).is_ok());
}

#[test]
fn read_of_a_missing_row_is_none() {
    let conn = with_languages();
    assert!(dao::read_code_snippet(&conn, 1).unwrap().is_none());
    let journal = with_journal();
    assert!(dao::read_journal_entry(&journal, 1).unwrap().is_none());
}

#[test]
fn journal_scenario_sentiment_and_tags() {
    let conn = with_journal();
    let entry = JournalEntry::new(
        String::from("Today I learned Rust and I'm excited!"),
        None,
    );
    let id = dao::create_journal_entry(&conn, &entry).unwrap();
    assert!(id > 0);
    let stored = dao::read_journal_entry(&conn, id).unwrap().unwrap();
    assert_eq!(stored.id, id);
    assert_eq!(
        stored.entry,
        "'''\nToday I learned Rust and I''m excited!\n'''"
    );
    assert_eq!(stored.tags, Some(String::new()));
    assert_eq!(stored.sentiment, Some(String::from("positive")));
    assert_eq!(stored.ai_tags, Some(String::from("rust,learning")));
}

#[test]
fn journal_entry_statement_is_planned_exactly() {
    let entry = JournalEntry::new(
        String::from("A BAD bug"),
        Some(String::from("it's, verbatim")),
    );
    let statement = dao::entry_insert(&entry);
    assert_eq!(statement.sql, dao::ENTRY_INSERT);
    assert_eq!(
        format!("{:?}", statement.params),
        "[Text(\"'''\\nA BAD bug\\n'''\"), Text(\"it's, verbatim\"), Text(\"negative\"), Text(\"debugging\")]"
    );
}

#[test]
fn snippet_statements_are_planned_exactly() {
    let insert = dao::snippet_insert("a'b", "js", 7).unwrap();
    assert_eq!(insert.sql, dao::SNIPPET_INSERT);
    assert_eq!(
        format!("{:?}", insert.params),
        "[Text(\"'''\\na''b\\n'''\"), Integer(7)]"
    );
    let mut row = snippet("x");
    row.id = 3;
    row.language_id = 9;
    let update = dao::snippet_update(&row, "ts").unwrap();
    assert_eq!(update.sql, dao::SNIPPET_UPDATE);
    assert_eq!(
        format!("{:?}", update.params),
        "[Text(\"'''\\nx\\n'''\"), Integer(9), Integer(3)]"
    );
    assert!(matches!(
        dao::snippet_insert("x", "php", 1),
        Err(DaoError::PreprocessingError(_))
    ));
    assert!(matches!(
        dao::snippet_update(&row, "php"),
        Err(DaoError::PreprocessingError(_))
    ));
}

#[test]
fn search_statement_lowers_the_query() {
    let statement = dao::search_statement("RuSt");
    assert_eq!(statement.sql, dao::ENTRY_SEARCH);
    assert_eq!(format!("{:?}", statement.params), "[Text(\"%rust%\")]");
    let empty = dao::search_statement("");
    assert_eq!(format!("{:?}", empty.params), "[Text(\"%%\")]");
}

fn pattern_of(query: &str) -> String {
    match &dao::search_statement(query).params[0] {
        cli_notes::store::SqlValue::Text(pattern) => pattern.clone(),
        other => panic!("expected a text, got {:?}", other),
    }
}

#[test]
fn search_statement_takes_the_query_literally() {
    assert_eq!(pattern_of("%"), "%\\%%");
    assert_eq!(pattern_of("_"), "%\\_%");
    assert_eq!(pattern_of("\\"), "%\\\\%");
    assert_eq!(pattern_of("50%_OFF\\now"), "%50\\%\\_off\\\\now%");
    assert_eq!(pattern_of("a%b_c"), "%a\\%b\\_c%");
    assert_eq!(pattern_of("plain"), "%plain%");
    assert_eq!(dao::search_statement("%").sql.matches("ESCAPE").count(), 3);
}

#[test]
fn search_for_a_wildcard_finds_only_what_holds_it() {
    let conn = with_journal();
    for (text, tags) in [
        ("nothing special here", "calm"),
        ("another ordinary day", "quiet"),
        ("x", "y"),
    ] {
        dao::create_journal_entry(
            &conn,
            &JournalEntry::new(String::from(text), Some(String::from(tags))),
        )
        .unwrap();
    }
    assert!(dao::search_journal_entries(&conn, "%").unwrap().is_empty());
    assert!(dao::search_journal_entries(&conn, "_").unwrap().is_empty());
    assert!(dao::search_journal_entries(&conn, "\\").unwrap().is_empty());
    assert!(dao::search_journal_entries(&conn, "a_other")
        .unwrap()
        .is_empty());
    assert!(dao::search_journal_entries(&conn, "no%here")
        .unwrap()
        .is_empty());

    dao::create_journal_entry(
        &conn,
        &JournalEntry::new(String::from("I am 100% sure"), None),
    )
    .unwrap();
    dao::create_journal_entry(
        &conn,
        &JournalEntry::new(String::from("renamed to snake_case"), None),
    )
    .unwrap();
    dao::create_journal_entry(
        &conn,
        &JournalEntry::new(String::from("a back\\slash path"), Some(String::from("50%_off"))),
    )
    .unwrap();

    let percent = dao::search_journal_entries(&conn, "%").unwrap();
    assert_eq!(percent.len(), 2);
    assert!(percent.iter().any(|e| e.entry.contains("100% sure")));
    assert!(percent
        .iter()
        .any(|e| e.tags == Some(String::from("50%_off"))));

    let underscore = dao::search_journal_entries(&conn, "_").unwrap();
    assert_eq!(underscore.len(), 2);
    assert!(underscore.iter().any(|e| e.entry.contains("snake_case")));

    let backslash = dao::search_journal_entries(&conn, "\\").unwrap();
    assert_eq!(backslash.len(), 1);
    assert!(backslash[0].entry.contains("back\\slash"));

    let both = dao::search_journal_entries(&conn, "%_OFF").unwrap();
    assert_eq!(both.len(), 1);
    assert_eq!(both[0].tags, Some(String::from("50%_off")));

    assert_eq!(dao::search_journal_entries(&conn, "").unwrap().len(), 6);
}

#[test]
fn search_gives_the_same_for_a_query_in_either_case() {
    let conn = with_journal();
    dao::create_journal_entry(
        &conn,
        &JournalEntry::new(String::from("Refactored the Parser"), None),
    )
    .unwrap();
    dao::create_journal_entry(&conn, &JournalEntry::new(String::from("idle"), None)).unwrap();
    let lower = dao::search_journal_entries(&conn, "parser").unwrap();
    let upper = dao::search_journal_entries(&conn, "PARSER").unwrap();
    assert_eq!(lower.len(), 1);
    assert_eq!(upper.len(), 1);
    assert_eq!(lower[0].id, upper[0].id);
}

#[test]
fn period_query_for_each_window() {
    assert_eq!(dao::period_query("week").unwrap().sql, dao::ENTRIES_OF_WEEK);
    assert_eq!(
        dao::period_query("month").unwrap().sql,
        dao::ENTRIES_OF_MONTH
    );
    assert_eq!(dao::period_query("year").unwrap().sql, dao::ENTRIES_OF_YEAR);
    assert!(dao::period_query("week").unwrap().params.is_empty());
    match dao::period_query("decade") {
        Err(DaoError::InvalidPeriod(tag)) => assert_eq!(tag, "decade"),
        other => panic!("expected a refusal, got {:?}", other),
    }
    assert!(matches!(
        dao::period_query("Week"),
        Err(DaoError::InvalidPeriod(_))
    ));
    assert!(matches!(
        dao::period_query(""),
        Err(DaoError::InvalidPeriod(_))
    ));
}

fn insert_dated(conn: &Connection, text: &str, modifier: &str) {
    conn.execute(
        "INSERT INTO journal_entries (entry, date, tags, sentiment, ai_tags)
         VALUES (?1, datetime('now', ?2), '', 'neutral', 'general')",
        [text, modifier],
    )
    .unwrap();
}

fn texts(entries: &Vec<JournalEntry>) -> Vec<String> {
    entries.iter().map(|e| e.entry.clone()).collect()
}

#[test]
fn entries_by_period_keep_to_the_window() {
    let conn = with_journal();
    insert_dated(&conn, "two days ago", "-2 days");
    insert_dated(&conn, "ten days ago", "-10 days");
    insert_dated(&conn, "an hour ago", "-1 hours");
    insert_dated(&conn, "two months ago", "-2 months");
    insert_dated(&conn, "two years ago", "-2 years");

    let week = dao::get_journal_entries_by_period(&conn, "week").unwrap();
    assert_eq!(texts(&week), vec!["an hour ago", "two days ago"]);
    let month = dao::get_journal_entries_by_period(&conn, "month").unwrap();
    assert_eq!(
        texts(&month),
        vec!["an hour ago", "two days ago", "ten days ago"]
    );
    let year = dao::get_journal_entries_by_period(&conn, "year").unwrap();
    assert_eq!(
        texts(&year),
        vec!["an hour ago", "two days ago", "ten days ago", "two months ago"]
    );
    for entry in &week {
        assert!(entry.date.seconds >= now().seconds - 7 * 24 * 3600 - 60);
    }
    assert!(week[0].date.seconds > week[1].date.seconds);
}

#[test]
fn entries_by_an_unknown_period_are_refused() {
    let conn = with_journal();
    match dao::get_journal_entries_by_period(&conn, "decade") {
        Err(DaoError::InvalidPeriod(tag)) => assert_eq!(tag, "decade"),
        other => panic!("expected a refusal, got {:?}", other),
    }
    let bare = Connection::open_in_memory().unwrap();
    assert!(matches!(
        dao::get_journal_entries_by_period(&bare, "fortnight"),
        Err(DaoError::InvalidPeriod(_))
    ));
}

#[test]
fn search_finds_text_tags_and_topics() {
    let conn = with_journal();
    let first = JournalEntry::new(
        String::from("Fixed a nasty Bug today"),
        Some(String::from("Parser")),
    );
    let second = JournalEntry::new(String::from("Quiet day"), Some(String::from("garden")));
    let third = JournalEntry::new(String::from("Reading about RUST"), None);
    dao::create_journal_entry(&conn, &first).unwrap();
    dao::create_journal_entry(&conn, &second).unwrap();
    dao::create_journal_entry(&conn, &third).unwrap();

    let by_text = dao::search_journal_entries(&conn, "BUG").unwrap();
    assert_eq!(by_text.len(), 1);
    assert!(by_text[0].entry.contains("Fixed a nasty Bug today"));

    let by_tag = dao::search_journal_entries(&conn, "parser").unwrap();
    assert_eq!(by_tag.len(), 1);
    assert_eq!(by_tag[0].tags, Some(String::from("Parser")));

    let by_topic = dao::search_journal_entries(&conn, "General").unwrap();
    assert_eq!(by_topic.len(), 1);
    assert!(by_topic[0].entry.contains("Quiet day"));

    let by_rust = dao::search_journal_entries(&conn, "rust").unwrap();
    assert_eq!(by_rust.len(), 1);
    assert!(by_rust[0].entry.contains("Reading about RUST"));

    assert!(dao::search_journal_entries(&conn, "absent")
        .unwrap()
        .is_empty());
    assert_eq!(dao::search_journal_entries(&conn, "").unwrap().len(), 3);
}

#[test]
fn new_entry_is_not_persisted_yet() {
    let before = now();
    let entry = JournalEntry::new(String::from("text"), Some(String::from("a,b")));
    assert_eq!(entry.id, -1);
    assert_eq!(entry.entry, "text");
    assert_eq!(entry.tags, Some(String::from("a,b")));
    assert_eq!(entry.sentiment, None);
    assert_eq!(entry.ai_tags, None);
    assert!(entry.date.seconds >= before.seconds);
    assert!(entry.date.seconds <= before.seconds + 60);
}

#[test]
fn finalize_resets_id_and_keeps_the_rest() {
    let mut entry = JournalEntry {
        id: 42,
        entry: String::from("text"),
        date: Timestamp {
            seconds: 0,
            nanos: 0,
        },
        tags: Some(String::from("t")),
        sentiment: Some(String::from("positive")),
        ai_tags: Some(String::from("rust")),
    };
    entry.finalize();
    assert_eq!(entry.id, -1);
    assert_eq!(entry.entry, "text");
    assert_eq!(entry.tags, Some(String::from("t")));
    assert_eq!(entry.sentiment, Some(String::from("positive")));
    assert_eq!(entry.ai_tags, Some(String::from("rust")));
    assert!(entry.date.seconds > 0);
}

fn with_notes() -> Connection {
    let conn = Connection::open_in_memory().unwrap();
    conn.execute(
        "CREATE TABLE learning_notes (
            id INTEGER PRIMARY KEY AUTOINCREMENT,
            file_path TEXT NOT NULL,
            file_name TEXT NOT NULL,
            created_at DATETIME DEFAULT CURRENT_TIMESTAMP,
            updated_at DATETIME DEFAULT CURRENT_TIMESTAMP
        )",
        [],
    )
    .unwrap();
    conn
}

#[test]
fn learning_note_is_stored_and_read_back() {
    let conn = with_notes();
    let before = now();
    let id = dao::create_learning_note(&conn, "notes/rust/it's.md", "it's.md").unwrap();
    assert!(id > 0);
    let note = dao::read_learning_note(&conn, id).unwrap().unwrap();
    assert_eq!(note.id, id);
    assert_eq!(note.file_path, "notes/rust/it's.md");
    assert_eq!(note.file_name, "it's.md");
    assert!(note.created_at.seconds >= before.seconds - 1);
    assert!(note.created_at.seconds <= before.seconds + 60);
    assert_eq!(note.created_at.seconds, note.updated_at.seconds);
    assert!(dao::read_learning_note(&conn, id + 1).unwrap().is_none());
}

#[test]
fn learning_note_statement_is_planned_exactly() {
    let statement = dao::note_insert("a/b.md", "b.md");
    assert_eq!(statement.sql, dao::NOTE_INSERT);
    assert_eq!(
        format!("{:?}", statement.params),
        "[Text(\"a/b.md\"), Text(\"b.md\")]"
    );
}

#[test]
fn learning_note_operations_report_store_errors() {
    let conn = Connection::open_in_memory().unwrap();
    assert!(matches!(
        dao::create_learning_note(&conn, "a.md", "a.md"),
        Err(DaoError::DatabaseError(_))
    ));
    assert!(matches!(
        dao::read_learning_note(&conn, 1),
        Err(DaoError::DatabaseError(_))
    ));
}

#[test]
fn snippet_timestamps_are_read_as_points_in_time() {
    let conn = with_languages();
    conn.execute("INSERT INTO languages (name) VALUES ('js')", [])
        .unwrap();
    conn.execute(
        "INSERT INTO code_snippets (full_code, created_at, updated_at, language_id)
         VALUES ('x', '2024-01-02 03:04:05', '2024-01-02 03:04:06', 1)",
        [],
    )
    .unwrap();
    let stored = dao::read_code_snippet(&conn, 1).unwrap().unwrap();
    assert_eq!(stored.created_at.seconds, 1704164645);
    assert_eq!(stored.created_at.nanos, 0);
    assert_eq!(stored.updated_at.seconds, 1704164646);
}

#[test]
fn keyed_statement_holds_the_text_and_the_key() {
    let by_id = dao::keyed_statement(dao::SNIPPET_QUERY, cli_notes::store::SqlValue::Integer(5));
    assert_eq!(by_id.sql, dao::SNIPPET_QUERY);
    assert_eq!(format!("{:?}", by_id.params), "[Integer(5)]");
    let by_name = dao::keyed_statement(
        dao::LANGUAGE_ID_QUERY,
        cli_notes::store::SqlValue::Text(String::from("rust")),
    );
    assert_eq!(by_name.sql, dao::LANGUAGE_ID_QUERY);
    assert_eq!(format!("{:?}", by_name.params), "[Text(\"rust\")]");
}

#[test]
fn entry_columns_without_a_value_are_read_as_none() {
    let conn = with_journal();
    conn.execute(
        "INSERT INTO journal_entries (entry, date) VALUES ('bare', '2024-03-04 05:06:07')",
        [],
    )
    .unwrap();
    let stored = dao::read_journal_entry(&conn, 1).unwrap().unwrap();
    assert_eq!(stored.id, 1);
    assert_eq!(stored.entry, "bare");
    assert_eq!(stored.date.seconds, 1709528767);
    assert_eq!(stored.tags, None);
    assert_eq!(stored.sentiment, None);
    assert_eq!(stored.ai_tags, None);
}

#[test]
fn a_row_that_does_not_hold_an_entity_is_a_store_error() {
    let conn = with_journal();
    conn.execute(
        "INSERT INTO journal_entries (entry, date) VALUES (x'00ff', '2024-03-04 05:06:07')",
        [],
    )
    .unwrap();
    assert!(matches!(
        dao::read_journal_entry(&conn, 1),
        Err(DaoError::DatabaseError(_))
    ));
    conn.execute(
        "INSERT INTO journal_entries (entry, date) VALUES ('text', 'not a date')",
        [],
    )
    .unwrap();
    assert!(matches!(
        dao::read_journal_entry(&conn, 2),
        Err(DaoError::DatabaseError(_))
    ));
    conn.execute(
        "INSERT INTO journal_entries (entry, date, tags) VALUES ('text', '2024-03-04 05:06:07', 12)",
        [],
    )
    .unwrap();
    let kept = dao::read_journal_entry(&conn, 3).unwrap().unwrap();
    assert_eq!(kept.tags, Some(String::from("12")));

    let languages = with_languages();
    languages
        .execute("INSERT INTO languages (name) VALUES (x'00ff')", [])
        .unwrap();
    assert!(matches!(
        dao::get_language_from_id(&languages, 1),
        Err(DaoError::DatabaseError(_))
    ));
}

#[test]
fn a_date_stored_as_a_number_is_read_as_seconds() {
    let conn = with_journal();
    conn.execute(
        "INSERT INTO journal_entries (entry, date) VALUES ('numbered', 1700000000)",
        [],
    )
    .unwrap();
    let stored = dao::read_journal_entry(&conn, 1).unwrap().unwrap();
    assert_eq!(stored.date.seconds, 1700000000);
    assert_eq!(stored.date.nanos, 0);
}

fn insert_dated_twice(conn: &Connection, text: &str, first: &str, second: &str) {
    conn.execute(
        "INSERT INTO journal_entries (entry, date, tags, sentiment, ai_tags)
         VALUES (?1, datetime('now', ?2, ?3), '', 'neutral', 'general')",
        [text, first, second],
    )
    .unwrap();
}

#[test]
fn week_window_is_seven_days_back_from_the_call() {
    let conn = with_journal();
    insert_dated_twice(&conn, "just inside", "-7 days", "+1 minutes");
    insert_dated_twice(&conn, "just outside", "-7 days", "-1 minutes");
    insert_dated_twice(&conn, "a day too old", "-7 days", "-12 hours");
    insert_dated_twice(&conn, "six days", "-6 days", "+0 minutes");
    let week = dao::get_journal_entries_by_period(&conn, "week").unwrap();
    assert_eq!(texts(&week), vec!["six days", "just inside"]);
}

#[test]
fn month_and_year_windows_are_counted_back_from_the_call() {
    let conn = with_journal();
    insert_dated_twice(&conn, "inside the month", "-1 month", "+1 minutes");
    insert_dated_twice(&conn, "outside the month", "-1 month", "-1 minutes");
    insert_dated_twice(&conn, "inside the year", "-1 year", "+1 minutes");
    insert_dated_twice(&conn, "outside the year", "-1 year", "-1 minutes");
    let month = dao::get_journal_entries_by_period(&conn, "month").unwrap();
    assert_eq!(texts(&month), vec!["inside the month"]);
    let year = dao::get_journal_entries_by_period(&conn, "year").unwrap();
    assert_eq!(
        texts(&year),
        vec!["inside the month", "outside the month", "inside the year"]
    );
    let week = dao::get_journal_entries_by_period(&conn, "week").unwrap();
    assert!(week.is_empty());
}

#[test]
fn one_key_statements_are_planned_exactly() {
    let cases = [
        (dao::language_name_query(4), dao::LANGUAGE_NAME_QUERY, "[Integer(4)]"),
        (dao::snippet_query(5), dao::SNIPPET_QUERY, "[Integer(5)]"),
        (dao::snippet_delete(6), dao::SNIPPET_DELETE, "[Integer(6)]"),
        (dao::entry_query(-7), dao::ENTRY_QUERY, "[Integer(-7)]"),
        (dao::note_query(8), dao::NOTE_QUERY, "[Integer(8)]"),
        (
            dao::language_id_query("it's"),
            dao::LANGUAGE_ID_QUERY,
            "[Text(\"it's\")]",
        ),
        (
            dao::language_count_query("rust"),
            dao::LANGUAGE_COUNT_QUERY,
            "[Text(\"rust\")]",
        ),
    ];
    for (statement, sql, params) in cases {
        assert_eq!(statement.sql, sql);
        assert_eq!(format!("{:?}", statement.params), params);
    }
    assert!(dao::SNIPPET_DELETE.starts_with("DELETE FROM code_snippets"));
    assert!(dao::SNIPPET_QUERY.starts_with("SELECT"));
}

#[test]
fn a_column_of_the_wrong_kind_is_reported_with_its_place() {
    let conn = with_journal();
    conn.execute(
        "INSERT INTO journal_entries (entry, date) VALUES (x'00ff', '2024-03-04 05:06:07')",
        [],
    )
    .unwrap();
    match dao::read_journal_entry(&conn, 1) {
        Err(error) => {
            let message = error.message();
            assert!(message.starts_with("Database error: "), "{}", message);
            assert!(message.contains("index: 1"), "{}", message);
            assert!(message.contains("Blob"), "{}", message);
        }
        other => panic!("expected a store error, got {:?}", other),
    }
}

#[test]
fn a_date_with_an_offset_is_read_as_the_same_instant() {
    let conn = with_journal();
    conn.execute(
        "INSERT INTO journal_entries (entry, date) VALUES ('offset', '2024-03-04 07:06:07+02:00')",
        [],
    )
    .unwrap();
    conn.execute(
        "INSERT INTO journal_entries (entry, date) VALUES ('plain', '2024-03-04 05:06:07')",
        [],
    )
    .unwrap();
    conn.execute(
        "INSERT INTO journal_entries (entry, date) VALUES ('fraction', '2024-03-04 05:06:07.25')",
        [],
    )
    .unwrap();
    let offset = dao::read_journal_entry(&conn, 1).unwrap().unwrap();
    let plain = dao::read_journal_entry(&conn, 2).unwrap().unwrap();
    let fraction = dao::read_journal_entry(&conn, 3).unwrap().unwrap();
    assert_eq!(offset.date.seconds, 1709528767);
    assert_eq!(plain.date.seconds, 1709528767);
    assert_eq!(fraction.date.seconds, 1709528767);
    assert_eq!(fraction.date.nanos, 250_000_000);
}
