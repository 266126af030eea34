use cli_notes::dao::preprocess_code;
use cli_notes::preprocess::frame_text;

fn strip_and_unescape(stored: &str) -> String {
    let inner = stored
        .strip_prefix("'''\n")
        .expect("opening delimiter")
        .strip_suffix("\n'''")
        .expect("closing delimiter");
    inner.replace("''", "'")
}

#[test]
fn test_preprocess_code() {
    let raw_code = r#"console.log("Hello, it's me!");"#;
    let processed_code = preprocess_code(raw_code, "js").unwrap();
    assert_eq!(
        processed_code,
        "'''\nconsole.log(\"Hello, it''s me!\");\n'''"
    );
}

#[test]
fn test_rust_preprocess_code() {
    let raw_code = r#"fn main() {
    // Path to the SQLite database file
    let db_path = "../clidblocal.db";

    // Create a new database connection
    let database = db::Database::new(db_path).expect("Failed to connect to the database ");

    //Initialize the database ( create tables if they don't exist)
    database.initialize().expect("Failed to initialize the database");
}"#;

    let processed_code = preprocess_code(raw_code, "rust").unwrap();

    // Check that the code was properly formatted with triple quotes
    assert!(processed_code.starts_with("'''\n"));
    assert!(processed_code.ends_with("\n'''"));

    // Check that single quotes were escaped correctly
    assert!(processed_code.contains("\"Failed to connect to the database \""));
    assert!(processed_code.contains("\"Failed to initialize the database\""));

    // Check that newlines are preserved
    assert!(processed_code.contains("Path to the SQLite database file"));
    assert!(processed_code.contains("Create a new database connection"));
}

#[test]
fn preprocess_accepts_each_listed_language() {
    assert_eq!(preprocess_code("x", "rust").unwrap(), "'''\nx\n'''");
    assert_eq!(preprocess_code("x", "ts").unwrap(), "'''\nx\n'''");
    assert_eq!(preprocess_code("x", "js").unwrap(), "'''\nx\n'''");
}

#[test]
fn preprocess_rejects_other_languages() {
    assert_eq!(
        preprocess_code("print('hi')", "python"),
        Err(String::from("Unsupported language."))
    );
    assert_eq!(
        preprocess_code("x", ""),
        Err(String::from("Unsupported language."))
    );
    assert_eq!(
        preprocess_code("x", "Rust"),
        Err(String::from("Unsupported language."))
    );
    assert_eq!(
        preprocess_code("x", "rust "),
        Err(String::from("Unsupported language."))
    );
}

#[test]
fn preprocess_of_empty_text_is_the_bare_frame() {
    assert_eq!(preprocess_code("", "rust").unwrap(), "'''\n\n'''");
}

#[test]
fn preprocess_doubles_every_quote() {
    assert_eq!(preprocess_code("'", "js").unwrap(), "'''\n''\n'''");
    assert_eq!(preprocess_code("''", "js").unwrap(), "'''\n''''\n'''");
    assert_eq!(preprocess_code("a'b'c", "ts").unwrap(), "'''\na''b''c\n'''");
}

#[test]
fn preprocess_keeps_text_beyond_ascii() {
    assert_eq!(
        preprocess_code("let s = 'héllo → 世界';", "rust").unwrap(),
        "'''\nlet s = ''héllo → 世界'';\n'''"
    );
}

#[test]
fn preprocess_round_trip_gives_the_text_back() {
    let samples = [
        "",
        "plain",
        "it's",
        "'",
        "''",
        "'''",
        "a''b",
        "'start and end'",
        "line one\nline 'two'\n",
        "quote at end'",
        "mixed \"double\" and 'single'",
        "ünï'cödé",
    ];
    for text in samples {
        let stored = preprocess_code(text, "rust").unwrap();
        assert_eq!(strip_and_unescape(&stored), text);
    }
}

#[test]
fn frame_text_is_what_preprocess_stores() {
    assert_eq!(frame_text("I'm here"), "'''\nI''m here\n'''");
    assert_eq!(
        frame_text("I'm here"),
        preprocess_code("I'm here", "js").unwrap()
    );
}
