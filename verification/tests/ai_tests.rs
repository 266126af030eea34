use cli_notes::ai::{
    analyze_lowered, classify_sentiment, derive_topic_tags, AiService, HeuristicAnalyzer,
    Sentiment,
};
use cli_notes::dao::call_journal_ai;

fn tags_of(lowered: &str) -> Vec<String> {
    derive_topic_tags(lowered)
        .iter()
        .map(|t| t.iter().collect::<String>())
        .collect()
}

#[test]
fn sentiment_positive_takes_precedence() {
    let (sentiment, _) = call_journal_ai("I am happy but frustrated");
    assert_eq!(sentiment, "positive");
    let (sentiment, _) = call_journal_ai("terrible day, great dinner");
    assert_eq!(sentiment, "positive");
}

#[test]
fn sentiment_of_each_keyword() {
    for word in ["happy", "good", "great", "excited"] {
        assert_eq!(classify_sentiment(word), Sentiment::Positive);
    }
    for word in ["sad", "bad", "terrible", "frustrated"] {
        assert_eq!(classify_sentiment(word), Sentiment::Negative);
    }
    assert_eq!(classify_sentiment("an ordinary day"), Sentiment::Neutral);
    assert_eq!(classify_sentiment(""), Sentiment::Neutral);
}

#[test]
fn sentiment_matches_inside_words() {
    assert_eq!(classify_sentiment("unhappyness"), Sentiment::Positive);
    assert_eq!(classify_sentiment("badge"), Sentiment::Negative);
}

#[test]
fn sentiment_ignores_case() {
    let (sentiment, _) = call_journal_ai("SO EXCITED");
    assert_eq!(sentiment, "positive");
    let (sentiment, _) = call_journal_ai("Feeling Sad");
    assert_eq!(sentiment, "negative");
    assert_eq!(classify_sentiment("SO EXCITED"), Sentiment::Neutral);
}

#[test]
fn sentiment_labels() {
    assert_eq!(Sentiment::Positive.label(), "positive");
    assert_eq!(Sentiment::Negative.label(), "negative");
    assert_eq!(Sentiment::Neutral.label(), "neutral");
}

#[test]
fn default_tag_is_general() {
    let (_, tags) = call_journal_ai("A quiet walk in the park");
    assert_eq!(tags, "general");
    let (_, tags) = call_journal_ai("");
    assert_eq!(tags, "general");
    assert_eq!(tags_of("nothing of note"), vec![String::from("general")]);
}

#[test]
fn tags_come_in_table_order() {
    let (_, tags) = call_journal_ai("work on code to learn about a bug in my rust project");
    assert_eq!(tags, "rust,project,debugging,learning,coding,work");
    let (_, tags) = call_journal_ai("Work, then CODE");
    assert_eq!(tags, "coding,work");
}

#[test]
fn each_keyword_gives_its_tag() {
    assert_eq!(tags_of("rust"), vec![String::from("rust")]);
    assert_eq!(tags_of("project"), vec![String::from("project")]);
    assert_eq!(tags_of("bug"), vec![String::from("debugging")]);
    assert_eq!(tags_of("learn"), vec![String::from("learning")]);
    assert_eq!(tags_of("code"), vec![String::from("coding")]);
    assert_eq!(tags_of("work"), vec![String::from("work")]);
}

#[test]
fn a_tag_is_listed_once() {
    let (_, tags) = call_journal_ai("rust rust rust");
    assert_eq!(tags, "rust");
}

#[test]
fn journal_scenario_learned_rust() {
    let (sentiment, tags) = call_journal_ai("Today I learned Rust and I'm excited!");
    assert_eq!(sentiment, "positive");
    assert_eq!(tags, "rust,learning");
}

#[test]
fn analyze_lowered_reads_the_text_as_given() {
    assert_eq!(
        analyze_lowered("a bad bug at work"),
        (String::from("negative"), String::from("debugging,work"))
    );
    assert_eq!(
        analyze_lowered("A BAD BUG AT WORK"),
        (String::from("neutral"), String::from("general"))
    );
}

#[test]
fn heuristic_analyzer_words_its_findings() {
    let service = HeuristicAnalyzer;
    assert_eq!(
        service.generate_insights("Happy to work on Rust"),
        Ok(String::from("sentiment: positive; topics: rust,work"))
    );
    assert_eq!(
        service.generate_insights("..."),
        Ok(String::from("sentiment: neutral; topics: general"))
    );
}
