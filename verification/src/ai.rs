//! The heuristic analyzer: a sentiment and a list of topic tags for a text,
//! found by looking for fixed keywords in its lower-case form.
//!
//! It stands in for a real inference service. `AiService` is the seam at
//! which such a service would be put in.

use crate::text::{
    contains_chars, contains_seq, extend_chars, from_chars, join_chars, join_seq, lowercase,
    lowercase_of, to_chars, views,
};
use vstd::prelude::*;

verus! {

/// The capability of an inference backend: given a text, the insight it
/// generates, or the reason why it could not.
pub trait AiService {
    fn generate_insights(&self, text: &str) -> Result<String, String>;
}

/// How a text reads.
#[derive(Debug, Clone, Copy, PartialEq, Eq, Structural)]
pub enum Sentiment {
    Positive,
    Negative,
    Neutral,
}

impl Sentiment {
    /// The word under which the sentiment is stored.
    pub open spec fn label_of(self) -> Seq<char> {
        match self {
            Sentiment::Positive => "positive"@,
            Sentiment::Negative => "negative"@,
            Sentiment::Neutral => "neutral"@,
        }
    }

    /// The word under which the sentiment is stored.
    pub fn label(&self) -> (r: String)
        ensures
            r@ == self.label_of(),
    {
        match self {
            Sentiment::Positive => "positive".to_owned(),
            Sentiment::Negative => "negative".to_owned(),
            Sentiment::Neutral => "neutral".to_owned(),
        }
    }
}

/// `lowered` holds one of the words that make a text positive.
pub open spec fn has_positive_word(lowered: Seq<char>) -> bool {
    ||| contains_seq(lowered, "happy"@)
    ||| contains_seq(lowered, "good"@)
    ||| contains_seq(lowered, "great"@)
    ||| contains_seq(lowered, "excited"@)
}

/// `lowered` holds one of the words that make a text negative.
pub open spec fn has_negative_word(lowered: Seq<char>) -> bool {
    ||| contains_seq(lowered, "sad"@)
    ||| contains_seq(lowered, "bad"@)
    ||| contains_seq(lowered, "terrible"@)
    ||| contains_seq(lowered, "frustrated"@)
}

/// The sentiment of a lower-case text: positive where it holds a positive
/// word, else negative where it holds a negative one, else neutral.
pub open spec fn sentiment_of(lowered: Seq<char>) -> Sentiment {
    if has_positive_word(lowered) {
        Sentiment::Positive
    } else if has_negative_word(lowered) {
        Sentiment::Negative
    } else {
        Sentiment::Neutral
    }
}

/// The keywords that give a topic, each with its tag, in the order in which
/// the tags are listed.
pub open spec fn topic_table() -> Seq<(Seq<char>, Seq<char>)> {
    seq![
        ("rust"@, "rust"@),
        ("project"@, "project"@),
        ("bug"@, "debugging"@),
        ("learn"@, "learning"@),
        ("code"@, "coding"@),
        ("work"@, "work"@),
    ]
}

/// The tags of the first `n` rows of the table whose keyword `lowered` holds.
pub open spec fn matched_tags(lowered: Seq<char>, n: nat) -> Seq<Seq<char>>
    decreases n,
{
    if n == 0 {
        Seq::<Seq<char>>::empty()
    } else {
        let row = topic_table()[n - 1];
        let earlier = matched_tags(lowered, (n - 1) as nat);
        if contains_seq(lowered, row.0) {
            earlier.push(row.1)
        } else {
            earlier
        }
    }
}

/// `lowered` holds none of the topic keywords.
pub open spec fn has_no_topic_word(lowered: Seq<char>) -> bool {
    forall|i: int| 0 <= i < topic_table().len() ==> !contains_seq(lowered, #[trigger] topic_table()[i].0)
}

/// The topic tags of a lower-case text: the tag of every keyword that it
/// holds, in table order; where it holds none, the one tag `general`.
pub open spec fn topic_tags(lowered: Seq<char>) -> Seq<Seq<char>> {
    let matched = matched_tags(lowered, topic_table().len());
    if matched.len() == 0 {
        seq!["general"@]
    } else {
        matched
    }
}

/// What the analyzer says of a lower-case text: the word for its sentiment,
/// and its topic tags joined by commas.
pub open spec fn analysis_of(lowered: Seq<char>) -> (Seq<char>, Seq<char>) {
    (sentiment_of(lowered).label_of(), join_seq(topic_tags(lowered), ","@))
}

/// Positive words take precedence: a text with a positive word reads as
/// positive, whichever negative words it also holds.
pub proof fn lemma_positive_precedence(lowered: Seq<char>)
    requires
        has_positive_word(lowered),
    ensures
        sentiment_of(lowered) == Sentiment::Positive,
        analysis_of(lowered).0 == "positive"@,
{
}

/// Matches only add tags: without a keyword among the first `n` rows there
/// is no tag from them.
proof fn lemma_no_match_no_tag(lowered: Seq<char>, n: nat)
    requires
        n <= topic_table().len(),
        has_no_topic_word(lowered),
    ensures
        matched_tags(lowered, n).len() == 0,
    decreases n,
{
    if n > 0 {
        lemma_no_match_no_tag(lowered, (n - 1) as nat);
        assert(!contains_seq(lowered, topic_table()[n - 1].0));
    }
}

/// The default tag: a text that holds none of the topic keywords has exactly
/// the one tag `general`.
pub proof fn lemma_default_tag(lowered: Seq<char>)
    requires
        has_no_topic_word(lowered),
    ensures
        topic_tags(lowered) == seq!["general"@],
        analysis_of(lowered).1 == "general"@,
{
    lemma_no_match_no_tag(lowered, topic_table().len());
    let tags = seq!["general"@];
    assert(tags.len() == 1);
    assert(join_seq(tags, ","@) == tags[0]);
}

/// The tags of the first `n` rows of the table.
pub open spec fn table_tags(n: nat) -> Set<Seq<char>> {
    Set::new(|tag: Seq<char>| exists|i: int| 0 <= i < n && #[trigger] topic_table()[i].1 == tag)
}

/// No two rows of the table give the same tag.
proof fn lemma_table_tags_differ()
    ensures
        forall|i: int, j: int|
            0 <= i < j < topic_table().len() ==> (#[trigger] topic_table()[i]).1
                != (#[trigger] topic_table()[j]).1,
        forall|i: int| 0 <= i < topic_table().len() ==> (#[trigger] topic_table()[i]).1 != "general"@,
{
    reveal_strlit("rust");
    reveal_strlit("project");
    reveal_strlit("debugging");
    reveal_strlit("learning");
    reveal_strlit("coding");
    reveal_strlit("work");
    reveal_strlit("general");
    let t = topic_table();
    assert(t[0].1[0] == 'r');
    assert(t[1].1[0] == 'p');
    assert(t[2].1[0] == 'd');
    assert(t[3].1[0] == 'l');
    assert(t[4].1[0] == 'c');
    assert(t[5].1[0] == 'w');
    assert("general"@[0] == 'g');
}

/// What is matched among the first `n` rows comes from those rows, and no
/// tag comes twice.
proof fn lemma_matched_tags_unique(lowered: Seq<char>, n: nat)
    requires
        n <= topic_table().len(),
    ensures
        matched_tags(lowered, n).no_duplicates(),
        forall|k: int|
            0 <= k < matched_tags(lowered, n).len() ==> table_tags(n).contains(
                #[trigger] matched_tags(lowered, n)[k],
            ),
    decreases n,
{
    if n > 0 {
        let earlier = matched_tags(lowered, (n - 1) as nat);
        lemma_matched_tags_unique(lowered, (n - 1) as nat);
        lemma_table_tags_differ();
        let row = topic_table()[n - 1];
        assert forall|k: int| 0 <= k < earlier.len() implies earlier[k] != row.1 by {
            assert(table_tags((n - 1) as nat).contains(earlier[k]));
            let i = choose|i: int| 0 <= i < n - 1 && #[trigger] topic_table()[i].1 == earlier[k];
            assert(topic_table()[i].1 != topic_table()[n - 1].1);
        }
        assert forall|k: int| 0 <= k < matched_tags(lowered, n).len() implies table_tags(
            n,
        ).contains(#[trigger] matched_tags(lowered, n)[k]) by {
            let tag = matched_tags(lowered, n)[k];
            if k < earlier.len() {
                assert(table_tags((n - 1) as nat).contains(earlier[k]));
                let i = choose|i: int|
                    0 <= i < n - 1 && #[trigger] topic_table()[i].1 == earlier[k];
                assert(topic_table()[i].1 == tag);
            } else {
                assert(topic_table()[n - 1].1 == tag);
            }
        }
    }
}

/// The topic tags of a text are a list without repetitions, and never empty.
pub proof fn lemma_topic_tags_unique(lowered: Seq<char>)
    ensures
        topic_tags(lowered).len() >= 1,
        topic_tags(lowered).no_duplicates(),
{
    lemma_matched_tags_unique(lowered, topic_table().len());
}

/// Whether `lowered` holds `word`.
fn holds_word(lowered: &Vec<char>, word: &str) -> (r: bool)
    ensures
        r == contains_seq(lowered@, word@),
{
    contains_chars(lowered, &to_chars(word))
}

/// The sentiment of a text that is already in lower case.
pub fn classify_sentiment(lowered: &str) -> (r: Sentiment)
    ensures
        r == sentiment_of(lowered@),
{
    let text = to_chars(lowered);
    if holds_word(&text, "happy") || holds_word(&text, "good") || holds_word(&text, "great")
        || holds_word(&text, "excited") {
        Sentiment::Positive
    } else if holds_word(&text, "sad") || holds_word(&text, "bad") || holds_word(&text, "terrible")
        || holds_word(&text, "frustrated") {
        Sentiment::Negative
    } else {
        Sentiment::Neutral
    }
}

/// The keywords and tags of the topic table.
fn topic_rows() -> (rows: Vec<(&'static str, &'static str)>)
    ensures
        rows@.len() == topic_table().len(),
        forall|i: int|
            0 <= i < rows@.len() ==> (#[trigger] rows@[i]).0@ == topic_table()[i].0 && rows@[i].1@
                == topic_table()[i].1,
{
    vec![
        ("rust", "rust"),
        ("project", "project"),
        ("bug", "debugging"),
        ("learn", "learning"),
        ("code", "coding"),
        ("work", "work"),
    ]
}

/// The topic tags of a text that is already in lower case.
pub fn derive_topic_tags(lowered: &str) -> (tags: Vec<Vec<char>>)
    ensures
        views(tags@) == topic_tags(lowered@),
{
    let text = to_chars(lowered);
    let rows = topic_rows();
    let mut tags: Vec<Vec<char>> = Vec::new();
    let mut i: usize = 0;
    assert(views(tags@) =~= matched_tags(lowered@, 0));
    while i < rows.len()
        invariant
            i <= rows.len(),
            text@ == lowered@,
            rows@.len() == topic_table().len(),
            forall|k: int|
                0 <= k < rows@.len() ==> (#[trigger] rows@[k]).0@ == topic_table()[k].0
                    && rows@[k].1@ == topic_table()[k].1,
            views(tags@) == matched_tags(lowered@, i as nat),
        decreases rows.len() - i,
    {
        let row = rows[i];
        assert(row == rows@[i as int]);
        if holds_word(&text, row.0) {
            let ghost before = views(tags@);
            tags.push(to_chars(row.1));
            assert(views(tags@) =~= before.push(row.1@));
        }
        i += 1;
    }
    if tags.len() == 0 {
        tags.push(to_chars("general"));
        assert(views(tags@) =~= seq!["general"@]);
    }
    tags
}

/// Analyzes a text that is already in lower case: the word for its
/// sentiment, and its topic tags joined by commas.
pub fn analyze_lowered(lowered: &str) -> (r: (String, String))
    ensures
        (r.0@, r.1@) == analysis_of(lowered@),
{
    let sentiment = classify_sentiment(lowered).label();
    let tags = derive_topic_tags(lowered);
    let joined = from_chars(&join_chars(&tags, &to_chars(",")));
    (sentiment, joined)
}

/// The insight that the analyzer words from a lower-case text: its
/// sentiment and its topics, as `sentiment: positive; topics: rust,work`.
pub open spec fn insight_of(lowered: Seq<char>) -> Seq<char> {
    "sentiment: "@ + analysis_of(lowered).0 + "; topics: "@ + analysis_of(lowered).1
}

/// The keyword-matching analyzer as an inference backend. It needs no
/// state and never fails.
#[derive(Debug, Clone, Copy)]
pub struct HeuristicAnalyzer;

impl AiService for HeuristicAnalyzer {
    /// Words the sentiment and the topics of `text` as one line.
    fn generate_insights(&self, text: &str) -> (r: Result<String, String>)
        ensures
            r matches Ok(insight) && insight@ == insight_of(lowercase_of(text@)),
    {
        let (sentiment, topics) = call_journal_ai(text);
        let mut out = to_chars("sentiment: ");
        extend_chars(&mut out, &to_chars(sentiment.as_str()));
        extend_chars(&mut out, &to_chars("; topics: "));
        extend_chars(&mut out, &to_chars(topics.as_str()));
        Ok(from_chars(&out))
    }
}

/// Analyzes a journal text, whatever its case: the word for its sentiment
/// (`positive`, `negative` or `neutral`), and its topic tags joined by
/// commas. Both are read off the lower-case form of the text.
pub fn call_journal_ai(entry_text: &str) -> (r: (String, String))
    ensures
        (r.0@, r.1@) == analysis_of(lowercase_of(entry_text@)),
{
    let lowered = lowercase(entry_text);
    analyze_lowered(lowered.as_str())
}

} // verus!
