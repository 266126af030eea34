//! Summary statistics over journal entries: how many read as positive,
//! negative or neutral, and which topics they were tagged with.

use crate::models::{JournalEntry, JournalSummary};
use crate::text::{
    distinct_seq, from_chars, holds_chars, join_chars, join_seq, lemma_distinct, same_text,
    split_chars, split_seq, to_chars, trim_chars, trim_seq, views,
};
use vstd::prelude::*;

verus! {

/// The most topics that a summary lists.
pub const MAX_TOPICS: usize = 5;

/// `entry` carries the sentiment `label`.
pub open spec fn has_sentiment(entry: JournalEntry, label: Seq<char>) -> bool {
    entry.sentiment matches Some(s) && s@ == label
}

/// How many of `entries` carry the sentiment `label`.
pub open spec fn count_with(entries: Seq<JournalEntry>, label: Seq<char>) -> nat
    decreases entries.len(),
{
    if entries.len() == 0 {
        0
    } else {
        count_with(entries.drop_last(), label) + if has_sentiment(entries.last(), label) {
            1nat
        } else {
            0nat
        }
    }
}

/// Each item of `parts` without its leading and trailing white space.
pub open spec fn trimmed(parts: Seq<Seq<char>>) -> Seq<Seq<char>> {
    parts.map_values(|p: Seq<char>| trim_seq(p))
}

/// The topic tags of one entry: its `ai_tags` split at commas, each piece
/// trimmed. An entry without `ai_tags` has none.
pub open spec fn entry_tags(entry: JournalEntry) -> Seq<Seq<char>> {
    match entry.ai_tags {
        Some(t) => trimmed(split_seq(t@, ',')),
        None => Seq::<Seq<char>>::empty(),
    }
}

/// The topic tags of all `entries`, entry after entry.
pub open spec fn all_tags(entries: Seq<JournalEntry>) -> Seq<Seq<char>>
    decreases entries.len(),
{
    if entries.len() == 0 {
        Seq::<Seq<char>>::empty()
    } else {
        all_tags(entries.drop_last()) + entry_tags(entries.last())
    }
}

/// The topics that a summary lists: the distinct tags in the order in which
/// they first appear, cut off after the first five.
pub open spec fn top_topics(entries: Seq<JournalEntry>) -> Seq<Seq<char>> {
    let distinct = distinct_seq(all_tags(entries));
    if distinct.len() <= MAX_TOPICS {
        distinct
    } else {
        distinct.take(MAX_TOPICS as int)
    }
}

/// The listed topics as one text, separated by a comma and a space.
pub open spec fn common_topics_of(entries: Seq<JournalEntry>) -> Seq<char> {
    join_seq(top_topics(entries), ", "@)
}

/// A summary never lists more than five topics, however many entries and
/// tags there are; it lists none twice, and only tags that some entry has.
pub proof fn lemma_topics_bounded(entries: Seq<JournalEntry>)
    ensures
        top_topics(entries).len() <= 5,
        top_topics(entries).no_duplicates(),
        forall|t: Seq<char>| top_topics(entries).contains(t) ==> all_tags(entries).contains(t),
{
    let distinct = distinct_seq(all_tags(entries));
    lemma_distinct(all_tags(entries));
    assert forall|t: Seq<char>| top_topics(entries).contains(t) implies all_tags(entries).contains(
        t,
    ) by {
        let j = choose|j: int| 0 <= j < top_topics(entries).len() && top_topics(entries)[j] == t;
        assert(distinct[j] == t);
    }
}

/// The tags of one entry, trimmed: its `ai_tags` split at commas.
fn tags_of(entry: &JournalEntry) -> (r: Vec<Vec<char>>)
    ensures
        views(r@) == entry_tags(*entry),
{
    let mut out: Vec<Vec<char>> = Vec::new();
    match &entry.ai_tags {
        None => {
            assert(views(out@) =~= entry_tags(*entry));
        },
        Some(t) => {
            let pieces = split_chars(&to_chars(t.as_str()), ',');
            let ghost parts = split_seq(t@, ',');
            let mut k: usize = 0;
            assert(views(out@) =~= trimmed(parts).take(0));
            while k < pieces.len()
                invariant
                    k <= pieces.len(),
                    views(pieces@) == parts,
                    views(out@) == trimmed(parts).take(k as int),
                decreases pieces.len() - k,
            {
                let piece = trim_chars(&pieces[k]);
                assert(views(pieces@)[k as int] == pieces@[k as int]@);
                let ghost before = views(out@);
                out.push(piece);
                assert(views(out@) =~= before.push(trim_seq(parts[k as int])));
                assert(trimmed(parts).take(k + 1) =~= trimmed(parts).take(k as int).push(
                    trim_seq(parts[k as int]),
                ));
                k += 1;
            }
            assert(trimmed(parts).take(parts.len() as int) =~= trimmed(parts));
        },
    }
    out
}

/// Counts `entries` by sentiment and lists their topics.
///
/// An entry counts as positive or negative where its sentiment is exactly
/// `positive` or `negative`, and as neutral otherwise, also where it has
/// none. The topics are the distinct tags of all entries in the order in
/// which they first appear, at most five of them, joined by `", "`.
pub fn summarize_journal_entries(entries: &Vec<JournalEntry>) -> (summary: JournalSummary)
    ensures
        summary.total_entries == entries.len(),
        summary.positive_count == count_with(entries@, "positive"@),
        summary.negative_count == count_with(entries@, "negative"@),
        summary.neutral_count == entries.len() - count_with(entries@, "positive"@) - count_with(
            entries@,
            "negative"@,
        ),
        summary.common_topics@ == common_topics_of(entries@),
        top_topics(entries@).len() <= MAX_TOPICS,
{
    let mut positive_count: usize = 0;
    let mut negative_count: usize = 0;
    let mut neutral_count: usize = 0;
    let mut seen: Vec<Vec<char>> = Vec::new();
    let mut i: usize = 0;
    proof {
        reveal_strlit("positive");
        reveal_strlit("negative");
        assert("positive"@ != "negative"@) by {
            assert("positive"@[0] != "negative"@[0]);
        }
        assert(entries@.take(0) =~= Seq::<JournalEntry>::empty());
        assert(views(seen@) =~= distinct_seq(all_tags(entries@.take(0))));
    }
    while i < entries.len()
        invariant
            i <= entries.len(),
            "positive"@ != "negative"@,
            positive_count == count_with(entries@.take(i as int), "positive"@),
            negative_count == count_with(entries@.take(i as int), "negative"@),
            positive_count + negative_count + neutral_count == i,
            views(seen@) == distinct_seq(all_tags(entries@.take(i as int))),
        decreases entries.len() - i,
    {
        let entry = &entries[i];
        let ghost upto = entries@.take(i + 1);
        proof {
            assert(upto.drop_last() =~= entries@.take(i as int));
            assert(upto.last() == *entry);
        }
        let is_positive = match &entry.sentiment {
            Some(s) => same_text(s.as_str(), "positive"),
            None => false,
        };
        let is_negative = match &entry.sentiment {
            Some(s) => same_text(s.as_str(), "negative"),
            None => false,
        };
        if is_positive {
            positive_count += 1;
        } else if is_negative {
            negative_count += 1;
        } else {
            neutral_count += 1;
        }
        let tags = tags_of(entry);
        let ghost earlier = all_tags(entries@.take(i as int));
        let mut k: usize = 0;
        assert(earlier + views(tags@).take(0) =~= earlier);
        while k < tags.len()
            invariant
                k <= tags.len(),
                views(seen@) == distinct_seq(earlier + views(tags@).take(k as int)),
            decreases tags.len() - k,
        {
            let ghost sofar = earlier + views(tags@).take(k as int);
            let ghost next = earlier + views(tags@).take(k + 1);
            proof {
                assert(views(tags@)[k as int] == tags@[k as int]@);
                assert(next.drop_last() =~= sofar);
                assert(next.last() == tags@[k as int]@);
            }
            if !holds_chars(&seen, &tags[k]) {
                let ghost before = views(seen@);
                seen.push(tags[k].clone());
                assert(views(seen@) =~= before.push(tags@[k as int]@));
            }
            k += 1;
        }
        proof {
            assert(views(tags@).take(tags@.len() as int) =~= views(tags@));
            assert(all_tags(upto) == earlier + entry_tags(*entry));
        }
        i += 1;
    }
    assert(entries@.take(entries@.len() as int) =~= entries@);
    let mut listed: Vec<Vec<char>> = Vec::new();
    let mut k: usize = 0;
    assert(views(listed@) =~= views(seen@).take(0));
    while k < seen.len() && k < MAX_TOPICS
        invariant
            k <= seen.len(),
            k <= MAX_TOPICS,
            views(listed@) == views(seen@).take(k as int),
        decreases seen.len() - k,
    {
        let ghost before = views(listed@);
        listed.push(seen[k].clone());
        assert(views(seen@)[k as int] == seen@[k as int]@);
        assert(views(listed@) =~= before.push(seen@[k as int]@));
        assert(views(seen@).take(k + 1) =~= views(seen@).take(k as int).push(seen@[k as int]@));
        k += 1;
    }
    proof {
        if seen.len() <= MAX_TOPICS {
            assert(views(seen@).take(seen@.len() as int) =~= views(seen@));
        }
        assert(views(listed@) == top_topics(entries@));
    }
    let common_topics = from_chars(&join_chars(&listed, &to_chars(", ")));
    JournalSummary {
        total_entries: entries.len(),
        positive_count,
        negative_count,
        neutral_count,
        common_topics,
    }
}

} // verus!
