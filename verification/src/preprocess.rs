//! Framing of free text before it is stored.
//!
//! For an allow-listed language tag every single quote is doubled and the
//! result is put between a line of three quotes above and one below. Any
//! other tag is rejected.

use crate::text::{extend_chars, from_chars, same_text, to_chars};
use vstd::prelude::*;

verus! {

/// What one character becomes: a single quote is doubled, any other
/// character stays.
pub open spec fn escape_char(c: char) -> Seq<char> {
    if c == '\'' {
        seq!['\'', '\'']
    } else {
        seq![c]
    }
}

/// `s` with every single quote doubled.
pub open spec fn escape_quotes(s: Seq<char>) -> Seq<char>
    decreases s.len(),
{
    if s.len() == 0 {
        Seq::<char>::empty()
    } else {
        escape_quotes(s.drop_last()) + escape_char(s.last())
    }
}

/// The opening delimiter: three quotes and a line break.
pub open spec fn frame_open() -> Seq<char> {
    seq!['\'', '\'', '\'', '\n']
}

/// The closing delimiter: a line break and three quotes.
pub open spec fn frame_close() -> Seq<char> {
    seq!['\n', '\'', '\'', '\'']
}

/// The stored form of `s`: escaped, between the two delimiters.
pub open spec fn framed(s: Seq<char>) -> Seq<char> {
    frame_open() + escape_quotes(s) + frame_close()
}

/// `s` without its first four and last four characters, the delimiters of a
/// framed text.
pub open spec fn unframed(s: Seq<char>) -> Seq<char> {
    s.subrange(4, s.len() - 4)
}

/// `s` with every doubled quote made single again, read from the left.
pub open spec fn unescape_quotes(s: Seq<char>) -> Seq<char>
    decreases s.len(),
{
    if s.len() == 0 {
        Seq::<char>::empty()
    } else if s.len() >= 2 && s[0] == '\'' && s[1] == '\'' {
        seq!['\''] + unescape_quotes(s.subrange(2, s.len() as int))
    } else {
        seq![s[0]] + unescape_quotes(s.drop_first())
    }
}

/// The language tags whose text is framed: `rust`, `ts` and `js`.
pub open spec fn is_supported_language(tag: Seq<char>) -> bool {
    tag == "rust"@ || tag == "ts"@ || tag == "js"@
}

/// Escaping works from the left as it does from the right.
pub proof fn lemma_escape_front(s: Seq<char>)
    requires
        s.len() > 0,
    ensures
        escape_quotes(s) == escape_char(s[0]) + escape_quotes(s.drop_first()),
    decreases s.len(),
{
    if s.len() == 1 {
        assert(s.drop_last() =~= Seq::<char>::empty());
        assert(s.drop_first() =~= Seq::<char>::empty());
        assert(escape_quotes(s) =~= escape_char(s[0]) + escape_quotes(s.drop_first()));
    } else {
        let init = s.drop_last();
        lemma_escape_front(init);
        assert(init.drop_first() =~= s.drop_first().drop_last());
        assert(escape_quotes(s) =~= escape_char(s[0]) + escape_quotes(s.drop_first()));
    }
}

/// Un-escaping undoes escaping.
pub proof fn lemma_unescape_escape(s: Seq<char>)
    ensures
        unescape_quotes(escape_quotes(s)) == s,
    decreases s.len(),
{
    if s.len() > 0 {
        let rest = s.drop_first();
        let e = escape_quotes(s);
        lemma_escape_front(s);
        lemma_unescape_escape(rest);
        if s[0] == '\'' {
            assert(e.subrange(2, e.len() as int) =~= escape_quotes(rest));
        } else {
            assert(e.drop_first() =~= escape_quotes(rest));
        }
        assert(seq![s[0]] + rest =~= s);
    }
}

/// Round trip: for every text, taking the delimiters off its framed form and
/// making the doubled quotes single again gives the text back exactly.
pub proof fn lemma_frame_round_trip(text: Seq<char>)
    ensures
        framed(text).len() >= 8,
        starts_with_frame(framed(text)),
        unescape_quotes(unframed(framed(text))) == text,
{
    lemma_unescape_escape(text);
    assert(unframed(framed(text)) =~= escape_quotes(text));
    assert(framed(text).subrange(0, 4) =~= frame_open());
    assert(framed(text).subrange(framed(text).len() - 4, framed(text).len() as int)
        =~= frame_close());
}

/// `s` begins with the opening delimiter and ends with the closing one.
pub open spec fn starts_with_frame(s: Seq<char>) -> bool {
    &&& s.len() >= 8
    &&& s.subrange(0, 4) == frame_open()
    &&& s.subrange(s.len() - 4, s.len() as int) == frame_close()
}

/// The stored form of `text`: every single quote doubled, between the two
/// delimiters.
pub fn frame_text(text: &str) -> (r: String)
    ensures
        r@ == framed(text@),
{
    let chars = to_chars(text);
    let mut out = to_chars("'''\n");
    proof {
        reveal_strlit("'''\n");
        reveal_strlit("\n'''");
        assert(out@ =~= frame_open());
        assert(chars@.take(0) =~= Seq::<char>::empty());
        assert(out@ =~= frame_open() + escape_quotes(chars@.take(0)));
    }
    let mut i: usize = 0;
    while i < chars.len()
        invariant
            i <= chars.len(),
            out@ == frame_open() + escape_quotes(chars@.take(i as int)),
        decreases chars.len() - i,
    {
        let c = chars[i];
        proof {
            assert(chars@.take(i + 1).drop_last() =~= chars@.take(i as int));
            assert(chars@.take(i + 1).last() == c);
        }
        let ghost before = out@;
        if c == '\'' {
            out.push('\'');
            out.push('\'');
        } else {
            out.push(c);
        }
        assert(out@ =~= before + escape_char(c));
        assert(out@ =~= frame_open() + escape_quotes(chars@.take(i + 1)));
        i += 1;
    }
    assert(chars@.take(chars@.len() as int) =~= chars@);
    let close = to_chars("\n'''");
    assert(close@ =~= frame_close());
    extend_chars(&mut out, &close);
    from_chars(&out)
}

/// Frames `code` where `language` is one of `rust`, `ts` and `js`, and
/// rejects every other tag with the message `Unsupported language.`.
pub fn preprocess_code(code: &str, language: &str) -> (r: Result<String, String>)
    ensures
        is_supported_language(language@) ==> (r matches Ok(s) && s@ == framed(code@)),
        !is_supported_language(language@) ==> (r matches Err(m) && m@
            == "Unsupported language."@),
{
    if same_text(language, "rust") || same_text(language, "ts") || same_text(language, "js") {
        Ok(frame_text(code))
    } else {
        Err("Unsupported language.".to_owned())
    }
}

} // verus!
