//! Character-sequence operations that the rest of the library is stated over.
//!
//! A string's view is its sequence of `char`s. Everything here works on that
//! sequence, held at run time as a `Vec<char>`.

use vstd::prelude::*;

verus! {

/// The characters of `s`, in order.
pub fn to_chars(s: &str) -> (v: Vec<char>)
    ensures
        v@ == s@,
{
    broadcast use vstd::string::group_string_axioms;

    let mut v: Vec<char> = Vec::new();
    for c in it: s.chars()
        invariant
            it.seq() == s@,
            v@ == s@.take(it.index()),
    {
        assert(s@.take(it.index() + 1) =~= s@.take(it.index()).push(c));
        v.push(c);
    }
    assert(s@.take(s@.len() as int) =~= s@);
    v
}

/// `String::push`: appends the one character `c` to `s`.
#[verifier::external_body]
fn push_char(s: &mut String, c: char)
    ensures
        final(s)@ == old(s)@.push(c),
{
    s.push(c)
}

/// The string whose characters are `v`.
pub fn from_chars(v: &Vec<char>) -> (s: String)
    ensures
        s@ == v@,
{
    let mut s = String::new();
    let mut i: usize = 0;
    while i < v.len()
        invariant
            i <= v.len(),
            s@ == v@.take(i as int),
        decreases v.len() - i,
    {
        assert(v@.take(i + 1) =~= v@.take(i as int).push(v@[i as int]));
        push_char(&mut s, v[i]);
        i += 1;
    }
    assert(v@.take(v@.len() as int) =~= v@);
    s
}

/// Whether two character sequences are the same.
pub fn same_chars(a: &Vec<char>, b: &Vec<char>) -> (r: bool)
    ensures
        r == (a@ == b@),
{
    if a.len() != b.len() {
        return false;
    }
    let mut i: usize = 0;
    while i < a.len()
        invariant
            i <= a.len(),
            a.len() == b.len(),
            a@.take(i as int) == b@.take(i as int),
        decreases a.len() - i,
    {
        if a[i] != b[i] {
            return false;
        }
        assert(a@.take(i + 1) =~= a@.take(i as int).push(a@[i as int]));
        assert(b@.take(i + 1) =~= b@.take(i as int).push(b@[i as int]));
        i += 1;
    }
    assert(a@.take(a@.len() as int) =~= a@);
    assert(b@.take(b@.len() as int) =~= b@);
    true
}

/// Whether two strings hold the same characters.
pub fn same_text(a: &str, b: &str) -> (r: bool)
    ensures
        r == (a@ == b@),
{
    let x = to_chars(a);
    let y = to_chars(b);
    same_chars(&x, &y)
}

/// `word` stands in `text` at position `i`.
pub open spec fn occurs_at(text: Seq<char>, word: Seq<char>, i: int) -> bool {
    &&& 0 <= i
    &&& i + word.len() <= text.len()
    &&& text.subrange(i, i + word.len()) == word
}

/// `word` stands somewhere in `text`. The empty word stands in every text.
pub open spec fn contains_seq(text: Seq<char>, word: Seq<char>) -> bool {
    exists|i: int| occurs_at(text, word, i)
}

/// `text` begins with `prefix`.
pub open spec fn starts_with_seq(text: Seq<char>, prefix: Seq<char>) -> bool {
    occurs_at(text, prefix, 0)
}

/// Whether `word` stands in `text` at position `i`.
pub fn matches_at(text: &Vec<char>, word: &Vec<char>, i: usize) -> (r: bool)
    ensures
        r == occurs_at(text@, word@, i as int),
{
    if word.len() > text.len() || i > text.len() - word.len() {
        return false;
    }
    let mut k: usize = 0;
    while k < word.len()
        invariant
            k <= word.len(),
            i + word.len() <= text.len(),
            text@.subrange(i as int, i + k) == word@.take(k as int),
        decreases word.len() - k,
    {
        if text[i + k] != word[k] {
            proof {
                let w = text@.subrange(i as int, i + word.len());
                assert(w[k as int] == text@[i + k]);
            }
            return false;
        }
        assert(text@.subrange(i as int, i + k + 1) =~= text@.subrange(i as int, i + k).push(
            text@[i + k],
        ));
        assert(word@.take(k + 1) =~= word@.take(k as int).push(word@[k as int]));
        k += 1;
    }
    assert(word@.take(word@.len() as int) =~= word@);
    true
}

/// Whether `word` stands somewhere in `text`.
pub fn contains_chars(text: &Vec<char>, word: &Vec<char>) -> (r: bool)
    ensures
        r == contains_seq(text@, word@),
{
    if word.len() > text.len() {
        return false;
    }
    let last: usize = text.len() - word.len();
    let mut i: usize = 0;
    while i < last
        invariant
            i <= last,
            last == text.len() - word.len(),
            forall|j: int| 0 <= j < i ==> !occurs_at(text@, word@, j),
        decreases last - i,
    {
        if matches_at(text, word, i) {
            return true;
        }
        i += 1;
    }
    matches_at(text, word, last)
}

/// Whether `text` begins with `prefix`.
pub fn starts_with_chars(text: &Vec<char>, prefix: &Vec<char>) -> (r: bool)
    ensures
        r == starts_with_seq(text@, prefix@),
{
    matches_at(text, prefix, 0)
}

/// The lower-case form of a text, as `str::to_lowercase` gives it.
pub uninterp spec fn lowercase_of(s: Seq<char>) -> Seq<char>;

/// `str::to_lowercase`: the lower-case form of `s` by Unicode's rules, which
/// depends on the characters of `s` alone.
#[verifier::external_body]
pub(crate) fn lowercase(s: &str) -> (r: String)
    ensures
        r@ == lowercase_of(s@),
{
    s.to_lowercase()
}

/// Unicode's `White_Space` property: the characters that trimming removes.
pub open spec fn is_white_space(c: char) -> bool {
    let n = c as u32;
    ||| 0x09 <= n <= 0x0D
    ||| n == 0x20
    ||| n == 0x85
    ||| n == 0xA0
    ||| n == 0x1680
    ||| 0x2000 <= n <= 0x200A
    ||| n == 0x2028
    ||| n == 0x2029
    ||| n == 0x202F
    ||| n == 0x205F
    ||| n == 0x3000
}

/// Whether `c` is white space.
pub fn is_whitespace_char(c: char) -> (r: bool)
    ensures
        r == is_white_space(c),
{
    let n: u32 = c as u32;
    (0x09 <= n && n <= 0x0D) || n == 0x20 || n == 0x85 || n == 0xA0 || n == 0x1680 || (0x2000 <= n
        && n <= 0x200A) || n == 0x2028 || n == 0x2029 || n == 0x202F || n == 0x205F || n == 0x3000
}

/// `s` without its leading white space.
pub open spec fn trim_start_seq(s: Seq<char>) -> Seq<char>
    decreases s.len(),
{
    if s.len() > 0 && is_white_space(s[0]) {
        trim_start_seq(s.drop_first())
    } else {
        s
    }
}

/// `s` without its trailing white space.
pub open spec fn trim_end_seq(s: Seq<char>) -> Seq<char>
    decreases s.len(),
{
    if s.len() > 0 && is_white_space(s.last()) {
        trim_end_seq(s.drop_last())
    } else {
        s
    }
}

/// `s` without leading and trailing white space.
pub open spec fn trim_seq(s: Seq<char>) -> Seq<char> {
    trim_end_seq(trim_start_seq(s))
}

/// The characters of `v` from position `from` up to, not including, `to`.
pub fn slice_chars(v: &Vec<char>, from: usize, to: usize) -> (r: Vec<char>)
    requires
        from <= to <= v.len(),
    ensures
        r@ == v@.subrange(from as int, to as int),
{
    let mut r: Vec<char> = Vec::new();
    let mut i: usize = from;
    while i < to
        invariant
            from <= i <= to <= v.len(),
            r@ == v@.subrange(from as int, i as int),
        decreases to - i,
    {
        assert(v@.subrange(from as int, i + 1) =~= v@.subrange(from as int, i as int).push(
            v@[i as int],
        ));
        r.push(v[i]);
        i += 1;
    }
    r
}

/// `v` without leading and trailing white space.
pub fn trim_chars(v: &Vec<char>) -> (r: Vec<char>)
    ensures
        r@ == trim_seq(v@),
{
    let n: usize = v.len();
    let mut a: usize = 0;
    assert(v@.subrange(0, n as int) =~= v@);
    while a < n && is_whitespace_char(v[a])
        invariant
            a <= n,
            n == v.len(),
            trim_start_seq(v@) == trim_start_seq(v@.subrange(a as int, n as int)),
        decreases n - a,
    {
        assert(v@.subrange(a as int, n as int).drop_first() =~= v@.subrange(a + 1, n as int));
        a += 1;
    }
    let mut b: usize = n;
    while b > a && is_whitespace_char(v[b - 1])
        invariant
            a <= b <= n,
            n == v.len(),
            trim_start_seq(v@) == v@.subrange(a as int, n as int),
            trim_seq(v@) == trim_end_seq(v@.subrange(a as int, b as int)),
        decreases b - a,
    {
        assert(v@.subrange(a as int, b as int).drop_last() =~= v@.subrange(a as int, b - 1));
        b -= 1;
    }
    slice_chars(v, a, b)
}

/// The view of each item of `items`.
pub open spec fn views(items: Seq<Vec<char>>) -> Seq<Seq<char>> {
    items.map_values(|v: Vec<char>| v@)
}

/// The pieces of `s` between occurrences of `sep`. A text without `sep` is
/// one piece, and so is the empty text; `n` occurrences give `n + 1` pieces.
pub open spec fn split_seq(s: Seq<char>, sep: char) -> Seq<Seq<char>>
    decreases s.len(),
{
    if s.len() == 0 {
        seq![Seq::<char>::empty()]
    } else {
        let head = split_seq(s.drop_last(), sep);
        if s.last() == sep {
            head.push(Seq::<char>::empty())
        } else {
            head.drop_last().push(head.last().push(s.last()))
        }
    }
}

/// The pieces of `v` between occurrences of `sep`.
pub fn split_chars(v: &Vec<char>, sep: char) -> (r: Vec<Vec<char>>)
    ensures
        views(r@) == split_seq(v@, sep),
{
    let mut done: Vec<Vec<char>> = Vec::new();
    let mut piece: Vec<char> = Vec::new();
    let mut i: usize = 0;
    assert(v@.take(0) =~= Seq::<char>::empty());
    assert(views(done@).push(piece@) =~= seq![Seq::<char>::empty()]);
    while i < v.len()
        invariant
            i <= v.len(),
            views(done@).push(piece@) == split_seq(v@.take(i as int), sep),
        decreases v.len() - i,
    {
        let c = v[i];
        let ghost before = views(done@).push(piece@);
        assert(v@.take(i + 1).drop_last() =~= v@.take(i as int));
        assert(v@.take(i + 1).last() == c);
        if c == sep {
            done.push(piece);
            piece = Vec::new();
            assert(views(done@) =~= before);
        } else {
            piece.push(c);
            assert(views(done@).push(piece@) =~= before.drop_last().push(before.last().push(c)));
        }
        i += 1;
    }
    assert(v@.take(v@.len() as int) =~= v@);
    let ghost all = views(done@).push(piece@);
    done.push(piece);
    assert(views(done@) =~= all);
    done
}

/// The items of `parts` in order, with `sep` between each two.
pub open spec fn join_seq(parts: Seq<Seq<char>>, sep: Seq<char>) -> Seq<char>
    decreases parts.len(),
{
    if parts.len() == 0 {
        Seq::<char>::empty()
    } else if parts.len() == 1 {
        parts[0]
    } else {
        join_seq(parts.drop_last(), sep) + sep + parts.last()
    }
}

/// Appends the characters of `more` to `v`.
pub fn extend_chars(v: &mut Vec<char>, more: &Vec<char>)
    ensures
        final(v)@ == old(v)@ + more@,
{
    let mut i: usize = 0;
    assert(more@.take(0) =~= Seq::<char>::empty());
    assert(v@ =~= old(v)@ + more@.take(0));
    while i < more.len()
        invariant
            i <= more.len(),
            v@ == old(v)@ + more@.take(i as int),
        decreases more.len() - i,
    {
        assert(old(v)@ + more@.take(i + 1) =~= (old(v)@ + more@.take(i as int)).push(
            more@[i as int],
        ));
        v.push(more[i]);
        i += 1;
    }
    assert(more@.take(more@.len() as int) =~= more@);
}

/// The items of `parts` in order, with `sep` between each two.
pub fn join_chars(parts: &Vec<Vec<char>>, sep: &Vec<char>) -> (r: Vec<char>)
    ensures
        r@ == join_seq(views(parts@), sep@),
{
    let mut r: Vec<char> = Vec::new();
    let mut i: usize = 0;
    assert(views(parts@).take(0) =~= Seq::<Seq<char>>::empty());
    while i < parts.len()
        invariant
            i <= parts.len(),
            r@ == join_seq(views(parts@).take(i as int), sep@),
        decreases parts.len() - i,
    {
        let ghost upto = views(parts@).take(i + 1);
        assert(upto.drop_last() =~= views(parts@).take(i as int));
        assert(upto.last() == parts@[i as int]@);
        if i > 0 {
            extend_chars(&mut r, sep);
        }
        extend_chars(&mut r, &parts[i]);
        assert(r@ =~= join_seq(upto, sep@));
        i += 1;
    }
    assert(views(parts@).take(parts@.len() as int) =~= views(parts@));
    r
}

/// `items` without repetitions: of equal items the first stays, and what
/// stays keeps its order.
pub open spec fn distinct_seq(items: Seq<Seq<char>>) -> Seq<Seq<char>>
    decreases items.len(),
{
    if items.len() == 0 {
        Seq::<Seq<char>>::empty()
    } else {
        let head = distinct_seq(items.drop_last());
        if head.contains(items.last()) {
            head
        } else {
            head.push(items.last())
        }
    }
}

/// Whether `item` is among `items`.
pub fn holds_chars(items: &Vec<Vec<char>>, item: &Vec<char>) -> (r: bool)
    ensures
        r == views(items@).contains(item@),
{
    let mut i: usize = 0;
    while i < items.len()
        invariant
            i <= items.len(),
            forall|j: int| 0 <= j < i ==> views(items@)[j] != item@,
        decreases items.len() - i,
    {
        if same_chars(&items[i], item) {
            assert(views(items@)[i as int] == item@);
            return true;
        }
        i += 1;
    }
    false
}

/// What splitting means: there is always a piece, no piece holds the
/// separator, and the pieces with the separator put back between them are
/// the text that was split.
pub proof fn lemma_split_join(s: Seq<char>, sep: char)
    ensures
        split_seq(s, sep).len() >= 1,
        forall|i: int| 0 <= i < split_seq(s, sep).len() ==> !(#[trigger] split_seq(s, sep)[i]).contains(sep),
        join_seq(split_seq(s, sep), seq![sep]) == s,
    decreases s.len(),
{
    let pieces = split_seq(s, sep);
    if s.len() == 0 {
        assert(join_seq(pieces, seq![sep]) =~= s);
    } else {
        let init = s.drop_last();
        let head = split_seq(init, sep);
        lemma_split_join(init, sep);
        assert(init.push(s.last()) =~= s);
        if s.last() == sep {
            assert(pieces.drop_last() =~= head);
            assert(join_seq(pieces, seq![sep]) =~= s);
        } else {
            let grown = head.last().push(s.last());
            assert(!grown.contains(sep)) by {
                if grown.contains(sep) {
                    let k = choose|k: int| 0 <= k < grown.len() && grown[k] == sep;
                    assert(head.last()[k] == sep);
                    assert(head.last().contains(sep));
                }
            }
            if head.len() == 1 {
                assert(join_seq(pieces, seq![sep]) =~= s);
            } else {
                assert(pieces.drop_last() =~= head.drop_last());
                assert(join_seq(pieces, seq![sep]) =~= join_seq(head, seq![sep]).push(s.last()));
            }
        }
    }
}

/// What trimming means: the result is a stretch of the text, white space
/// stands neither at its start nor at its end, and what was cut off on
/// either side is white space only.
pub proof fn lemma_trim(s: Seq<char>)
    ensures
        exists|a: int, b: int|
            0 <= a <= b <= s.len() && #[trigger] s.subrange(a, b) == trim_seq(s) && (forall|i: int|
                0 <= i < a || b <= i < s.len() ==> is_white_space(s[i])),
        trim_seq(s).len() > 0 ==> !is_white_space(trim_seq(s)[0]) && !is_white_space(
            trim_seq(s).last(),
        ),
{
    lemma_trim_start(s);
    let a = choose|a: int|
        0 <= a <= s.len() && #[trigger] s.subrange(a, s.len() as int) == trim_start_seq(s) && (forall|
            i: int,
        | 0 <= i < a ==> is_white_space(s[i]));
    let t = trim_start_seq(s);
    lemma_trim_end(t);
    let n = choose|n: int|
        0 <= n <= t.len() && #[trigger] t.subrange(0, n) == trim_end_seq(t) && (forall|i: int|
            n <= i < t.len() ==> is_white_space(t[i]));
    let b = a + n;
    assert(s.subrange(a, b) =~= t.subrange(0, n));
    assert forall|i: int| 0 <= i < a || b <= i < s.len() implies is_white_space(s[i]) by {
        if i >= b {
            assert(t[i - a] == s[i]);
        }
    }
    if trim_seq(s).len() > 0 {
        assert(trim_seq(s)[0] == t[0]);
    }
}

/// Trimming at the start cuts off a stretch of white space, up to a
/// character that is none.
proof fn lemma_trim_start(s: Seq<char>)
    ensures
        exists|a: int|
            0 <= a <= s.len() && #[trigger] s.subrange(a, s.len() as int) == trim_start_seq(s)
                && (forall|i: int| 0 <= i < a ==> is_white_space(s[i])),
        trim_start_seq(s).len() > 0 ==> !is_white_space(trim_start_seq(s)[0]),
    decreases s.len(),
{
    if s.len() > 0 && is_white_space(s[0]) {
        let rest = s.drop_first();
        lemma_trim_start(rest);
        let a = choose|a: int|
            0 <= a <= rest.len() && #[trigger] rest.subrange(a, rest.len() as int)
                == trim_start_seq(rest) && (forall|i: int| 0 <= i < a ==> is_white_space(rest[i]));
        assert(s.subrange(a + 1, s.len() as int) =~= rest.subrange(a, rest.len() as int));
        assert forall|i: int| 0 <= i < a + 1 implies is_white_space(s[i]) by {
            if i > 0 {
                assert(rest[i - 1] == s[i]);
            }
        }
    } else {
        assert(s.subrange(0, s.len() as int) =~= s);
    }
}

/// Trimming at the end cuts off a stretch of white space, back to a
/// character that is none, and leaves the start as it is.
proof fn lemma_trim_end(s: Seq<char>)
    ensures
        exists|n: int|
            0 <= n <= s.len() && #[trigger] s.subrange(0, n) == trim_end_seq(s) && (forall|i: int|
                n <= i < s.len() ==> is_white_space(s[i])),
        trim_end_seq(s).len() > 0 ==> !is_white_space(trim_end_seq(s).last()) && trim_end_seq(s)[0]
            == s[0],
    decreases s.len(),
{
    if s.len() > 0 && is_white_space(s.last()) {
        let init = s.drop_last();
        lemma_trim_end(init);
        let n = choose|n: int|
            0 <= n <= init.len() && #[trigger] init.subrange(0, n) == trim_end_seq(init) && (forall|
                i: int,
            | n <= i < init.len() ==> is_white_space(init[i]));
        assert(s.subrange(0, n) =~= init.subrange(0, n));
        assert forall|i: int| n <= i < s.len() implies is_white_space(s[i]) by {
            if i < init.len() {
                assert(init[i] == s[i]);
            }
        }
    } else {
        assert(s.subrange(0, s.len() as int) =~= s);
    }
}

/// What `distinct_seq` keeps: every item of `items` once, and nothing else.
pub proof fn lemma_distinct(items: Seq<Seq<char>>)
    ensures
        distinct_seq(items).no_duplicates(),
        distinct_seq(items).len() <= items.len(),
        forall|x: Seq<char>| distinct_seq(items).contains(x) <==> items.contains(x),
    decreases items.len(),
{
    let d = distinct_seq(items);
    if items.len() == 0 {
        assert forall|x: Seq<char>| d.contains(x) <==> items.contains(x) by {}
    } else {
        let init = items.drop_last();
        let last = items.last();
        let head = distinct_seq(init);
        lemma_distinct(init);
        assert forall|x: Seq<char>| d.contains(x) <==> items.contains(x) by {
            if items.contains(x) {
                let i = choose|i: int| 0 <= i < items.len() && items[i] == x;
                if i < init.len() {
                    assert(init[i] == x);
                    assert(init.contains(x));
                    assert(head.contains(x));
                    let j = choose|j: int| 0 <= j < head.len() && head[j] == x;
                    assert(d[j] == x);
                } else {
                    assert(x == last);
                    if !head.contains(last) {
                        assert(d[head.len() as int] == last);
                    }
                }
            }
            if d.contains(x) {
                let j = choose|j: int| 0 <= j < d.len() && d[j] == x;
                if j < head.len() {
                    assert(head[j] == x);
                    assert(head.contains(x));
                    assert(init.contains(x));
                    let i = choose|i: int| 0 <= i < init.len() && init[i] == x;
                    assert(items[i] == x);
                } else {
                    assert(x == last);
                    assert(items[items.len() - 1] == x);
                }
            }
        }
    }
}

} // verus!
