//! Character-level helpers shared by the parsers: whitespace tokenization of
//! space-delimited value lists, joining tokens back together, and string
//! comparison.

use vstd::prelude::*;

verus! {

/// The whitespace characters recognized when splitting space-delimited lists.
pub open spec fn is_space_char(c: char) -> bool {
    c == ' ' || c == '\t' || c == '\n' || c == '\r' || c == '\u{b}' || c == '\u{c}'
}

pub fn is_space(c: char) -> (r: bool)
    ensures
        r == is_space_char(c),
{
    c == ' ' || c == '\t' || c == '\n' || c == '\r' || c == '\u{b}' || c == '\u{c}'
}

/// Length of the leading run of non-whitespace characters.
pub open spec fn word_len(s: Seq<char>) -> nat
    decreases s.len(),
{
    if s.len() == 0 || is_space_char(s[0]) {
        0
    } else {
        1 + word_len(s.drop_first())
    }
}

pub proof fn lemma_word_len_le(s: Seq<char>)
    ensures
        word_len(s) <= s.len(),
    decreases s.len(),
{
    if s.len() != 0 && !is_space_char(s[0]) {
        lemma_word_len_le(s.drop_first());
    }
}

/// `word_len` is the position of the first whitespace character (or the whole
/// length when there is none).
pub proof fn lemma_word_len_at(s: Seq<char>, m: int)
    requires
        0 <= m <= s.len(),
        forall|k: int| 0 <= k < m ==> !is_space_char(s[k]),
        m == s.len() || is_space_char(s[m]),
    ensures
        word_len(s) == m,
    decreases m,
{
    if m == 0 {
    } else {
        assert(!is_space_char(s[0]));
        lemma_word_len_at(s.drop_first(), m - 1);
    }
}

/// The words of `s`, in order: maximal runs of non-whitespace characters.
pub open spec fn split_ws(s: Seq<char>) -> Seq<Seq<char>>
    decreases s.len(),
    when true
    via split_ws_dec
{
    if s.len() == 0 {
        seq![]
    } else if is_space_char(s[0]) {
        split_ws(s.drop_first())
    } else {
        seq![s.take(word_len(s) as int)] + split_ws(s.skip(word_len(s) as int))
    }
}

#[via_fn]
proof fn split_ws_dec(s: Seq<char>) {
    lemma_word_len_le(s);
}

/// The words of `s`, joined with single spaces.
pub open spec fn join_words(ws: Seq<Seq<char>>) -> Seq<char>
    decreases ws.len(),
{
    if ws.len() == 0 {
        seq![]
    } else if ws.len() == 1 {
        ws[0]
    } else {
        ws[0] + seq![' '] + join_words(ws.drop_first())
    }
}

/// Appending one word extends the joined string by a separating space.
pub proof fn lemma_join_push(ws: Seq<Seq<char>>, w: Seq<char>)
    ensures
        join_words(ws.push(w)) == if ws.len() == 0 {
            w
        } else {
            join_words(ws) + seq![' '] + w
        },
    decreases ws.len(),
{
    if ws.len() == 0 {
        assert(ws.push(w)[0] == w);
        assert(join_words(ws.push(w)) == w);
    } else if ws.len() == 1 {
        assert(ws.push(w)[0] == ws[0]);
        assert(ws.push(w).drop_first() =~= seq![w]);
        assert(join_words(seq![w]) == w);
        assert(join_words(ws.push(w)) == ws[0] + seq![' '] + w);
        assert(join_words(ws) == ws[0]);
    } else {
        assert(ws.push(w)[0] == ws[0]);
        assert(ws.push(w).drop_first() =~= ws.drop_first().push(w));
        lemma_join_push(ws.drop_first(), w);
        assert(join_words(ws.push(w)) == ws[0] + seq![' '] + (join_words(ws.drop_first())
            + seq![' '] + w));
        assert(ws[0] + seq![' '] + (join_words(ws.drop_first()) + seq![' '] + w) =~= (ws[0]
            + seq![' '] + join_words(ws.drop_first())) + seq![' '] + w);
    }
}

/// A word, for the purposes of `split_ws`: non-empty and free of whitespace.
pub open spec fn is_word(w: Seq<char>) -> bool {
    w.len() > 0 && forall|k: int| 0 <= k < w.len() ==> !is_space_char(w[k])
}

/// Splitting a whitespace-joined list of words gives back exactly those words.
pub proof fn lemma_split_join(ws: Seq<Seq<char>>)
    requires
        forall|i: int| 0 <= i < ws.len() ==> is_word(#[trigger] ws[i]),
    ensures
        split_ws(join_words(ws)) == ws,
    decreases ws.len(),
{
    if ws.len() == 0 {
        assert(split_ws(join_words(ws)) =~~= ws);
    } else if ws.len() == 1 {
        let w = ws[0];
        assert(is_word(w));
        lemma_word_len_at(w, w.len() as int);
        assert(split_ws(w) == seq![w.take(w.len() as int)] + split_ws(w.skip(w.len() as int)));
        assert(w.take(w.len() as int) =~= w);
        assert(w.skip(w.len() as int) =~= Seq::<char>::empty());
        assert(split_ws(Seq::<char>::empty()) == Seq::<Seq<char>>::empty());
        assert(join_words(ws) == w);
        assert(split_ws(join_words(ws)) =~~= ws);
    } else {
        let w = ws[0];
        let rest = ws.drop_first();
        let j = join_words(ws);
        assert(j == w + seq![' '] + join_words(rest));
        assert(forall|k: int| 0 <= k < w.len() ==> !is_space_char(#[trigger] j[k]));
        assert(j[w.len() as int] == ' ');
        lemma_word_len_at(j, w.len() as int);
        assert(split_ws(j) == seq![j.take(word_len(j) as int)] + split_ws(
            j.skip(word_len(j) as int),
        ));
        assert(j.take(w.len() as int) =~= w);
        let tail = seq![' '] + join_words(rest);
        assert(j.skip(w.len() as int) =~= tail);
        assert(is_space_char(tail[0]));
        assert(split_ws(tail) == split_ws(tail.drop_first()));
        assert(tail.drop_first() =~= join_words(rest));
        lemma_split_join(rest);
        assert(split_ws(j) =~~= ws);
    }
}

/// Length of the leading run of characters other than `:`.
pub open spec fn colon_free_len(s: Seq<char>) -> nat
    decreases s.len(),
{
    if s.len() == 0 || s[0] == ':' {
        0
    } else {
        1 + colon_free_len(s.drop_first())
    }
}

pub proof fn lemma_colon_free_len_le(s: Seq<char>)
    ensures
        colon_free_len(s) <= s.len(),
    decreases s.len(),
{
    if s.len() != 0 && s[0] != ':' {
        lemma_colon_free_len_le(s.drop_first());
    }
}

/// `colon_free_len` is the position of the first `:` (or the whole length
/// when there is none).
pub proof fn lemma_colon_free_len_at(s: Seq<char>, m: int)
    requires
        0 <= m <= s.len(),
        forall|k: int| 0 <= k < m ==> s[k] != ':',
        m == s.len() || s[m] == ':',
    ensures
        colon_free_len(s) == m,
    decreases m,
{
    if m > 0 {
        lemma_colon_free_len_at(s.drop_first(), m - 1);
    }
}

/// The segments of `s` separated by `:`, empty segments kept — the shape of
/// `str::split(":")`.
pub open spec fn split_colons(s: Seq<char>) -> Seq<Seq<char>>
    decreases s.len(),
    when true
    via split_colons_dec
{
    let n = colon_free_len(s) as int;
    if n == s.len() {
        seq![s]
    } else {
        seq![s.take(n)] + split_colons(s.skip(n + 1))
    }
}

#[via_fn]
proof fn split_colons_dec(s: Seq<char>) {
    lemma_colon_free_len_le(s);
}

/// Character-by-character string comparison, so that equality of the views is
/// decided without relying on any unspecified library routine.
pub fn str_eq(a: &str, b: &str) -> (r: bool)
    ensures
        r == (a@ == b@),
{
    let alen = a.unicode_len();
    let blen = b.unicode_len();
    if alen != blen {
        assert(a@ != b@);
        return false;
    }
    let mut i: usize = 0;
    while i < alen
        invariant
            i <= alen,
            alen == a@.len(),
            alen == b@.len(),
            forall|k: int| 0 <= k < i ==> a@[k] == b@[k],
        decreases alen - i,
    {
        if a.get_char(i) != b.get_char(i) {
            assert(a@ != b@);
            return false;
        }
        i += 1;
    }
    proof {
        assert(a@ =~= b@);
    }
    true
}

/// Relies on `String::push`: appends exactly one character at the end.
#[verifier::external_body]
pub fn string_push(s: &mut String, c: char)
    ensures
        final(s)@ == old(s)@.push(c),
{
    s.push(c);
}

/// The view of each string in a sequence of strings.
pub open spec fn views_of(ts: Seq<String>) -> Seq<Seq<char>> {
    ts.map_values(|t: String| t@)
}

/// Splits `s` at whitespace into its words.
pub fn tokenize(s: &str) -> (r: Vec<String>)
    ensures
        views_of(r@) == split_ws(s@),
{
    let len = s.unicode_len();
    let mut toks: Vec<String> = Vec::new();
    let mut i: usize = 0;
    proof {
        assert(s@.skip(0) =~= s@);
    }
    while i < len
        invariant
            i <= len,
            len == s@.len(),
            split_ws(s@) == views_of(toks@) + split_ws(s@.skip(i as int)),
        decreases len - i,
    {
        if is_space(s.get_char(i)) {
            proof {
                assert(s@.skip(i as int).drop_first() =~= s@.skip(i + 1));
            }
            i += 1;
        } else {
            let ghost start = i as int;
            let mut w = String::new();
            while i < len && !is_space(s.get_char(i))
                invariant
                    0 <= start <= i <= len,
                    len == s@.len(),
                    w@ == s@.subrange(start, i as int),
                    forall|k: int| start <= k < i ==> !is_space_char(s@[k]),
                decreases len - i,
            {
                string_push(&mut w, s.get_char(i));
                proof {
                    assert(s@.subrange(start, i as int).push(s@[i as int]) =~= s@.subrange(
                        start,
                        i + 1,
                    ));
                }
                i += 1;
            }
            proof {
                let rem = s@.skip(start);
                assert(forall|k: int|
                    0 <= k < i - start ==> !is_space_char(#[trigger] rem[k]));
                if i < len {
                    assert(is_space_char(rem[i - start]));
                }
                lemma_word_len_at(rem, i - start);
                assert(rem.take(i - start) =~= s@.subrange(start, i as int));
                assert(rem.skip(i - start) =~= s@.skip(i as int));
                assert(split_ws(rem) == seq![w@] + split_ws(s@.skip(i as int)));
            }
            toks.push(w);
            proof {
                assert(views_of(toks@) =~= views_of(toks@.drop_last()) + seq![w@]);
                assert(views_of(toks@) + split_ws(s@.skip(i as int)) =~~= views_of(
                    toks@.drop_last(),
                ) + (seq![w@] + split_ws(s@.skip(i as int))));
            }
        }
    }
    proof {
        assert(s@.skip(len as int) =~= Seq::<char>::empty());
        assert(views_of(toks@) + split_ws(s@.skip(len as int)) =~~= views_of(toks@));
    }
    toks
}

} // verus!
