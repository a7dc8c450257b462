//! Whitespace and tokens.

use vstd::prelude::*;
use vstd::std_specs::iter::IteratorSpec;
use vstd::utf8::*;

verus! {

/// What `char::is_whitespace` of the standard library answers for `c`:
/// whether `c` has the `White_Space` property of the Unicode character
/// database. This crate reads the name only for characters beyond ASCII, and
/// assumes nothing of it but being a fixed property of the character.
pub uninterp spec fn white_space(c: char) -> bool;

/// The first character beyond ASCII.
pub const ASCII_END: u32 = 0x80;

/// Whether `c` is a whitespace character. Among the ASCII characters these
/// are the space and the five from the tabulator (U+0009) to the carriage
/// return (U+000D); of any other character it is what [`white_space`] names.
pub open spec fn is_whitespace(c: char) -> bool {
    if (c as u32) < ASCII_END {
        c == ' ' || 0x09 <= (c as u32) <= 0x0d
    } else {
        white_space(c)
    }
}

/// Calls `char::is_whitespace`. The contract claims which ASCII characters
/// are whitespace, as the Unicode character database lists them, and that
/// the answer for any other character is a property of the character alone.
/// Together the two clauses say that the answer is [`is_whitespace`].
#[verifier::external_body]
fn char_is_whitespace(c: char) -> (blank: bool)
    ensures
        (c as u32) < ASCII_END ==> blank == (c == ' ' || 0x09 <= (c as u32) <= 0x0d),
        (c as u32) >= ASCII_END ==> blank == white_space(c),
{
    c.is_whitespace()
}

/// The end of the run that starts at `from`: the first position at or after
/// `from` that is past the end of `s` or holds a character whose whitespace
/// property differs from `blank`.
pub open spec fn run_end(s: Seq<char>, from: int, blank: bool) -> int
    decreases s.len() - from,
{
    if 0 <= from < s.len() && is_whitespace(s[from]) == blank {
        run_end(s, from + 1, blank)
    } else {
        from
    }
}

/// The tokens of `s` that start at or after `from`: skip the whitespace run,
/// take the run of other characters that follows as one token, and go on
/// behind it.
pub open spec fn tokens_from(s: Seq<char>, from: int) -> Seq<Seq<char>>
    decreases s.len() - from,
    via tokens_from_decreases
{
    let start = run_end(s, from, true);
    if 0 <= from && start < s.len() {
        let end = run_end(s, start, false);
        seq![s.subrange(start, end)] + tokens_from(s, end)
    } else {
        Seq::empty()
    }
}

#[via_fn]
proof fn tokens_from_decreases(s: Seq<char>, from: int) {
    if 0 <= from <= s.len() {
        lemma_run_end(s, from, true);
        let start = run_end(s, from, true);
        if start < s.len() {
            lemma_run_end(s, start, false);
        }
    }
}

/// The tokens of a line: its maximal runs of characters that are not
/// whitespace, in the order in which they stand.
pub open spec fn tokens(s: Seq<char>) -> Seq<Seq<char>> {
    tokens_from(s, 0)
}

/// A word: a text that is not empty and holds no whitespace.
pub open spec fn is_word(w: Seq<char>) -> bool {
    w.len() > 0 && forall|k: int| 0 <= k < w.len() ==> !is_whitespace(#[trigger] w[k])
}

/// The views of the strings of `v`, in order.
pub open spec fn texts(v: Seq<String>) -> Seq<Seq<char>> {
    Seq::new(v.len(), |i: int| v[i]@)
}

/// A run ends inside the text or at its end, on a character of the other kind.
pub proof fn lemma_run_end(s: Seq<char>, from: int, blank: bool)
    requires
        0 <= from <= s.len(),
    ensures
        from <= run_end(s, from, blank) <= s.len(),
        run_end(s, from, blank) < s.len() ==> is_whitespace(s[run_end(s, from, blank)]) != blank,
        forall|k: int|
            from <= k < run_end(s, from, blank) ==> is_whitespace(#[trigger] s[k]) == blank,
    decreases s.len() - from,
{
    if from < s.len() && is_whitespace(s[from]) == blank {
        lemma_run_end(s, from + 1, blank);
    }
}

/// A whitespace character at `from` belongs to no token.
pub proof fn lemma_tokens_skip_blank(s: Seq<char>, from: int)
    requires
        0 <= from < s.len(),
        is_whitespace(s[from]),
    ensures
        tokens_from(s, from) == tokens_from(s, from + 1),
{
    assert(run_end(s, from, true) == run_end(s, from + 1, true));
}

/// A run of other characters that ends at `end` is the first token from its
/// start.
pub proof fn lemma_tokens_take_word(s: Seq<char>, start: int, end: int)
    requires
        0 <= start < end <= s.len(),
        forall|k: int| start <= k < end ==> !is_whitespace(#[trigger] s[k]),
        end < s.len() ==> is_whitespace(s[end]),
    ensures
        tokens_from(s, start) == seq![s.subrange(start, end)] + tokens_from(s, end),
{
    lemma_run_end(s, start, true);
    lemma_run_end(s, start, false);
    let e = run_end(s, start, false);
    if e < end {
        assert(!is_whitespace(s[e]));
    }
    if e > end {
        assert(is_whitespace(s[end]) == false);
    }
}

/// Behind the end of the text there is no token.
pub proof fn lemma_tokens_at_end(s: Seq<char>)
    ensures
        tokens_from(s, s.len() as int) == Seq::<Seq<char>>::empty(),
{
}

/// Every token is a word.
pub proof fn lemma_tokens_are_words(s: Seq<char>, from: int)
    requires
        0 <= from <= s.len(),
    ensures
        forall|k: int|
            0 <= k < tokens_from(s, from).len() ==> is_word(#[trigger] tokens_from(s, from)[k]),
    decreases s.len() - from,
{
    lemma_run_end(s, from, true);
    let start = run_end(s, from, true);
    if start < s.len() {
        lemma_run_end(s, start, false);
        let end = run_end(s, start, false);
        lemma_tokens_are_words(s, end);
        let first = s.subrange(start, end);
        assert(is_word(first)) by {
            assert forall|k: int| 0 <= k < first.len() implies !is_whitespace(
                #[trigger] first[k],
            ) by {
                assert(first[k] == s[start + k]);
            }
        }
        assert forall|k: int| 0 <= k < tokens_from(s, from).len() implies is_word(
            #[trigger] tokens_from(s, from)[k],
        ) by {
            if k > 0 {
                assert(tokens_from(s, from)[k] == tokens_from(s, end)[k - 1]);
            }
        }
    }
}

/// A word is its own single token.
pub proof fn lemma_tokens_of_word(w: Seq<char>)
    requires
        is_word(w),
    ensures
        tokens(w) == seq![w],
{
    lemma_tokens_take_word(w, 0, w.len() as int);
    lemma_tokens_at_end(w);
    assert(w.subrange(0, w.len() as int) =~= w);
}

/// Whitespace belongs to no token, so the start of a whitespace run and its
/// end see the same tokens.
proof fn lemma_tokens_skip_blanks(s: Seq<char>, from: int, to: int)
    requires
        0 <= from <= to <= s.len(),
        forall|k: int| from <= k < to ==> is_whitespace(#[trigger] s[k]),
    ensures
        tokens_from(s, from) == tokens_from(s, to),
    decreases to - from,
{
    if from < to {
        lemma_tokens_skip_blank(s, from);
        lemma_tokens_skip_blanks(s, from + 1, to);
    }
}

/// A run inside `a` is the same run in any text that `a` begins, as long as
/// `a` is followed there by a character of the other kind.
proof fn lemma_run_end_in_prefix(a: Seq<char>, s: Seq<char>, from: int, blank: bool)
    requires
        0 <= from <= a.len() < s.len(),
        s.subrange(0, a.len() as int) == a,
        is_whitespace(s[a.len() as int]) != blank,
    ensures
        run_end(s, from, blank) == run_end(a, from, blank),
    decreases a.len() - from,
{
    if from < a.len() {
        assert(a[from] == s[from]);
        if is_whitespace(a[from]) == blank {
            lemma_run_end_in_prefix(a, s, from + 1, blank);
        }
    }
}

/// A run in the tail of a text is the run of the tail, moved.
proof fn lemma_run_end_in_suffix(p: Seq<char>, b: Seq<char>, from: int, blank: bool)
    requires
        0 <= from <= b.len(),
    ensures
        run_end(p + b, p.len() + from, blank) == p.len() + run_end(b, from, blank),
    decreases b.len() - from,
{
    if from < b.len() {
        assert((p + b)[p.len() + from] == b[from]);
        if is_whitespace(b[from]) == blank {
            lemma_run_end_in_suffix(p, b, from + 1, blank);
        }
    }
}

/// The tokens in the tail of a text are the tokens of the tail.
proof fn lemma_tokens_in_suffix(p: Seq<char>, b: Seq<char>, from: int)
    requires
        0 <= from <= b.len(),
    ensures
        tokens_from(p + b, p.len() + from) == tokens_from(b, from),
    decreases b.len() - from,
{
    let s = p + b;
    lemma_run_end(b, from, true);
    lemma_run_end_in_suffix(p, b, from, true);
    let start = run_end(b, from, true);
    if start < b.len() {
        lemma_run_end(b, start, false);
        lemma_run_end_in_suffix(p, b, start, false);
        let end = run_end(b, start, false);
        lemma_tokens_in_suffix(p, b, end);
        assert(s.subrange(p.len() + start, p.len() + end) =~= b.subrange(start, end));
    }
}

/// The tokens of a text that is followed by whitespace are found in what
/// follows as they are in the text alone.
proof fn lemma_tokens_in_prefix(a: Seq<char>, s: Seq<char>, from: int)
    requires
        0 <= from <= a.len() < s.len(),
        s.subrange(0, a.len() as int) == a,
        is_whitespace(s[a.len() as int]),
    ensures
        tokens_from(s, from) == tokens_from(a, from) + tokens_from(s, a.len() as int + 1),
    decreases a.len() - from,
{
    lemma_run_end(a, from, true);
    let start = run_end(a, from, true);
    if start < a.len() {
        assert forall|k: int| from <= k < start implies is_whitespace(#[trigger] s[k]) by {
            assert(s[k] == a[k]);
        }
        assert(!is_whitespace(s[start])) by {
            assert(s[start] == a[start]);
        }
        lemma_tokens_skip_blanks(s, from, start);
        lemma_tokens_skip_blanks(a, from, start);
        lemma_run_end(a, start, false);
        lemma_run_end_in_prefix(a, s, start, false);
        let end = run_end(a, start, false);
        assert(run_end(s, start, true) == start);
        assert(run_end(a, start, true) == start);
        assert(s.subrange(start, end) =~= a.subrange(start, end));
        lemma_tokens_in_prefix(a, s, end);
        assert(tokens_from(s, start) == seq![s.subrange(start, end)] + tokens_from(s, end));
        assert(tokens_from(a, start) == seq![a.subrange(start, end)] + tokens_from(a, end));
        assert(tokens_from(s, from) =~= tokens_from(a, from) + tokens_from(s, a.len() as int + 1));
    } else {
        assert forall|k: int| from <= k < a.len() + 1 implies is_whitespace(#[trigger] s[k]) by {
            if k < a.len() {
                assert(s[k] == a[k]);
            }
        }
        lemma_tokens_skip_blanks(s, from, a.len() as int + 1);
        assert(tokens_from(a, from) =~= Seq::<Seq<char>>::empty());
        assert(tokens_from(s, from) =~= tokens_from(a, from) + tokens_from(s, a.len() as int + 1));
    }
}

/// Whitespace separates: the tokens of two texts with a whitespace character
/// between them are the tokens of the first, then those of the second.
pub proof fn lemma_tokens_split(a: Seq<char>, c: char, b: Seq<char>)
    requires
        is_whitespace(c),
    ensures
        tokens(a + seq![c] + b) == tokens(a) + tokens(b),
{
    let p = a + seq![c];
    let s = p + b;
    assert(s.subrange(0, a.len() as int) =~= a);
    assert(s[a.len() as int] == c);
    lemma_tokens_in_prefix(a, s, 0);
    lemma_tokens_in_suffix(p, b, 0);
}

/// Whether two texts are the same, character by character.
pub fn same_text(a: &str, b: &str) -> (same: bool)
    ensures
        same == (a@ == b@),
{
    let x = a.as_bytes();
    let y = b.as_bytes();
    proof {
        encode_utf8_decode_utf8(a@);
        encode_utf8_decode_utf8(b@);
    }
    if x.len() != y.len() {
        return false;
    }
    let mut i: usize = 0;
    while i < x.len()
        invariant
            x@ == encode_utf8(a@),
            y@ == encode_utf8(b@),
            x@.len() == y@.len(),
            i <= x@.len(),
            forall|k: int| 0 <= k < i ==> x@[k] == y@[k],
        decreases x@.len() - i,
    {
        if x[i] != y[i] {
            return false;
        }
        i = i + 1;
    }
    assert(x@ =~= y@);
    true
}

/// Splits a line into its tokens.
pub fn tokenize(line: &str) -> (out: Vec<String>)
    ensures
        texts(out@) == tokens(line@),
{
    let n = line.unicode_len();
    let mut out: Vec<String> = Vec::new();
    let mut rest = line.chars();
    let mut i: usize = 0;
    let mut start: usize = 0;
    let mut in_word = false;
    assert(texts(out@) =~= Seq::<Seq<char>>::empty());
    while i < n
        invariant
            n == line@.len(),
            i <= n,
            rest.remaining() == line@.skip(i as int),
            in_word ==> start < i,
            in_word ==> forall|k: int| start <= k < i ==> !is_whitespace(#[trigger] line@[k]),
            tokens(line@) == texts(out@) + tokens_from(
                line@,
                if in_word {
                    start as int
                } else {
                    i as int
                },
            ),
        decreases n - i,
    {
        let next = rest.next();
        let c = next.unwrap();
        assert(c == line@[i as int]);
        let blank = char_is_whitespace(c);
        if blank {
            if in_word {
                let word = String::from_str(line.substring_char(start, i));
                proof {
                    lemma_tokens_take_word(line@, start as int, i as int);
                    assert(texts(out@.push(word)) =~= texts(out@) + seq![word@]);
                }
                out.push(word);
                in_word = false;
            }
            proof {
                lemma_tokens_skip_blank(line@, i as int);
            }
        } else if !in_word {
            start = i;
            in_word = true;
        }
        i = i + 1;
        assert(line@.skip(i as int) =~= line@.skip(i as int - 1).drop_first());
    }
    if in_word {
        let word = String::from_str(line.substring_char(start, i));
        proof {
            lemma_tokens_take_word(line@, start as int, i as int);
            assert(texts(out@.push(word)) =~= texts(out@) + seq![word@]);
        }
        out.push(word);
    }
    proof {
        lemma_tokens_at_end(line@);
    }
    out
}

} // verus!
