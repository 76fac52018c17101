//! Text handling for transcript words: trimming and contraction detection.

use vstd::prelude::*;

verus! {

/// Whether `c` carries the Unicode `White_Space` property: the controls
/// from tab to carriage return, the space, next line, the no-break space,
/// the ogham space mark, the spaces from en quad to hair space, the line
/// and paragraph separators, the narrow no-break space, the medium
/// mathematical space and the ideographic space.
pub open spec fn char_is_whitespace(c: char) -> bool {
    let code = c as u32;
    ||| 0x0009 <= code <= 0x000D
    ||| code == 0x0020
    ||| code == 0x0085
    ||| code == 0x00A0
    ||| code == 0x1680
    ||| 0x2000 <= code <= 0x200A
    ||| code == 0x2028
    ||| code == 0x2029
    ||| code == 0x202F
    ||| code == 0x205F
    ||| code == 0x3000
}

/// `char::is_whitespace`: reports whether a character has the Unicode
/// `White_Space` property, which is the set that [`char_is_whitespace`]
/// lists.
#[verifier::external_body]
fn is_whitespace(c: char) -> (b: bool)
    ensures
        b == char_is_whitespace(c),
{
    c.is_whitespace()
}

/// `s` without its leading whitespace.
pub open spec fn trim_start(s: Seq<char>) -> Seq<char>
    decreases s.len(),
{
    if s.len() > 0 && char_is_whitespace(s[0]) {
        trim_start(s.drop_first())
    } else {
        s
    }
}

/// `s` without its trailing whitespace.
pub open spec fn trim_end(s: Seq<char>) -> Seq<char>
    decreases s.len(),
{
    if s.len() > 0 && char_is_whitespace(s.last()) {
        trim_end(s.drop_last())
    } else {
        s
    }
}

/// `s` without leading and trailing whitespace.
pub open spec fn trimmed(s: Seq<char>) -> Seq<char> {
    trim_end(trim_start(s))
}

/// A text that neither starts nor ends with whitespace.
pub open spec fn is_trimmed(s: Seq<char>) -> bool {
    s.len() > 0 ==> !char_is_whitespace(s[0]) && !char_is_whitespace(s.last())
}

/// A word text as the transcript delivers it: non-empty and trimmed.
pub open spec fn is_word_text(s: Seq<char>) -> bool {
    s.len() > 0 && is_trimmed(s)
}

/// A text that continues the previous word, such as `'s` or `'re`.
pub open spec fn is_contraction(s: Seq<char>) -> bool {
    s.len() > 0 && s[0] == '\''
}

/// Trimming a text that starts with whitespace skips that character.
proof fn lemma_trim_start_suffix(s: Seq<char>, from: int)
    requires
        0 <= from <= s.len(),
        forall|i: int| 0 <= i < from ==> char_is_whitespace(s[i]),
    ensures
        trim_start(s) == trim_start(s.subrange(from, s.len() as int)),
    decreases from,
{
    if from == 0 {
        assert(s.subrange(0, s.len() as int) =~= s);
    } else {
        lemma_trim_start_suffix(s, from - 1);
        let t = s.subrange(from - 1, s.len() as int);
        assert(t[0] == s[from - 1]);
        assert(t.drop_first() =~= s.subrange(from, s.len() as int));
    }
}

/// Trimming a text that ends with whitespace drops that character.
proof fn lemma_trim_end_prefix(s: Seq<char>, to: int)
    requires
        0 <= to <= s.len(),
        forall|i: int| to <= i < s.len() ==> char_is_whitespace(s[i]),
    ensures
        trim_end(s) == trim_end(s.subrange(0, to)),
    decreases s.len() - to,
{
    if to == s.len() {
        assert(s.subrange(0, to) =~= s);
    } else {
        lemma_trim_end_prefix(s, to + 1);
        let t = s.subrange(0, to + 1);
        assert(t.last() == s[to]);
        assert(t.drop_last() =~= s.subrange(0, to));
    }
}

/// `trim_start` yields a suffix of its argument that does not start with
/// whitespace.
pub proof fn lemma_trim_start_shape(s: Seq<char>)
    ensures
        trim_start(s).len() <= s.len(),
        trim_start(s) == s.subrange(s.len() - trim_start(s).len(), s.len() as int),
        trim_start(s).len() > 0 ==> !char_is_whitespace(trim_start(s)[0]),
    decreases s.len(),
{
    if s.len() > 0 && char_is_whitespace(s[0]) {
        lemma_trim_start_shape(s.drop_first());
        let t = s.drop_first();
        let r = trim_start(t);
        assert(r =~= s.subrange(s.len() - r.len(), s.len() as int));
    } else {
        assert(s =~= s.subrange(0, s.len() as int));
    }
}

/// `trim_end` yields a prefix of its argument that does not end with
/// whitespace.
pub proof fn lemma_trim_end_shape(s: Seq<char>)
    ensures
        trim_end(s).len() <= s.len(),
        trim_end(s) == s.subrange(0, trim_end(s).len() as int),
        trim_end(s).len() > 0 ==> !char_is_whitespace(trim_end(s).last()),
    decreases s.len(),
{
    if s.len() > 0 && char_is_whitespace(s.last()) {
        lemma_trim_end_shape(s.drop_last());
        let r = trim_end(s.drop_last());
        assert(r =~= s.subrange(0, r.len() as int));
    } else {
        assert(s =~= s.subrange(0, s.len() as int));
    }
}

/// Trimming leaves a text that neither starts nor ends with whitespace.
pub proof fn lemma_trimmed_is_trimmed(s: Seq<char>)
    ensures
        is_trimmed(trimmed(s)),
        trimmed(s).len() <= s.len(),
{
    let a = trim_start(s);
    lemma_trim_start_shape(s);
    lemma_trim_end_shape(a);
}

/// Joining two word texts gives a word text.
pub proof fn lemma_word_text_concat(a: Seq<char>, b: Seq<char>)
    requires
        is_word_text(a),
        is_word_text(b),
    ensures
        is_word_text(a + b),
{
    assert((a + b)[0] == a[0]);
    assert((a + b).last() == b.last());
}

/// Returns `s` without leading and trailing whitespace.
pub fn trim(s: &str) -> (out: String)
    ensures
        out@ == trimmed(s@),
{
    let n = s.unicode_len();
    let mut from: usize = 0;
    while from < n && is_whitespace(s.get_char(from))
        invariant
            n == s@.len(),
            from <= n,
            forall|i: int| 0 <= i < from ==> char_is_whitespace(s@[i]),
        decreases n - from,
    {
        from += 1;
    }
    let ghost rest = s@.subrange(from as int, n as int);
    proof {
        lemma_trim_start_suffix(s@, from as int);
        assert(rest.len() > 0 ==> rest[0] == s@[from as int]);
        assert(trim_start(s@) == rest);
    }
    let mut to: usize = n;
    while to > from && is_whitespace(s.get_char(to - 1))
        invariant
            n == s@.len(),
            from <= to <= n,
            forall|i: int| to <= i < n ==> char_is_whitespace(s@[i]),
        decreases to,
    {
        to -= 1;
    }
    proof {
        lemma_trim_end_prefix(rest, to - from);
        let kept = rest.subrange(0, to - from);
        assert(kept =~= s@.subrange(from as int, to as int));
        assert(kept.len() > 0 ==> kept.last() == s@[to - 1]);
        assert(trim_end(rest) == kept);
    }
    s.substring_char(from, to).to_owned()
}

/// Whether `s` continues the previous word.
pub fn starts_with_apostrophe(s: &str) -> (b: bool)
    ensures
        b == is_contraction(s@),
{
    s.unicode_len() > 0 && s.get_char(0) == '\''
}

/// Whether two texts are the same.
pub fn str_eq(a: &str, b: &str) -> (same: bool)
    ensures
        same == (a@ == b@),
{
    let n = a.unicode_len();
    if n != b.unicode_len() {
        return false;
    }
    let mut i: usize = 0;
    while i < n
        invariant
            n == a@.len(),
            n == b@.len(),
            i <= n,
            a@.take(i as int) == b@.take(i as int),
        decreases n - i,
    {
        if a.get_char(i) != b.get_char(i) {
            assert(a@[i as int] != b@[i as int]);
            return false;
        }
        i += 1;
        assert(a@.take(i as int) =~= a@.take(i - 1).push(a@[i - 1]));
        assert(b@.take(i as int) =~= b@.take(i - 1).push(b@[i - 1]));
    }
    assert(a@.take(n as int) =~= a@);
    assert(b@.take(n as int) =~= b@);
    true
}

} // verus!
