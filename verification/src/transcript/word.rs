//! Words as the speech backend sends them and as the session stores them.
//!
//! Times are whole microseconds. A word's confidence is carried through
//! untouched, so its type is left to the caller.

use vstd::prelude::*;

verus! {

/// A word as received: times are relative to the start of the stream.
#[derive(Clone, Debug)]
pub struct RawWord<C> {
    pub word: String,
    pub start_us: u64,
    pub end_us: u64,
    pub confidence: C,
    pub speaker: Option<usize>,
}

/// A word on the session timeline: times are microseconds since the Unix
/// epoch.
#[derive(Clone, Debug)]
pub struct Word<C> {
    pub text: String,
    pub start_us: u128,
    pub end_us: u128,
    pub confidence: C,
    pub speaker: usize,
}

/// The mathematical content of a [`Word`].
pub struct WordView<C> {
    pub text: Seq<char>,
    pub start_us: int,
    pub end_us: int,
    pub confidence: C,
    pub speaker: usize,
}

impl<C> View for Word<C> {
    type V = WordView<C>;

    open spec fn view(&self) -> WordView<C> {
        WordView {
            text: self.text@,
            start_us: self.start_us as int,
            end_us: self.end_us as int,
            confidence: self.confidence,
            speaker: self.speaker,
        }
    }
}

/// The contents of a list of words.
pub open spec fn words_view<C>(s: Seq<Word<C>>) -> Seq<WordView<C>> {
    s.map_values(|w: Word<C>| w@)
}

/// Whether the words' start times never decrease.
pub open spec fn starts_sorted<C>(s: Seq<WordView<C>>) -> bool {
    forall|i: int, j: int| 0 <= i <= j < s.len() ==> s[i].start_us <= s[j].start_us
}

/// The contents of a list with one more word.
pub proof fn lemma_words_view_push<C>(s: Seq<Word<C>>, w: Word<C>)
    ensures
        words_view(s.push(w)) == words_view(s).push(w@),
{
    assert(words_view(s.push(w)) =~= words_view(s).push(w@));
}

/// The contents of two lists joined.
pub proof fn lemma_words_view_add<C>(a: Seq<Word<C>>, b: Seq<Word<C>>)
    ensures
        words_view(a + b) == words_view(a) + words_view(b),
{
    assert(words_view(a + b) =~= words_view(a) + words_view(b));
}

impl<C: Copy> Word<C> {
    /// An independent copy of this word.
    pub fn duplicate(&self) -> (out: Word<C>)
        ensures
            out == *self,
    {
        Word {
            text: self.text.clone(),
            start_us: self.start_us,
            end_us: self.end_us,
            confidence: self.confidence,
            speaker: self.speaker,
        }
    }
}

/// Copies a list of words.
pub fn duplicate_words<C: Copy>(words: &Vec<Word<C>>) -> (out: Vec<Word<C>>)
    ensures
        out@ == words@,
{
    let mut out: Vec<Word<C>> = Vec::new();
    let mut i: usize = 0;
    while i < words.len()
        invariant
            i <= words.len(),
            out@ == words@.take(i as int),
        decreases words.len() - i,
    {
        out.push(words[i].duplicate());
        i += 1;
        assert(out@ =~= words@.take(i as int));
    }
    assert(words@.take(words.len() as int) =~= words@);
    out
}

} // verus!
