//! Turning the words of one response into session words: trimming, dropping
//! blanks, tagging the speaker, moving times onto the session timeline and
//! joining contractions to the word before them.

use vstd::prelude::*;
use crate::transcript::text::{is_contraction, starts_with_apostrophe, trim, trimmed};
use crate::transcript::word::{lemma_words_view_push, words_view, RawWord, Word, WordView};

verus! {

/// A stream-relative time moved onto the session timeline, whose origin lies
/// `offset_ms` milliseconds after the Unix epoch.
pub open spec fn rebase(offset_ms: u64, t_us: u64) -> int {
    offset_ms as int * 1000 + t_us as int
}

/// Whether a received word survives trimming.
pub open spec fn is_kept<C>(raw: RawWord<C>) -> bool {
    trimmed(raw.word@).len() > 0
}

/// The session word that a received word becomes on channel `channel`.
pub open spec fn normalize_word<C>(offset_ms: u64, channel: usize, raw: RawWord<C>) -> WordView<C> {
    WordView {
        text: trimmed(raw.word@),
        start_us: rebase(offset_ms, raw.start_us),
        end_us: rebase(offset_ms, raw.end_us),
        confidence: raw.confidence,
        speaker: match raw.speaker {
            Some(s) => s,
            None => channel,
        },
    }
}

/// The received words that are not blank, each as a session word.
pub open spec fn normalized<C>(offset_ms: u64, channel: usize, raws: Seq<RawWord<C>>) -> Seq<
    WordView<C>,
> {
    raws.filter(|r: RawWord<C>| is_kept(r)).map_values(
        |r: RawWord<C>| normalize_word(offset_ms, channel, r),
    )
}

/// `head` extended by the contraction `tail`: the texts are joined and the
/// word ends where the contraction ends.
pub open spec fn absorb<C>(head: WordView<C>, tail: WordView<C>) -> WordView<C> {
    WordView { text: head.text + tail.text, end_us: tail.end_us, ..head }
}

/// The words with every contraction joined to the word before it. The first
/// word stands as it is, whatever it starts with.
pub open spec fn merge_contractions<C>(ws: Seq<WordView<C>>) -> Seq<WordView<C>>
    decreases ws.len(),
{
    if ws.len() <= 1 {
        ws
    } else {
        let init = merge_contractions(ws.drop_last());
        if is_contraction(ws.last().text) {
            init.drop_last().push(absorb(init.last(), ws.last()))
        } else {
            init.push(ws.last())
        }
    }
}

/// The words that one response contributes on `channel`.
pub open spec fn turn_words<C>(offset_ms: u64, channel: usize, raws: Seq<RawWord<C>>) -> Seq<
    WordView<C>,
> {
    merge_contractions(normalized(offset_ms, channel, raws))
}

/// Merging keeps at least one word of a non-empty list, and never adds any.
pub proof fn lemma_merge_len<C>(ws: Seq<WordView<C>>)
    ensures
        merge_contractions(ws).len() <= ws.len(),
        ws.len() > 0 ==> merge_contractions(ws).len() > 0,
        ws.len() > 0 ==> merge_contractions(ws)[0].start_us == ws[0].start_us,
        ws.len() > 0 ==> merge_contractions(ws).last().end_us == ws.last().end_us,
    decreases ws.len(),
{
    if ws.len() > 1 {
        lemma_merge_len(ws.drop_last());
    }
}

/// Normalising a list with one more received word keeps that word unless it
/// is blank.
pub proof fn lemma_normalized_push<C>(offset_ms: u64, channel: usize, raws: Seq<RawWord<C>>, r: RawWord<C>)
    ensures
        normalized(offset_ms, channel, raws.push(r)) == if is_kept(r) {
            normalized(offset_ms, channel, raws).push(normalize_word(offset_ms, channel, r))
        } else {
            normalized(offset_ms, channel, raws)
        },
{
    reveal(Seq::filter);
    let p = |x: RawWord<C>| is_kept(x);
    assert(raws.push(r).drop_last() =~= raws);
    assert(raws.push(r).filter(p) == if p(r) {
        raws.filter(p).push(r)
    } else {
        raws.filter(p)
    });
    if is_kept(r) {
        assert(normalized(offset_ms, channel, raws.push(r)) =~= normalized(
            offset_ms,
            channel,
            raws,
        ).push(normalize_word(offset_ms, channel, r)));
    }
}

/// Trims, filters, tags and rebases the words of one response.
pub fn normalize_words<C: Copy>(offset_ms: u64, channel: usize, raws: &Vec<RawWord<C>>) -> (out:
    Vec<Word<C>>)
    ensures
        words_view(out@) == normalized(offset_ms, channel, raws@),
{
    let mut out: Vec<Word<C>> = Vec::new();
    let mut i: usize = 0;
    assert(raws@.take(0) =~= Seq::<RawWord<C>>::empty());
    assert(words_view(out@) =~= normalized(offset_ms, channel, raws@.take(0))) by {
        reveal(Seq::filter);
    }
    while i < raws.len()
        invariant
            i <= raws.len(),
            words_view(out@) == normalized(offset_ms, channel, raws@.take(i as int)),
        decreases raws.len() - i,
    {
        let raw = &raws[i];
        let text = trim(raw.word.as_str());
        proof {
            assert(raws@.take(i + 1) =~= raws@.take(i as int).push(raws@[i as int]));
            lemma_normalized_push(offset_ms, channel, raws@.take(i as int), raws@[i as int]);
        }
        if text.as_str().unicode_len() > 0 {
            let speaker = match raw.speaker {
                Some(s) => s,
                None => channel,
            };
            let word = Word {
                text,
                start_us: offset_ms as u128 * 1000 + raw.start_us as u128,
                end_us: offset_ms as u128 * 1000 + raw.end_us as u128,
                confidence: raw.confidence,
                speaker,
            };
            proof {
                lemma_words_view_push(out@, word);
            }
            out.push(word);
        }
        i += 1;
    }
    assert(raws@.take(raws.len() as int) =~= raws@);
    out
}

/// Joins every contraction to the word before it.
pub fn merge<C: Copy>(words: Vec<Word<C>>) -> (out: Vec<Word<C>>)
    ensures
        words_view(out@) == merge_contractions(words_view(words@)),
{
    let ghost all = words_view(words@);
    let mut out: Vec<Word<C>> = Vec::new();
    let mut i: usize = 0;
    assert(all.take(0) =~= words_view(out@));
    while i < words.len()
        invariant
            i <= words.len(),
            all == words_view(words@),
            words_view(out@) == merge_contractions(all.take(i as int)),
        decreases words.len() - i,
    {
        let w = &words[i];
        proof {
            assert(all.take(i + 1).drop_last() =~= all.take(i as int));
            assert(all.take(i + 1).last() == w@);
            lemma_merge_len(all.take(i as int));
        }
        if i > 0 && starts_with_apostrophe(w.text.as_str()) {
            let mut head = match out.pop() {
                Some(h) => h,
                None => w.duplicate(),
            };
            let ghost before = out@;
            head.text.append(w.text.as_str());
            head.end_us = w.end_us;
            proof {
                lemma_words_view_push(before, head);
                assert(words_view(before) =~= merge_contractions(all.take(i as int)).drop_last());
            }
            out.push(head);
        } else {
            proof {
                lemma_words_view_push(out@, *w);
            }
            out.push(w.duplicate());
        }
        i += 1;
    }
    assert(all.take(words.len() as int) =~= all);
    out
}

} // verus!
