//! What holds of the transcript manager across responses.

use vstd::prelude::*;
use crate::transcript::manager::{
    channel_words, ends_by, finals_of, next_partials, partials_after, splice_partial,
    starts_after, starts_from,
    StreamResponse,
};
use crate::transcript::normalize::{is_kept, merge_contractions, normalize_word, normalized};
use crate::transcript::text::{is_word_text, lemma_trimmed_is_trimmed, lemma_word_text_concat};
use crate::transcript::word::{starts_sorted, RawWord, WordView};

verus! {

/// Every element of a filtered list passes the filter and comes from the
/// list.
pub proof fn lemma_filter_members<A>(s: Seq<A>, p: spec_fn(A) -> bool)
    ensures
        forall|k: int|
            0 <= k < s.filter(p).len() ==> p(#[trigger] s.filter(p)[k]) && s.contains(
                s.filter(p)[k],
            ),
    decreases s.len(),
{
    reveal(Seq::filter);
    if s.len() > 0 {
        let init = s.drop_last();
        lemma_filter_members(init, p);
        let f = s.filter(p);
        let sub = init.filter(p);
        assert forall|k: int| 0 <= k < f.len() implies p(#[trigger] f[k]) && s.contains(f[k]) by {
            if k < sub.len() {
                assert(f[k] == sub[k]);
                let j = choose|j: int| 0 <= j < init.len() && init[j] == sub[k];
                assert(s[j] == f[k]);
            } else {
                assert(f[k] == s[s.len() - 1]);
            }
        }
    }
}

/// Filtering a list whose elements all pass changes nothing.
pub proof fn lemma_filter_all<A>(s: Seq<A>, p: spec_fn(A) -> bool)
    requires
        forall|i: int| 0 <= i < s.len() ==> p(#[trigger] s[i]),
    ensures
        s.filter(p) == s,
    decreases s.len(),
{
    reveal(Seq::filter);
    if s.len() > 0 {
        lemma_filter_all(s.drop_last(), p);
        assert(s.drop_last().push(s.last()) =~= s);
    }
}

/// Filtering a list of which no element passes leaves nothing.
pub proof fn lemma_filter_none<A>(s: Seq<A>, p: spec_fn(A) -> bool)
    requires
        forall|i: int| 0 <= i < s.len() ==> !p(#[trigger] s[i]),
    ensures
        s.filter(p) == Seq::<A>::empty(),
    decreases s.len(),
{
    reveal(Seq::filter);
    if s.len() > 0 {
        lemma_filter_none(s.drop_last(), p);
    }
}

/// Every normalised word has a non-empty, trimmed text.
pub proof fn lemma_normalized_texts<C>(offset_ms: u64, channel: usize, raws: Seq<RawWord<C>>)
    ensures
        forall|k: int|
            0 <= k < normalized(offset_ms, channel, raws).len() ==> is_word_text(
                #[trigger] normalized(offset_ms, channel, raws)[k].text,
            ),
{
    let p = |r: RawWord<C>| is_kept(r);
    lemma_filter_members(raws, p);
    let n = normalized(offset_ms, channel, raws);
    assert forall|k: int| 0 <= k < n.len() implies is_word_text(#[trigger] n[k].text) by {
        let r = raws.filter(p)[k];
        assert(p(r));
        assert(n[k] == normalize_word(offset_ms, channel, r));
        lemma_trimmed_is_trimmed(r.word@);
    }
}

/// Joining contractions keeps every text non-empty and trimmed.
pub proof fn lemma_merge_texts<C>(ws: Seq<WordView<C>>)
    requires
        forall|i: int| 0 <= i < ws.len() ==> is_word_text(#[trigger] ws[i].text),
    ensures
        forall|k: int|
            0 <= k < merge_contractions(ws).len() ==> is_word_text(
                #[trigger] merge_contractions(ws)[k].text,
            ),
    decreases ws.len(),
{
    if ws.len() > 1 {
        let init_ws = ws.drop_last();
        assert forall|i: int| 0 <= i < init_ws.len() implies is_word_text(
            #[trigger] init_ws[i].text,
        ) by {
            assert(init_ws[i] == ws[i]);
        }
        lemma_merge_texts(init_ws);
        crate::transcript::normalize::lemma_merge_len(init_ws);
        let init = merge_contractions(init_ws);
        let m = merge_contractions(ws);
        assert(is_word_text(ws[ws.len() - 1].text));
        assert(is_word_text(init[init.len() - 1].text));
        lemma_word_text_concat(init.last().text, ws.last().text);
        assert forall|k: int| 0 <= k < m.len() implies is_word_text(#[trigger] m[k].text) by {
            if k < m.len() - 1 {
                assert(m[k] == init[k]);
            }
        }
    }
}

/// Joining contractions keeps every start time within the bounds that hold
/// of the words joined.
pub proof fn lemma_merge_start_bounds<C>(ws: Seq<WordView<C>>, lo: int, hi: int)
    requires
        forall|i: int| 0 <= i < ws.len() ==> lo <= (#[trigger] ws[i]).start_us <= hi,
    ensures
        forall|k: int|
            0 <= k < merge_contractions(ws).len() ==> lo <= (#[trigger] merge_contractions(
                ws,
            )[k]).start_us <= hi,
    decreases ws.len(),
{
    if ws.len() > 1 {
        let init_ws = ws.drop_last();
        assert forall|i: int| 0 <= i < init_ws.len() implies lo <= (
        #[trigger] init_ws[i]).start_us <= hi by {
            assert(init_ws[i] == ws[i]);
        }
        lemma_merge_start_bounds(init_ws, lo, hi);
        crate::transcript::normalize::lemma_merge_len(init_ws);
        let init = merge_contractions(init_ws);
        let m = merge_contractions(ws);
        assert(lo <= ws[ws.len() - 1].start_us <= hi);
        assert(lo <= init[init.len() - 1].start_us <= hi);
        assert forall|k: int| 0 <= k < m.len() implies lo <= (#[trigger] m[k]).start_us <= hi by {
            if k < m.len() - 1 {
                assert(m[k] == init[k]);
            }
        }
    }
}

/// Joining contractions keeps start times in order.
pub proof fn lemma_merge_sorted<C>(ws: Seq<WordView<C>>)
    requires
        starts_sorted(ws),
    ensures
        starts_sorted(merge_contractions(ws)),
    decreases ws.len(),
{
    if ws.len() > 1 {
        let init_ws = ws.drop_last();
        let x = ws.last();
        assert forall|i: int, j: int| 0 <= i <= j < init_ws.len() implies init_ws[i].start_us
            <= init_ws[j].start_us by {
            assert(init_ws[i] == ws[i] && init_ws[j] == ws[j]);
        }
        lemma_merge_sorted(init_ws);
        crate::transcript::normalize::lemma_merge_len(init_ws);
        let lo = ws[0].start_us;
        assert forall|i: int| 0 <= i < init_ws.len() implies lo <= (
        #[trigger] init_ws[i]).start_us <= x.start_us by {
            assert(init_ws[i] == ws[i]);
        }
        lemma_merge_start_bounds(init_ws, lo, x.start_us);
        let init = merge_contractions(init_ws);
        let m = merge_contractions(ws);
        assert forall|i: int, j: int| 0 <= i <= j < m.len() implies m[i].start_us
            <= m[j].start_us by {
            if j < m.len() - 1 {
                assert(m[i] == init[i] && m[j] == init[j]);
            } else if i < m.len() - 1 {
                assert(m[i] == init[i]);
                assert(m[j].start_us == x.start_us || m[j].start_us == init.last().start_us);
            }
        }
    }
}

/// No word starts after it, or a later word, has ended.
pub open spec fn spans_ordered<C>(ws: Seq<WordView<C>>) -> bool {
    forall|i: int, j: int| 0 <= i <= j < ws.len() ==> ws[i].start_us <= ws[j].end_us
}

/// Joining contractions yields words that end no earlier than they start,
/// when that holds of the words joined.
pub proof fn lemma_merge_spans<C>(ws: Seq<WordView<C>>)
    requires
        spans_ordered(ws),
    ensures
        forall|k: int|
            0 <= k < merge_contractions(ws).len() ==> (#[trigger] merge_contractions(
                ws,
            )[k]).start_us <= merge_contractions(ws)[k].end_us,
    decreases ws.len(),
{
    let m = merge_contractions(ws);
    if ws.len() == 1 {
        assert(ws[0].start_us <= ws[0].end_us);
    } else if ws.len() > 1 {
        let init_ws = ws.drop_last();
        let x = ws.last();
        assert forall|i: int, j: int| 0 <= i <= j < init_ws.len() implies init_ws[i].start_us
            <= init_ws[j].end_us by {
            assert(init_ws[i] == ws[i] && init_ws[j] == ws[j]);
        }
        lemma_merge_spans(init_ws);
        crate::transcript::normalize::lemma_merge_len(init_ws);
        assert forall|i: int| 0 <= i < init_ws.len() implies (#[trigger] init_ws[i]).start_us
            <= x.end_us by {
            assert(init_ws[i] == ws[i]);
            assert(ws[i].start_us <= ws[ws.len() - 1].end_us);
        }
        let init = merge_contractions(init_ws);
        lemma_merge_upper(init_ws, x.end_us);
        assert(ws[ws.len() - 1].start_us <= ws[ws.len() - 1].end_us);
        assert forall|k: int| 0 <= k < m.len() implies (#[trigger] m[k]).start_us
            <= m[k].end_us by {
            if k < m.len() - 1 {
                assert(m[k] == init[k]);
            } else {
                assert(init[init.len() - 1].start_us <= x.end_us);
            }
        }
    }
}

/// Joining contractions keeps every start time under a bound that holds of
/// the words joined.
pub proof fn lemma_merge_upper<C>(ws: Seq<WordView<C>>, hi: int)
    requires
        forall|i: int| 0 <= i < ws.len() ==> (#[trigger] ws[i]).start_us <= hi,
    ensures
        forall|k: int|
            0 <= k < merge_contractions(ws).len() ==> (#[trigger] merge_contractions(
                ws,
            )[k]).start_us <= hi,
    decreases ws.len(),
{
    if ws.len() > 1 {
        let init_ws = ws.drop_last();
        assert forall|i: int| 0 <= i < init_ws.len() implies (#[trigger] init_ws[i]).start_us
            <= hi by {
            assert(init_ws[i] == ws[i]);
        }
        lemma_merge_upper(init_ws, hi);
        crate::transcript::normalize::lemma_merge_len(init_ws);
        let init = merge_contractions(init_ws);
        let m = merge_contractions(ws);
        assert(ws[ws.len() - 1].start_us <= hi);
        assert(init[init.len() - 1].start_us <= hi);
        assert forall|k: int| 0 <= k < m.len() implies (#[trigger] m[k]).start_us <= hi by {
            if k < m.len() - 1 {
                assert(m[k] == init[k]);
            }
        }
    }
}

/// Every word that a response delivers for good has a non-empty, trimmed
/// text.
pub proof fn law_final_words_have_text<C>(offset_ms: u64, response: StreamResponse<C>)
    ensures
        forall|c: usize, i: int|
            finals_of(offset_ms, response).contains_key(c) && 0 <= i < finals_of(
                offset_ms,
                response,
            )[c].len() ==> is_word_text(#[trigger] finals_of(offset_ms, response)[c][i].text),
{
    let n = normalized(offset_ms, response.channel(), response.raw_words());
    lemma_normalized_texts(offset_ms, response.channel(), response.raw_words());
    lemma_merge_texts(n);
}

/// Every word that a response delivers for good ends no earlier than it
/// starts, provided that among the words received, blanks aside, none starts
/// after it or a later one has ended.
pub proof fn law_final_words_span<C>(offset_ms: u64, response: StreamResponse<C>)
    requires
        spans_ordered(normalized(offset_ms, response.channel(), response.raw_words())),
    ensures
        forall|c: usize, i: int|
            finals_of(offset_ms, response).contains_key(c) && 0 <= i < finals_of(
                offset_ms,
                response,
            )[c].len() ==> (#[trigger] finals_of(offset_ms, response)[c][i]).start_us <= finals_of(
                offset_ms,
                response,
            )[c][i].end_us,
{
    lemma_merge_spans(normalized(offset_ms, response.channel(), response.raw_words()));
}

/// After a final turn with words, every word still pending on its channel
/// starts after the turn's last word ends, whatever was pending before.
pub proof fn law_partials_follow_final<C>(
    offset_ms: u64,
    partials: Map<usize, Seq<WordView<C>>>,
    partial_turn: StreamResponse<C>,
    final_turn: StreamResponse<C>,
)
    requires
        final_turn.is_final_turn(),
        final_turn.words(offset_ms).len() > 0,
    ensures
        ({
            let between = partials_after(offset_ms, partials, partial_turn);
            let after = partials_after(offset_ms, between, final_turn);
            let pending = channel_words(after, final_turn.channel());
            forall|i: int|
                0 <= i < pending.len() ==> (#[trigger] pending[i]).start_us
                    > final_turn.words(offset_ms).last().end_us
        }),
{
    let between = partials_after(offset_ms, partials, partial_turn);
    let existing = channel_words(between, final_turn.channel());
    let last_end = final_turn.words(offset_ms).last().end_us;
    lemma_filter_members(existing, starts_after(last_end));
}

/// Whether taking in the partial turn `words` a second time finds the
/// pending words as the first time left them: every word of the turn ends
/// after the turn starts and starts before the turn ends, and no pending
/// word both ends by the turn's start and starts at or after its end.
pub open spec fn settles<C>(existing: Seq<WordView<C>>, words: Seq<WordView<C>>) -> bool {
    let first = words.first().start_us;
    let last = words.last().end_us;
    &&& forall|i: int|
        0 <= i < words.len() ==> (#[trigger] words[i]).end_us > first && words[i].start_us < last
    &&& forall|i: int|
        0 <= i < existing.len() ==> !((#[trigger] existing[i]).end_us <= first
            && existing[i].start_us >= last)
}

/// Splicing the same partial turn in twice gives what splicing it in once
/// gives.
pub proof fn lemma_splice_idempotent<C>(existing: Seq<WordView<C>>, words: Seq<WordView<C>>)
    requires
        words.len() > 0,
        settles(existing, words),
    ensures
        splice_partial(splice_partial(existing, words), words) == splice_partial(existing, words),
{
    let first = words.first().start_us;
    let last = words.last().end_us;
    let pe = ends_by::<C>(first);
    let ps = starts_from::<C>(last);
    let a = existing.filter(pe);
    let b = existing.filter(ps);
    lemma_filter_members(existing, pe);
    lemma_filter_members(existing, ps);
    assert forall|i: int| 0 <= i < a.len() implies pe(#[trigger] a[i]) && !ps(a[i]) by {
        let j = choose|j: int| 0 <= j < existing.len() && existing[j] == a[i];
        assert(!(existing[j].end_us <= first && existing[j].start_us >= last));
    }
    assert forall|i: int| 0 <= i < b.len() implies ps(#[trigger] b[i]) && !pe(b[i]) by {
        let j = choose|j: int| 0 <= j < existing.len() && existing[j] == b[i];
        assert(!(existing[j].end_us <= first && existing[j].start_us >= last));
    }
    lemma_filter_all(a, pe);
    lemma_filter_none(a, ps);
    lemma_filter_none(words, pe);
    lemma_filter_none(words, ps);
    lemma_filter_none(b, pe);
    lemma_filter_all(b, ps);
    Seq::filter_distributes_over_add(a + words, b, pe);
    Seq::filter_distributes_over_add(a, words, pe);
    Seq::filter_distributes_over_add(a + words, b, ps);
    Seq::filter_distributes_over_add(a, words, ps);
    let once = splice_partial(existing, words);
    assert(once == a + words + b);
    assert(once.filter(pe) =~= a);
    assert(once.filter(ps) =~= b);
}

/// Taking in the same partial response twice leaves the pending words of
/// every channel as taking it in once does, provided the turn settles.
pub proof fn law_partial_idempotent<C>(
    offset_ms: u64,
    partials: Map<usize, Seq<WordView<C>>>,
    response: StreamResponse<C>,
)
    requires
        !response.is_final_turn(),
        response.words(offset_ms).len() > 0 ==> settles(
            channel_words(partials, response.channel()),
            response.words(offset_ms),
        ),
    ensures
        partials_after(offset_ms, partials_after(offset_ms, partials, response), response)
            == partials_after(offset_ms, partials, response),
{
    let words = response.words(offset_ms);
    if words.len() > 0 {
        let channel = response.channel();
        lemma_splice_idempotent(channel_words(partials, channel), words);
        lemma_partial_turn_twice(partials, channel, words);
    }
}

/// A partial turn whose splice is idempotent leaves the whole map as it
/// was when taken in again.
proof fn lemma_partial_turn_twice<C>(
    partials: Map<usize, Seq<WordView<C>>>,
    channel: usize,
    words: Seq<WordView<C>>,
)
    requires
        words.len() > 0,
        ({
            let existing = channel_words(partials, channel);
            splice_partial(splice_partial(existing, words), words) == splice_partial(
                existing,
                words,
            )
        }),
    ensures
        next_partials(next_partials(partials, channel, words, false), channel, words, false)
            == next_partials(partials, channel, words, false),
{
    let spliced = splice_partial(channel_words(partials, channel), words);
    lemma_insert_again(partials, channel, spliced);
}

/// Inserting the same entry twice is inserting it once.
proof fn lemma_insert_again<V>(m: Map<usize, V>, k: usize, v: V)
    ensures
        m.insert(k, v).insert(k, v) == m.insert(k, v),
        m.insert(k, v).contains_key(k),
        m.insert(k, v)[k] == v,
{
    assert(m.insert(k, v).insert(k, v) =~= m.insert(k, v));
}

/// The words delivered for good on `channel` over a run of responses, in
/// the order delivered.
pub open spec fn delivered<C>(
    offset_ms: u64,
    channel: usize,
    responses: Seq<StreamResponse<C>>,
) -> Seq<WordView<C>>
    decreases responses.len(),
{
    if responses.len() == 0 {
        Seq::empty()
    } else {
        delivered(offset_ms, channel, responses.drop_last()) + channel_words(
            finals_of(offset_ms, responses.last()),
            channel,
        )
    }
}

/// The words received in final turns on `channel` over a run of responses,
/// blanks dropped, before contractions are joined.
pub open spec fn received<C>(
    offset_ms: u64,
    channel: usize,
    responses: Seq<StreamResponse<C>>,
) -> Seq<WordView<C>>
    decreases responses.len(),
{
    if responses.len() == 0 {
        Seq::empty()
    } else {
        let last = responses.last();
        received(offset_ms, channel, responses.drop_last()) + if last.is_final_turn()
            && last.channel() == channel {
            normalized(offset_ms, channel, last.raw_words())
        } else {
            Seq::empty()
        }
    }
}

/// No delivered word starts later than a bound that holds of the words
/// received.
pub proof fn lemma_delivered_upper<C>(
    offset_ms: u64,
    channel: usize,
    responses: Seq<StreamResponse<C>>,
    hi: int,
)
    requires
        forall|i: int|
            0 <= i < received(offset_ms, channel, responses).len() ==> (#[trigger] received(
                offset_ms,
                channel,
                responses,
            )[i]).start_us <= hi,
    ensures
        forall|k: int|
            0 <= k < delivered(offset_ms, channel, responses).len() ==> (#[trigger] delivered(
                offset_ms,
                channel,
                responses,
            )[k]).start_us <= hi,
    decreases responses.len(),
{
    if responses.len() > 0 {
        let init = responses.drop_last();
        let last = responses.last();
        let r0 = received(offset_ms, channel, init);
        let r = received(offset_ms, channel, responses);
        let d0 = delivered(offset_ms, channel, init);
        let d = delivered(offset_ms, channel, responses);
        let f = channel_words(finals_of(offset_ms, last), channel);
        assert forall|i: int| 0 <= i < r0.len() implies (#[trigger] r0[i]).start_us <= hi by {
            assert(r[i] == r0[i]);
        }
        lemma_delivered_upper(offset_ms, channel, init, hi);
        if f.len() > 0 {
            let n = normalized(offset_ms, channel, last.raw_words());
            assert(last.channel() == channel);
            assert forall|i: int| 0 <= i < n.len() implies (#[trigger] n[i]).start_us <= hi by {
                assert(r[r0.len() + i] == n[i]);
            }
            lemma_merge_upper(n, hi);
        }
        assert forall|k: int| 0 <= k < d.len() implies (#[trigger] d[k]).start_us <= hi by {
            if k < d0.len() {
                assert(d[k] == d0[k]);
            } else {
                assert(d[k] == f[k - d0.len()]);
            }
        }
    }
}

/// On one channel, the words delivered for good over a session never go
/// back in start time, provided the words received in final turns, blanks
/// aside, never do.
pub proof fn law_final_starts_sorted<C>(
    offset_ms: u64,
    channel: usize,
    responses: Seq<StreamResponse<C>>,
)
    requires
        starts_sorted(received(offset_ms, channel, responses)),
    ensures
        starts_sorted(delivered(offset_ms, channel, responses)),
    decreases responses.len(),
{
    if responses.len() > 0 {
        let init = responses.drop_last();
        let last = responses.last();
        let r0 = received(offset_ms, channel, init);
        let r = received(offset_ms, channel, responses);
        let d0 = delivered(offset_ms, channel, init);
        let d = delivered(offset_ms, channel, responses);
        let f = channel_words(finals_of(offset_ms, last), channel);
        assert forall|i: int, j: int| 0 <= i <= j < r0.len() implies r0[i].start_us
            <= r0[j].start_us by {
            assert(r[i] == r0[i] && r[j] == r0[j]);
        }
        law_final_starts_sorted(offset_ms, channel, init);
        if f.len() > 0 {
            let n = normalized(offset_ms, channel, last.raw_words());
            assert(last.channel() == channel);
            assert(f == merge_contractions(n));
            assert(n.len() > 0);
            assert forall|i: int, j: int| 0 <= i <= j < n.len() implies n[i].start_us
                <= n[j].start_us by {
                assert(r[r0.len() + i] == n[i] && r[r0.len() + j] == n[j]);
            }
            lemma_merge_sorted(n);
            let lo = n[0].start_us;
            assert(r[r0.len() as int] == n[0]);
            assert forall|i: int| 0 <= i < n.len() implies lo <= (#[trigger] n[i]).start_us
                <= n.last().start_us by {}
            lemma_merge_start_bounds(n, lo, n.last().start_us);
            assert forall|i: int| 0 <= i < r0.len() implies (#[trigger] r0[i]).start_us <= lo by {
                assert(r[i] == r0[i]);
            }
            lemma_delivered_upper(offset_ms, channel, init, lo);
            assert forall|i: int, j: int| 0 <= i <= j < d.len() implies d[i].start_us
                <= d[j].start_us by {
                if j < d0.len() {
                    assert(d[i] == d0[i] && d[j] == d0[j]);
                } else if i < d0.len() {
                    assert(d[i] == d0[i]);
                    assert(d[j] == f[j - d0.len()]);
                } else {
                    assert(d[i] == f[i - d0.len()] && d[j] == f[j - d0.len()]);
                }
            }
        } else {
            assert(d =~= d0);
        }
    }
}

} // verus!
