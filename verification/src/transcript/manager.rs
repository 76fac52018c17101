//! The transcript manager: folds partial and final responses into one list
//! of pending words per channel and reports what each response changed.

use std::collections::HashMap;
use vstd::prelude::*;
use vstd::std_specs::iter::IteratorSpec;
use crate::transcript::laws::{law_final_words_have_text, law_final_words_span, spans_ordered};
use crate::transcript::normalize::{merge, normalize_words, normalized, turn_words};
use crate::transcript::text::is_word_text;
use crate::transcript::word::{duplicate_words, lemma_words_view_push, words_view, RawWord, Word, WordView};

verus! {

broadcast use vstd::std_specs::hash::group_hash_axioms;

/// Pending or delivered words, by channel.
pub type WordsByChannel<C> = HashMap<usize, Vec<Word<C>>>;

/// One transcription hypothesis of a response.
#[derive(Clone, Debug)]
pub struct Alternative<C> {
    pub words: Vec<RawWord<C>>,
}

/// A message from the speech backend.
#[derive(Clone, Debug)]
pub enum StreamResponse<C> {
    /// Words for one channel; `is_final` tells whether they may still change.
    Transcript { is_final: bool, channel_index: Vec<usize>, alternatives: Vec<Alternative<C>> },
    /// Anything else the backend sends, such as metadata.
    Other,
}

impl<C> StreamResponse<C> {
    /// A transcript names its channel and carries at least one alternative.
    pub open spec fn is_well_formed(self) -> bool {
        match self {
            StreamResponse::Transcript { channel_index, alternatives, .. } => channel_index.len()
                > 0 && alternatives.len() > 0,
            StreamResponse::Other => true,
        }
    }

    /// The channel a transcript speaks of.
    pub open spec fn channel(self) -> usize {
        match self {
            StreamResponse::Transcript { channel_index, .. } => channel_index[0],
            StreamResponse::Other => 0,
        }
    }

    /// The words of a transcript's first alternative, as received.
    pub open spec fn raw_words(self) -> Seq<RawWord<C>> {
        match self {
            StreamResponse::Transcript { alternatives, .. } => alternatives[0].words@,
            StreamResponse::Other => Seq::empty(),
        }
    }

    /// Whether this is a transcript whose words are final.
    pub open spec fn is_final_turn(self) -> bool {
        match self {
            StreamResponse::Transcript { is_final, .. } => is_final,
            StreamResponse::Other => false,
        }
    }

    /// The session words this response contributes.
    pub open spec fn words(self, offset_ms: u64) -> Seq<WordView<C>> {
        turn_words(offset_ms, self.channel(), self.raw_words())
    }
}

/// Words that start after `t`.
pub open spec fn starts_after<C>(t: int) -> spec_fn(WordView<C>) -> bool {
    |w: WordView<C>| w.start_us > t
}

/// Words that have ended by `t`.
pub open spec fn ends_by<C>(t: int) -> spec_fn(WordView<C>) -> bool {
    |w: WordView<C>| w.end_us <= t
}

/// Words that start at `t` or later.
pub open spec fn starts_from<C>(t: int) -> spec_fn(WordView<C>) -> bool {
    |w: WordView<C>| w.start_us >= t
}

/// The contents of a word map.
pub open spec fn channels_view<C>(m: Map<usize, Vec<Word<C>>>) -> Map<usize, Seq<WordView<C>>> {
    m.map_values(|v: Vec<Word<C>>| words_view(v@))
}

/// The words stored for `channel`, none if the channel is unknown.
pub open spec fn channel_words<C>(m: Map<usize, Seq<WordView<C>>>, channel: usize) -> Seq<
    WordView<C>,
> {
    if m.contains_key(channel) {
        m[channel]
    } else {
        Seq::empty()
    }
}

/// The pending words of a channel after a partial turn `words`: what ended
/// before the turn begins, then the turn, then what starts once it has ended.
pub open spec fn splice_partial<C>(existing: Seq<WordView<C>>, words: Seq<WordView<C>>) -> Seq<
    WordView<C>,
>
    recommends
        words.len() > 0,
{
    existing.filter(ends_by(words.first().start_us)) + words + existing.filter(
        starts_from(words.last().end_us),
    )
}

/// The pending words of every channel after a turn of `words` on `channel`.
/// A turn without words changes nothing. A final turn keeps the pending
/// words of its channel that start after it ends, and leaves a channel
/// without pending words as it is. A partial turn is spliced into the
/// pending words of its channel.
pub open spec fn next_partials<C>(
    partials: Map<usize, Seq<WordView<C>>>,
    channel: usize,
    words: Seq<WordView<C>>,
    is_final: bool,
) -> Map<usize, Seq<WordView<C>>> {
    let existing = channel_words(partials, channel);
    if words.len() == 0 {
        partials
    } else if is_final {
        if partials.contains_key(channel) {
            partials.insert(channel, existing.filter(starts_after(words.last().end_us)))
        } else {
            partials
        }
    } else {
        partials.insert(channel, splice_partial(existing, words))
    }
}

/// The pending words of every channel after `response` has been taken in.
pub open spec fn partials_after<C>(
    offset_ms: u64,
    partials: Map<usize, Seq<WordView<C>>>,
    response: StreamResponse<C>,
) -> Map<usize, Seq<WordView<C>>> {
    next_partials(
        partials,
        response.channel(),
        response.words(offset_ms),
        response.is_final_turn(),
    )
}

/// The words that `response` delivers for good.
pub open spec fn finals_of<C>(offset_ms: u64, response: StreamResponse<C>) -> Map<
    usize,
    Seq<WordView<C>>,
> {
    let words = response.words(offset_ms);
    if words.len() > 0 && response.is_final_turn() {
        Map::<usize, Seq<WordView<C>>>::empty().insert(response.channel(), words)
    } else {
        Map::empty()
    }
}

/// What one response changed.
#[derive(Clone, Debug)]
pub struct Diff<C> {
    pub partial_words: HashMap<usize, Vec<Word<C>>>,
    pub final_words: HashMap<usize, Vec<Word<C>>>,
}

impl<C> Diff<C> {
    /// The pending words of every channel after the response.
    pub open spec fn partial_view(self) -> Map<usize, Seq<WordView<C>>> {
        channels_view(self.partial_words@)
    }

    /// The words the response delivered for good.
    pub open spec fn final_view(self) -> Map<usize, Seq<WordView<C>>> {
        channels_view(self.final_words@)
    }
}

/// The texts of `words`, joined by single spaces.
pub open spec fn content_of<C>(words: Seq<WordView<C>>) -> Seq<char>
    decreases words.len(),
{
    if words.len() == 0 {
        Seq::empty()
    } else if words.len() == 1 {
        words[0].text
    } else {
        content_of(words.drop_last()) + seq![' '] + words.last().text
    }
}

/// The texts of every channel's words, joined by single spaces.
pub open spec fn contents_of<C>(m: Map<usize, Seq<WordView<C>>>) -> Map<usize, Seq<char>> {
    m.map_values(|words: Seq<WordView<C>>| content_of(words))
}

/// The contents of a map of texts.
pub open spec fn texts_view(m: Map<usize, String>) -> Map<usize, Seq<char>> {
    m.map_values(|s: String| s@)
}

/// Joins the texts of `words` by single spaces.
pub fn join_words<C>(words: &Vec<Word<C>>) -> (out: String)
    ensures
        out@ == content_of(words_view(words@)),
{
    let ghost all = words_view(words@);
    let mut out = String::new();
    let mut i: usize = 0;
    assert(all.take(0) =~= Seq::<WordView<C>>::empty());
    while i < words.len()
        invariant
            i <= words.len(),
            all == words_view(words@),
            out@ == content_of(all.take(i as int)),
        decreases words.len() - i,
    {
        proof {
            assert(all.take(i + 1).drop_last() =~= all.take(i as int));
            assert(all.take(i + 1).last().text == words@[i as int].text@);
        }
        if i > 0 {
            out.append(" ");
            proof {
                reveal_strlit(" ");
                assert(" "@ =~= seq![' ']);
            }
        } else {
            assert(Seq::<char>::empty() + words@[0].text@ =~= words@[0].text@);
        }
        out.append(words[i].text.as_str());
        i += 1;
    }
    assert(all.take(words.len() as int) =~= all);
    out
}

/// The joined texts of every channel of a word map.
fn contents<C>(m: &HashMap<usize, Vec<Word<C>>>) -> (out: HashMap<usize, String>)
    ensures
        texts_view(out@) == contents_of(channels_view(m@)),
{
    let mut out: HashMap<usize, String> = HashMap::new();
    let ghost keys = m.keys().remaining().unref();
    proof {
        vstd::std_specs::hash::axiom_spec_keys_iter(m);
    }
    for k in it: m.keys()
        invariant
            it.seq().unref() == keys,
            keys.to_set() == m@.dom(),
            forall|j: int| 0 <= j < it.index() ==> out@.contains_key(#[trigger] keys[j]),
            forall|c: usize| #[trigger]
                out@.contains_key(c) ==> m@.contains_key(c) && out@[c]@ == content_of(
                    words_view(m@[c]@),
                ),
    {
        proof {
            assert(keys[it.index()] == *k);
            assert(keys.to_set().contains(keys[it.index()]));
            assert(m@.contains_key(*k));
        }
        let ghost before = out@;
        match m.get(k) {
            Some(words) => {
                assert(m@[*k] == *words);
                let text = join_words(words);
                out.insert(*k, text);
                assert(out@ == before.insert(*k, text));
            },
            None => {},
        }
    }
    proof {
        assert forall|c: usize| m@.contains_key(c) implies out@.contains_key(c) by {
            assert(keys.to_set().contains(c));
            let j = choose|j: int| 0 <= j < keys.len() && keys[j] == c;
            assert(out@.contains_key(keys[j]));
        }
        let want = contents_of(channels_view(m@));
        let have = texts_view(out@);
        assert forall|c: usize| have.contains_key(c) implies want.contains_key(c) && have[c]
            == want[c] by {
            assert(out@.contains_key(c));
            assert(channels_view(m@)[c] == words_view(m@[c]@));
        }
        assert(have =~= want);
    }
    out
}

impl<C> Diff<C> {
    /// The pending words of every channel as text.
    pub fn partial_content(&self) -> (out: HashMap<usize, String>)
        ensures
            texts_view(out@) == contents_of(self.partial_view()),
    {
        contents(&self.partial_words)
    }

    /// The words delivered for good as text, by channel.
    pub fn final_content(&self) -> (out: HashMap<usize, String>)
        ensures
            texts_view(out@) == contents_of(self.final_view()),
    {
        contents(&self.final_words)
    }
}

impl<C> Default for Diff<C> {
    fn default() -> (out: Self)
        ensures
            out.partial_words@ == Map::<usize, Vec<Word<C>>>::empty(),
            out.final_words@ == Map::<usize, Vec<Word<C>>>::empty(),
    {
        Diff { partial_words: HashMap::new(), final_words: HashMap::new() }
    }
}

/// `uuid::Uuid`, carried as it is: nothing inside it is looked at.
#[verifier::external_type_specification]
#[verifier::external_body]
pub struct ExUuid(uuid::Uuid);

/// `uuid::Uuid::new_v4`: a random identifier. Nothing is claimed of its
/// value. It panics where the system cannot supply random bytes.
#[verifier::external_body]
fn fresh_id() -> (id: uuid::Uuid) {
    uuid::Uuid::new_v4()
}

/// Collects the settings of a [`TranscriptManager`].
pub struct TranscriptManagerBuilder<C> {
    pub manager_offset: Option<u64>,
    pub partial_words_by_channel: Option<WordsByChannel<C>>,
}

impl<C> Default for TranscriptManagerBuilder<C> {
    fn default() -> (out: Self)
        ensures
            out.manager_offset is None,
            out.partial_words_by_channel is None,
    {
        TranscriptManagerBuilder { manager_offset: None, partial_words_by_channel: None }
    }
}

impl<C> TranscriptManagerBuilder<C> {
    /// Sets the start of the session, in milliseconds since the Unix epoch.
    pub fn with_manager_offset(self, manager_offset: u64) -> (out: Self)
        ensures
            out.manager_offset == Some(manager_offset),
            out.partial_words_by_channel == self.partial_words_by_channel,
    {
        let mut out = self;
        out.manager_offset = Some(manager_offset);
        out
    }

    /// Sets the pending words the manager starts with.
    pub fn with_existing_partial_words(self, m: WordsByChannel<C>) -> (out: Self)
        ensures
            out.manager_offset == self.manager_offset,
            out.partial_words_by_channel == Some(m),
    {
        let mut out = self;
        out.partial_words_by_channel = Some(m);
        out
    }

    /// Builds the manager: the offset defaults to zero and the pending words
    /// to none.
    pub fn build(self) -> (out: TranscriptManager<C>)
        ensures
            out.manager_offset == match self.manager_offset {
                Some(offset) => offset,
                None => 0,
            },
            out.partial_words_by_channel@ == match self.partial_words_by_channel {
                Some(m) => m@,
                None => Map::<usize, Vec<Word<C>>>::empty(),
            },
    {
        let partial_words_by_channel = match self.partial_words_by_channel {
            Some(m) => m,
            None => HashMap::new(),
        };
        let manager_offset = match self.manager_offset {
            Some(offset) => offset,
            None => 0,
        };
        TranscriptManager { id: fresh_id(), partial_words_by_channel, manager_offset }
    }
}

/// Per-channel pending words, anchored to the start of the session.
pub struct TranscriptManager<C> {
    pub id: uuid::Uuid,
    pub partial_words_by_channel: WordsByChannel<C>,
    pub manager_offset: u64,
}

/// Which pending words a turn leaves in place.
enum Keep {
    StartsAfter(u128),
    EndsBy(u128),
    StartsFrom(u128),
}

impl Keep {
    /// The words selected.
    spec fn selects<C>(self) -> spec_fn(WordView<C>) -> bool {
        match self {
            Keep::StartsAfter(t) => starts_after(t as int),
            Keep::EndsBy(t) => ends_by(t as int),
            Keep::StartsFrom(t) => starts_from(t as int),
        }
    }

    /// Whether `w` is selected.
    fn test<C>(&self, w: &Word<C>) -> (b: bool)
        ensures
            b == (self.selects::<C>())(w@),
    {
        match self {
            Keep::StartsAfter(t) => w.start_us > *t,
            Keep::EndsBy(t) => w.end_us <= *t,
            Keep::StartsFrom(t) => w.start_us >= *t,
        }
    }
}

/// Filtering a list with one more element keeps that element if it passes.
proof fn lemma_filter_push<A>(s: Seq<A>, x: A, p: spec_fn(A) -> bool)
    ensures
        s.push(x).filter(p) == if p(x) {
            s.filter(p).push(x)
        } else {
            s.filter(p)
        },
{
    reveal(Seq::filter);
    assert(s.push(x).drop_last() =~= s);
}

/// Appends to `out` copies of the words of `words` that `keep` selects.
fn extend_selected<C: Copy>(out: &mut Vec<Word<C>>, words: &Vec<Word<C>>, keep: Keep)
    ensures
        words_view(final(out)@) == words_view(old(out)@) + words_view(words@).filter(
            keep.selects::<C>(),
        ),
{
    let ghost p = keep.selects::<C>();
    let ghost all = words_view(words@);
    let ghost base = words_view(out@);
    let mut i: usize = 0;
    proof {
        reveal(Seq::filter);
        assert(all.take(0) =~= Seq::<WordView<C>>::empty());
        assert(words_view(out@) =~= base + all.take(0).filter(p));
    }
    while i < words.len()
        invariant
            i <= words.len(),
            all == words_view(words@),
            p == keep.selects::<C>(),
            words_view(out@) == base + all.take(i as int).filter(p),
        decreases words.len() - i,
    {
        let w = &words[i];
        proof {
            assert(all.take(i + 1) =~= all.take(i as int).push(w@));
            lemma_filter_push(all.take(i as int), w@, p);
        }
        if keep.test(w) {
            proof {
                lemma_words_view_push(out@, *w);
                assert(base + all.take(i as int).filter(p).push(w@) =~= (base + all.take(
                    i as int,
                ).filter(p)).push(w@));
            }
            out.push(w.duplicate());
        }
        i += 1;
    }
    assert(all.take(words.len() as int) =~= all);
}

impl<C: Copy> TranscriptManager<C> {
    /// Starts a builder with nothing set.
    pub fn builder() -> (out: TranscriptManagerBuilder<C>)
        ensures
            out.manager_offset is None,
            out.partial_words_by_channel is None,
    {
        TranscriptManagerBuilder { manager_offset: None, partial_words_by_channel: None }
    }

    /// The pending words of every channel.
    pub open spec fn partials(self) -> Map<usize, Seq<WordView<C>>> {
        channels_view(self.partial_words_by_channel@)
    }

    /// Takes in one response and reports the pending words of every channel
    /// and the words delivered for good.
    ///
    /// A response other than a transcript, or one without words once blanks
    /// are dropped, changes nothing. A final turn delivers its words and
    /// keeps only the pending words of its channel that start after the turn
    /// ends. A partial turn replaces the pending words of its channel that
    /// overlap it. Every word delivered for good has a non-empty, trimmed
    /// text, and ends no earlier than it starts where the words received
    /// are in time order.
    pub fn append(&mut self, response: StreamResponse<C>) -> (diff: Diff<C>)
        requires
            response.is_well_formed(),
        ensures
            final(self).id == old(self).id,
            final(self).manager_offset == old(self).manager_offset,
            final(self).partials() == partials_after(
                old(self).manager_offset,
                old(self).partials(),
                response,
            ),
            diff.partial_view() == final(self).partials(),
            diff.final_view() == finals_of(old(self).manager_offset, response),
            forall|c: usize, i: int|
                diff.final_view().contains_key(c) && 0 <= i < diff.final_view()[c].len()
                    ==> is_word_text(#[trigger] diff.final_view()[c][i].text),
            spans_ordered(
                normalized(old(self).manager_offset, response.channel(), response.raw_words()),
            ) ==> forall|c: usize, i: int|
                diff.final_view().contains_key(c) && 0 <= i < diff.final_view()[c].len() ==> (
                #[trigger] diff.final_view()[c][i]).start_us <= diff.final_view()[c][i].end_us,
    {
        let ghost offset = self.manager_offset;
        let diff = self.take_in(response);
        proof {
            law_final_words_have_text(offset, response);
            if spans_ordered(normalized(offset, response.channel(), response.raw_words())) {
                law_final_words_span(offset, response);
            }
        }
        diff
    }

    /// The work of [`append`](Self::append).
    fn take_in(&mut self, response: StreamResponse<C>) -> (diff: Diff<C>)
        requires
            response.is_well_formed(),
        ensures
            final(self).id == old(self).id,
            final(self).manager_offset == old(self).manager_offset,
            final(self).partials() == partials_after(
                old(self).manager_offset,
                old(self).partials(),
                response,
            ),
            diff.partial_view() == final(self).partials(),
            diff.final_view() == finals_of(old(self).manager_offset, response),
    {
        let ghost before = self.partials();
        let offset = self.manager_offset;
        match response {
            StreamResponse::Transcript { is_final, channel_index, alternatives } => {
                let channel = channel_index[0];
                let words = merge(normalize_words(offset, channel, &alternatives[0].words));
                if words.len() == 0 {
                    let diff = Diff {
                        final_words: HashMap::new(),
                        partial_words: self.partial_words_by_channel.clone(),
                    };
                    assert(diff.final_view() =~= finals_of(offset, response));
                    return diff;
                }
                let first_start = words[0].start_us;
                let last_end = words[words.len() - 1].end_us;
                assert(words_view(words@).first().start_us == first_start);
                assert(words_view(words@).last().end_us == last_end);
                let mut kept: Vec<Word<C>> = Vec::new();
                assert(words_view(kept@) =~= Seq::<WordView<C>>::empty());
                let existing = self.partial_words_by_channel.get(&channel);
                let ghost existing_view = channel_words(before, channel);
                proof {
                    match existing {
                        Some(e) => {
                            assert(self.partial_words_by_channel@.contains_key(channel));
                            assert(before[channel] == words_view(e@));
                        },
                        None => {
                            assert(!self.partial_words_by_channel@.contains_key(channel));
                        },
                    }
                }
                if is_final {
                    match existing {
                        Some(e) => {
                            extend_selected(&mut kept, e, Keep::StartsAfter(last_end));
                            assert(words_view(kept@) =~= existing_view.filter(
                                starts_after(last_end as int),
                            ));
                            self.partial_words_by_channel.insert(channel, kept);
                            assert(self.partials() =~= before.insert(
                                channel,
                                existing_view.filter(starts_after(last_end as int)),
                            ));
                        },
                        None => {},
                    }
                    let ghost delivered = words_view(words@);
                    let mut final_words: HashMap<usize, Vec<Word<C>>> = HashMap::new();
                    final_words.insert(channel, words);
                    let diff = Diff {
                        final_words,
                        partial_words: self.partial_words_by_channel.clone(),
                    };
                    assert(diff.final_view() =~= Map::<usize, Seq<WordView<C>>>::empty().insert(
                        channel,
                        delivered,
                    ));
                    diff
                } else {
                    match existing {
                        Some(e) => extend_selected(&mut kept, e, Keep::EndsBy(first_start)),
                        None => {
                            reveal(Seq::filter);
                        },
                    }
                    let ghost head = words_view(kept@);
                    assert(head =~= existing_view.filter(ends_by(first_start as int)));
                    let mut turn = duplicate_words(&words);
                    proof {
                        crate::transcript::word::lemma_words_view_add(kept@, turn@);
                    }
                    kept.append(&mut turn);
                    match existing {
                        Some(e) => extend_selected(&mut kept, e, Keep::StartsFrom(last_end)),
                        None => {
                            reveal(Seq::filter);
                        },
                    }
                    assert(words_view(kept@) =~= splice_partial(
                        existing_view,
                        words_view(words@),
                    ));
                    self.partial_words_by_channel.insert(channel, kept);
                    assert(self.partials() =~= before.insert(
                        channel,
                        splice_partial(existing_view, words_view(words@)),
                    ));
                    let diff = Diff {
                        final_words: HashMap::new(),
                        partial_words: self.partial_words_by_channel.clone(),
                    };
                    assert(diff.final_view() =~= finals_of(offset, response));
                    diff
                }
            },
            StreamResponse::Other => {
                let diff = Diff {
                    final_words: HashMap::new(),
                    partial_words: self.partial_words_by_channel.clone(),
                };
                proof {
                    reveal(Seq::filter);
                    assert(response.words(offset) =~= Seq::<WordView<C>>::empty());
                    assert(diff.final_view() =~= finals_of(offset, response));
                }
                diff
            },
        }
    }
}

} // verus!
