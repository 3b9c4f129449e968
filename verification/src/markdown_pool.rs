//! Which parsed documents of the transcript are kept, and how each is brought
//! to the current text with the smallest update.
use crate::text::{begins_with, same_text, strip_prefix};
use vstd::prelude::*;

verus! {

/// How many parsed documents outlive the frame that rendered them.
pub const MAX_MARKDOWN_PARSE_STATES: usize = 64;

/// One row body's parsed document: what has been fed to it, and the frame that
/// used it last.
#[derive(Debug, PartialEq, Eq)]
pub struct MarkdownParseState {
    pub key: String,
    pub fed: String,
    pub touched: u64,
}

/// What brings a document to the current text.
#[derive(Debug, PartialEq, Eq)]
pub enum MarkdownFeed {
    /// Nothing: it holds the text.
    Keep,
    /// The text goes on where the document ends.
    Append(String),
    /// The text is another one.
    Replace,
    /// There is no document yet.
    Create,
}

/// The same, with the text that is appended as a sequence.
pub enum FeedView {
    Keep,
    Append(Seq<char>),
    Replace,
    Create,
}

impl View for MarkdownFeed {
    type V = FeedView;

    open spec fn view(&self) -> FeedView {
        match *self {
            MarkdownFeed::Keep => FeedView::Keep,
            MarkdownFeed::Append(suffix) => FeedView::Append(suffix@),
            MarkdownFeed::Replace => FeedView::Replace,
            MarkdownFeed::Create => FeedView::Create,
        }
    }
}

/// How a document is brought from what it holds to a text.
pub open spec fn feed_of(fed: Seq<char>, text: Seq<char>) -> FeedView {
    if fed == text {
        FeedView::Keep
    } else if begins_with(text, fed) {
        FeedView::Append(text.skip(fed.len() as int))
    } else {
        FeedView::Replace
    }
}

/// What a document holds after a feed.
pub open spec fn fed_document(document: Seq<char>, feed: FeedView, text: Seq<char>) -> Seq<char> {
    match feed {
        FeedView::Keep => document,
        FeedView::Append(suffix) => document + suffix,
        FeedView::Replace => text,
        FeedView::Create => text,
    }
}

/// Feeding a document brings it to the text, whatever it held: a row that is
/// streamed in chunks and one that is parsed at once hold the same document.
pub proof fn law_feeding_reaches_the_text(fed: Seq<char>, text: Seq<char>)
    ensures
        fed_document(fed, feed_of(fed, text), text) == text,
{
    if begins_with(text, fed) {
        assert(fed + text.skip(fed.len() as int) =~= text);
    }
}

/// The parsed documents that are kept, and the frame that is being rendered.
#[derive(Debug, PartialEq, Eq)]
pub struct MarkdownPool {
    pub states: Vec<MarkdownParseState>,
    pub generation: u64,
}

/// The position of the document with a key.
pub open spec fn state_position(states: Seq<MarkdownParseState>, key: Seq<char>) -> Option<int>
    decreases states.len(),
{
    if states.len() == 0 {
        None
    } else {
        match state_position(states.drop_last(), key) {
            Some(position) => Some(position),
            None => if states.last().key@ == key {
                Some(states.len() - 1)
            } else {
                None
            },
        }
    }
}

proof fn lemma_state_position(states: Seq<MarkdownParseState>, key: Seq<char>)
    ensures
        match state_position(states, key) {
            Some(position) => 0 <= position < states.len() && states[position].key@ == key,
            None => forall|i: int| 0 <= i < states.len() ==> (#[trigger] states[i]).key@ != key,
        },
    decreases states.len(),
{
    if states.len() > 0 {
        let earlier = states.drop_last();
        lemma_state_position(earlier, key);
        if state_position(earlier, key) is None {
            assert forall|i: int| 0 <= i < states.len() - 1 implies (#[trigger] states[i]).key@
                != key by {
                assert(earlier[i] == states[i]);
            }
        }
    }
}

/// Whether no two documents have one key.
pub open spec fn keys_are_distinct(states: Seq<MarkdownParseState>) -> bool {
    forall|i: int, j: int|
        0 <= i < j < states.len() ==> (#[trigger] states[i]).key@ != (#[trigger] states[j]).key@
}

impl MarkdownPool {
    pub fn new() -> (pool: Self)
        ensures
            pool.states@ == Seq::<MarkdownParseState>::empty(),
            pool.generation == 0,
    {
        MarkdownPool { states: Vec::new(), generation: 0 }
    }

    /// Another frame begins.
    pub fn begin_frame(&mut self)
        ensures
            final(self).states == old(self).states,
            final(self).generation == (if old(self).generation == u64::MAX {
                0
            } else {
                old(self).generation + 1
            }),
    {
        self.generation =
        if self.generation == u64::MAX {
            0
        } else {
            self.generation + 1
        };
    }

    fn find(&self, key: &str) -> (position: Option<usize>)
        ensures
            match position {
                Some(position) => position < self.states@.len() && state_position(
                    self.states@,
                    key@,
                ) == Some(position as int),
                None => state_position(self.states@, key@) is None,
            },
    {
        let mut found: Option<usize> = None;
        let mut index: usize = 0;
        while index < self.states.len()
            invariant
                index <= self.states@.len(),
                found is Some ==> found->0 < index,
                match found {
                    Some(found) => state_position(self.states@.take(index as int), key@) == Some(
                        found as int,
                    ),
                    None => state_position(self.states@.take(index as int), key@) is None,
                },
            decreases self.states@.len() - index,
        {
            assert(self.states@.take(index + 1).drop_last() =~= self.states@.take(index as int));
            if found.is_none() && same_text(self.states[index].key.as_str(), key) {
                found = Some(index);
            }
            index = index + 1;
        }
        assert(self.states@.take(self.states@.len() as int) =~= self.states@);
        found
    }

    /// Notes that the frame renders a text under a key, and tells how the
    /// document of that key is brought to it.
    pub fn feed(&mut self, key: &str, text: &str) -> (feed: MarkdownFeed)
        ensures
            final(self).generation == old(self).generation,
            match state_position(old(self).states@, key@) {
                Some(at) => {
                    &&& feed@ == feed_of(old(self).states@[at].fed@, text@)
                    &&& final(self).states@.len() == old(self).states@.len()
                    &&& final(self).states@[at].key == old(self).states@[at].key
                    &&& final(self).states@[at].fed@ == text@
                    &&& final(self).states@[at].touched == old(self).generation
                    &&& forall|i: int|
                        0 <= i < old(self).states@.len() && i != at ==> final(self).states@[i]
                            == old(self).states@[i]
                },
                None => {
                    &&& feed@ is Create
                    &&& final(self).states@.len() == old(self).states@.len() + 1
                    &&& final(self).states@.drop_last() == old(self).states@
                    &&& final(self).states@.last().key@ == key@
                    &&& final(self).states@.last().fed@ == text@
                    &&& final(self).states@.last().touched == old(self).generation
                },
            },
            keys_are_distinct(old(self).states@) ==> keys_are_distinct(final(self).states@),
    {
        let ghost earlier = self.states@;
        proof {
            lemma_state_position(earlier, key@);
        }
        match self.find(key) {
            Some(position) => {
                let state = self.states.remove(position);
                let feed = if same_text(state.fed.as_str(), text) {
                    MarkdownFeed::Keep
                } else {
                    match strip_prefix(text, state.fed.as_str()) {
                        Some(suffix) => MarkdownFeed::Append(suffix.to_owned()),
                        None => MarkdownFeed::Replace,
                    }
                };
                let renewed = MarkdownParseState {
                    key: state.key,
                    fed: text.to_owned(),
                    touched: self.generation,
                };
                self.states.insert(position, renewed);
                assert(self.states@ =~= earlier.update(position as int, renewed));
                feed
            },
            None => {
                self.states.push(
                    MarkdownParseState {
                        key: key.to_owned(),
                        fed: text.to_owned(),
                        touched: self.generation,
                    },
                );
                assert(self.states@.drop_last() =~= earlier);
                MarkdownFeed::Create
            },
        }
    }

    /// The position of a document that was used least recently.
    fn stalest(&self) -> (position: usize)
        requires
            self.states@.len() > 0,
        ensures
            position < self.states@.len(),
            forall|i: int|
                0 <= i < self.states@.len() ==> self.states@[position as int].touched <= (
                #[trigger] self.states@[i]).touched,
    {
        let mut position: usize = 0;
        let mut index: usize = 1;
        while index < self.states.len()
            invariant
                position < index <= self.states@.len(),
                forall|i: int|
                    0 <= i < index ==> self.states@[position as int].touched <= (
                    #[trigger] self.states@[i]).touched,
            decreases self.states@.len() - index,
        {
            if self.states[index].touched < self.states[position].touched {
                position = index;
            }
            index = index + 1;
        }
        position
    }

    /// Drops the least recently used documents beyond the cap, and returns
    /// them.
    pub fn evict_markdown_states(&mut self) -> (dropped: Vec<MarkdownParseState>)
        ensures
            final(self).generation == old(self).generation,
            final(self).states@.len() == (if old(self).states@.len() > MAX_MARKDOWN_PARSE_STATES {
                MAX_MARKDOWN_PARSE_STATES as nat
            } else {
                old(self).states@.len()
            }),
            final(self).states@.to_multiset().add(dropped@.to_multiset()) == old(self).states@.to_multiset(),
            forall|gone: int, kept: int|
                0 <= gone < dropped@.len() && 0 <= kept < final(self).states@.len() ==> (
                #[trigger] dropped@[gone]).touched <= (#[trigger] final(self).states@[kept]).touched,
            keys_are_distinct(old(self).states@) ==> keys_are_distinct(final(self).states@),
    {
        let ghost all = self.states@.to_multiset();
        let mut dropped: Vec<MarkdownParseState> = Vec::new();
        assert(self.states@.to_multiset().add(dropped@.to_multiset()) =~= all) by {
            broadcast use vstd::seq_lib::group_to_multiset_ensures;

        }
        while self.states.len() > MAX_MARKDOWN_PARSE_STATES
            invariant
                self.generation == old(self).generation,
                old(self).states@.len() <= MAX_MARKDOWN_PARSE_STATES ==> self.states@
                    == old(self).states@,
                old(self).states@.len() > MAX_MARKDOWN_PARSE_STATES ==> self.states@.len()
                    >= MAX_MARKDOWN_PARSE_STATES,
                self.states@.to_multiset().add(dropped@.to_multiset()) == all,
                keys_are_distinct(old(self).states@) ==> keys_are_distinct(self.states@),
                forall|gone: int, kept: int|
                    0 <= gone < dropped@.len() && 0 <= kept < self.states@.len() ==> (
                    #[trigger] dropped@[gone]).touched <= (#[trigger] self.states@[kept]).touched,
            decreases self.states@.len(),
        {
            let position = self.stalest();
            let ghost before = self.states@;
            let ghost gone_before = dropped@;
            let state = self.states.remove(position);
            proof {
                assert forall|i: int| 0 <= i < self.states@.len() implies state.touched <= (
                #[trigger] self.states@[i]).touched by {
                    let j = if i < position { i } else { i + 1 };
                    assert(self.states@[i] == before[j]);
                }
                if keys_are_distinct(old(self).states@) {
                    assert forall|i: int, j: int| 0 <= i < j < self.states@.len() implies (
                    #[trigger] self.states@[i]).key@ != (#[trigger] self.states@[j]).key@ by {
                        let i_before = if i < position { i } else { i + 1 };
                        let j_before = if j < position { j } else { j + 1 };
                        assert(self.states@[i] == before[i_before]);
                        assert(self.states@[j] == before[j_before]);
                    }
                }
                vstd::seq_lib::to_multiset_remove(before, position as int);
                assert(self.states@ == before.remove(position as int));
                assert(before.to_multiset().count(state) > 0) by {
                    broadcast use vstd::seq_lib::group_to_multiset_ensures;

                    assert(before.contains(before[position as int]));
                }
                assert(before.to_multiset() =~= self.states@.to_multiset().insert(state));
            }
            dropped.push(state);
            proof {
                vstd::seq_lib::to_multiset_build(gone_before, state);
                assert(dropped@ == gone_before.push(state));
                assert(self.states@.to_multiset().add(dropped@.to_multiset()) =~= all);
                assert forall|gone: int, kept: int|
                    0 <= gone < dropped@.len() && 0 <= kept < self.states@.len() implies (
                #[trigger] dropped@[gone]).touched <= (#[trigger] self.states@[kept]).touched by {
                    let j = if kept < position { kept } else { kept + 1 };
                    assert(self.states@[kept] == before[j]);
                    if gone < gone_before.len() {
                        assert(dropped@[gone] == gone_before[gone]);
                    }
                }
            }
        }
        dropped
    }
}

/// A text that goes on is only appended to: what was parsed is not parsed again. The
/// same text changes nothing, and only a text that begins otherwise replaces it.
pub proof fn law_streamed_text_is_appended(fed: Seq<char>, suffix: Seq<char>, text: Seq<char>)
    ensures
        feed_of(fed, fed) is Keep,
        suffix.len() > 0 ==> feed_of(fed, fed + suffix) == FeedView::Append(suffix),
        feed_of(fed, text) is Replace <==> !(fed.len() <= text.len() && text.take(fed.len() as int)
            == fed),
        !(feed_of(fed, text) is Create),
{
    assert((fed + suffix).take(fed.len() as int) =~= fed);
    assert((fed + suffix).skip(fed.len() as int) =~= suffix);
    if suffix.len() > 0 {
        assert((fed + suffix).len() != fed.len());
    }
    if fed == text {
        assert(text.take(fed.len() as int) =~= fed);
    }
}

/// A document is found under its own key.
pub proof fn law_documents_are_found_by_key(states: Seq<MarkdownParseState>, index: int)
    requires
        0 <= index < states.len(),
        keys_are_distinct(states),
    ensures
        state_position(states, states[index].key@) == Some(index),
{
    lemma_state_position(states, states[index].key@);
    let found = state_position(states, states[index].key@);
    if found is Some {
        let at = found->0;
        if at < index {
            assert(states[at].key@ != states[index].key@);
        } else if index < at {
            assert(states[index].key@ != states[at].key@);
        }
    }
}

/// The pool holds 64 parsed documents at most.
pub proof fn law_pool_has_a_size()
    ensures
        MAX_MARKDOWN_PARSE_STATES == 64,
{
}

} // verus!
