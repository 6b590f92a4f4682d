//! Bounded FIFO retention window over the most recent log messages, with
//! case-insensitive substring search over what is retained.

use vstd::prelude::*;
use std::collections::VecDeque;
use crate::models::{LogMessage, MsgView};
use crate::text::{chars_of, contains_chars, contains_seq, is_match_at, lower_of, to_lower};

verus! {

/// The message text contains the already-lowercased query,
/// case-insensitively.
pub open spec fn matches_query(m: MsgView, lower_query: Seq<char>) -> bool {
    contains_seq(lower_of(m.message), lower_query)
}

/// The messages of `s`, in their original order, whose text contains the
/// already-lowercased query.
pub open spec fn search_views(s: Seq<MsgView>, lower_query: Seq<char>) -> Seq<MsgView>
    decreases s.len(),
{
    if s.len() == 0 {
        Seq::empty()
    } else {
        search_views(s.drop_last(), lower_query) + if matches_query(s.last(), lower_query) {
            seq![s.last()]
        } else {
            Seq::empty()
        }
    }
}

/// The values of a sequence of messages.
pub open spec fn views(s: Seq<LogMessage>) -> Seq<MsgView> {
    s.map_values(|m: LogMessage| m@)
}

/// Of everything ever appended, the `cap` most recent entries, oldest first:
/// what a buffer of capacity `cap` retains.
pub open spec fn window(log: Seq<LogMessage>, cap: nat) -> Seq<LogMessage> {
    if log.len() <= cap {
        log
    } else {
        log.skip(log.len() - cap)
    }
}

/// Fixed-capacity FIFO buffer of the most recent messages. When full, the
/// oldest entry is evicted before the newest is appended.
pub struct HistoryBuffer {
    items: VecDeque<LogMessage>,
    capacity: usize,
    appended: Ghost<Seq<LogMessage>>,
}

impl HistoryBuffer {
    /// Everything ever appended, oldest first.
    pub closed spec fn log(&self) -> Seq<LogMessage> {
        self.appended@
    }

    /// The fixed capacity.
    pub closed spec fn cap(&self) -> nat {
        self.capacity as nat
    }

    /// What is currently retained, oldest first.
    pub closed spec fn view(&self) -> Seq<LogMessage> {
        self.items@
    }

    /// Law: the buffer retains exactly the `cap` most recently appended
    /// messages, oldest first, and never more than `cap`.
    pub open spec fn wf(&self) -> bool {
        &&& self.cap() >= 1
        &&& self@ == window(self.log(), self.cap())
    }

    pub fn new(capacity: usize) -> (r: HistoryBuffer)
        requires
            capacity >= 1,
        ensures
            r.wf(),
            r.cap() == capacity,
            r.log() == Seq::<LogMessage>::empty(),
            r@ == Seq::<LogMessage>::empty(),
    {
        HistoryBuffer {
            items: VecDeque::with_capacity(capacity),
            capacity,
            appended: Ghost(Seq::empty()),
        }
    }

    pub fn len(&self) -> (r: usize)
        ensures
            r == self@.len(),
    {
        self.items.len()
    }

    /// Append one message; if the buffer is at capacity, the oldest entry is
    /// evicted first.
    pub fn append(&mut self, m: LogMessage)
        requires
            old(self).wf(),
        ensures
            final(self).wf(),
            final(self).cap() == old(self).cap(),
            final(self).log() == old(self).log().push(m),
            final(self)@ == window(old(self).log().push(m), old(self).cap()),
    {
        if self.items.len() >= self.capacity {
            let _evicted = self.items.pop_front();
        }
        self.items.push_back(m);
        proof {
            self.appended@ = self.appended@.push(m);
            assert(self@ =~= window(self.log(), self.cap()));
        }
    }

    /// Every retained message, oldest first, whose text contains `query`
    /// case-insensitively; the buffer itself is untouched.
    pub fn search(&self, query: &str) -> (r: Vec<LogMessage>)
        ensures
            views(r@) == search_views(views(self@), lower_of(query@)),
    {
        let lower_q = to_lower(query);
        let q_chars = chars_of(lower_q.as_str());
        let mut r: Vec<LogMessage> = Vec::new();
        let n = self.items.len();
        for idx in 0..n
            invariant
                n == self@.len(),
                q_chars@ == lower_of(query@),
                views(r@) == search_views(views(self@).take(idx as int), lower_of(query@)),
        {
            let m = &self.items[idx];
            let lower_text = to_lower(m.message.as_str());
            let text_chars = chars_of(lower_text.as_str());
            let keeps = contains_chars(&text_chars, &q_chars);
            proof {
                let vs = views(self@);
                assert(vs.take(idx + 1).drop_last() =~= vs.take(idx as int));
                assert(vs.take(idx + 1).last() == vs[idx as int]);
            }
            if keeps {
                r.push(m.duplicate());
                proof {
                    assert(views(r@) =~= search_views(
                        views(self@).take(idx + 1),
                        lower_of(query@),
                    ));
                }
            } else {
                proof {
                    assert(views(r@) =~= search_views(
                        views(self@).take(idx + 1),
                        lower_of(query@),
                    ));
                }
            }
        }
        proof {
            assert(views(self@).take(n as int) =~= views(self@));
        }
        r
    }
}

/// Law: searching with the empty query returns the full history, in order.
pub proof fn lemma_search_empty_query(s: Seq<MsgView>, lower_query: Seq<char>)
    requires
        lower_query.len() == 0,
    ensures
        search_views(s, lower_query) == s,
    decreases s.len(),
{
    if s.len() == 0 {
        assert(search_views(s, lower_query) =~= s);
    } else {
        lemma_search_empty_query(s.drop_last(), lower_query);
        assert(is_match_at(lower_of(s.last().message), lower_query, 0)) by {
            assert(lower_of(s.last().message).subrange(0, 0) =~= lower_query);
        }
        assert(search_views(s, lower_query) =~= s);
    }
}

/// Law: when no retained message matches, the search result is empty.
pub proof fn lemma_search_no_match(s: Seq<MsgView>, lower_query: Seq<char>)
    requires
        forall|i: int| 0 <= i < s.len() ==> !matches_query(s[i], lower_query),
    ensures
        search_views(s, lower_query) == Seq::<MsgView>::empty(),
    decreases s.len(),
{
    if s.len() == 0 {
        assert(search_views(s, lower_query) =~= Seq::<MsgView>::empty());
    } else {
        lemma_search_no_match(s.drop_last(), lower_query);
        assert(search_views(s, lower_query) =~= Seq::<MsgView>::empty());
    }
}

/// Law: once more than `cap` messages have been appended, exactly the `cap`
/// most recent ones are retained, oldest first.
pub proof fn lemma_retention(buf: &HistoryBuffer)
    requires
        buf.wf(),
        buf.log().len() >= buf.cap(),
    ensures
        buf@ == buf.log().skip(buf.log().len() - buf.cap()),
        buf@.len() == buf.cap(),
{
    if buf.log().len() == buf.cap() {
        assert(buf.log().skip(0) =~= buf.log());
    }
}

} // verus!
