//! The control loop's state machine: a single logical thread that, each
//! iteration, handles whichever is ready first of "a worker delivered a
//! message" and "the operator pressed a key", renders output, and drives the
//! pause/search sub-mode. All decisions are made here; the caller only
//! performs the returned action (printing, prompting, restoring the
//! terminal) and hands back the next event.

use vstd::prelude::*;
use vstd::multiset::Multiset;
use crate::filter::FilterSpec;
use crate::history::{HistoryBuffer, search_views, views};
use crate::models::{LogMessage, MsgView};
use crate::text::lower_of;

verus! {

/// The control loop's mode. `Streaming` renders live messages and polls
/// keys; `SearchPaused` suspends raw rendering while the history is
/// browsed; `Stopped` is terminal.
pub enum ControlLoopState {
    Streaming,
    SearchPaused,
    Stopped,
}

/// A single key pressed while the live view is rendering. Anything that is
/// not one of the two bound keys is `Other` and ignored.
pub enum KeyPress {
    Quit,
    SearchHistory,
    Other,
}

/// One thing the control loop can observe in one iteration.
pub enum LoopEvent {
    /// A worker delivered a message through the shared channel.
    Message(LogMessage),
    /// A key was pressed while streaming.
    Key(KeyPress),
    /// Neither side was ready within the polling tick.
    Tick,
    /// The operator submitted a search query at the pause prompt.
    SearchSubmit(String),
    /// The operator cancelled the pause prompt.
    SearchCancel,
}

/// What the caller must do after a step; every decision has already been
/// taken here, the caller only performs the I/O.
pub enum LoopAction {
    /// Nothing to do; poll again.
    Idle,
    /// Print this line, then redraw the footer so it stays the last line.
    PrintLine(LogMessage),
    /// Leave raw mode and prompt for a search query.
    OpenSearch,
    /// Show these matches as a browsable list, then re-enter raw mode and
    /// redraw the footer.
    ShowMatches(Vec<LogMessage>),
    /// Re-enter raw mode and redraw the footer without showing a list.
    Resume,
    /// Restore the terminal and leave the loop.
    Shutdown,
}

/// The aggregator: fan-in point of all workers' messages and of the
/// operator's keys. It owns the history and the filter exclusively.
pub struct Aggregator {
    pub state: ControlLoopState,
    pub history: HistoryBuffer,
    pub filter: FilterSpec,
}

impl Aggregator {
    pub open spec fn wf(&self) -> bool {
        self.history.wf()
    }

    pub fn new(filter: FilterSpec, capacity: usize) -> (r: Aggregator)
        requires
            capacity >= 1,
        ensures
            r.wf(),
            r.state is Streaming,
            r.history.cap() == capacity,
            r.history.log() == Seq::<LogMessage>::empty(),
            r.filter == filter,
    {
        Aggregator {
            state: ControlLoopState::Streaming,
            history: HistoryBuffer::new(capacity),
            filter,
        }
    }

    /// One iteration of the control loop: handle one event, update the
    /// state and the history, and say what the caller must do.
    ///
    /// While the loop is running, every delivered message is appended to
    /// the history exactly once - none is lost, none is duplicated - and it
    /// is printed iff the loop is streaming and the message survives
    /// filtering. The quit key stops the loop; the search key pauses it;
    /// any other key is ignored. A submitted query answers with exactly the
    /// retained messages that contain it case-insensitively, in order, and
    /// resumes streaming.
    pub fn step(&mut self, ev: LoopEvent) -> (r: LoopAction)
        requires
            old(self).wf(),
        ensures
            final(self).wf(),
            final(self).filter == old(self).filter,
            final(self).history.cap() == old(self).history.cap(),
            match ev {
                LoopEvent::Message(m) => {
                    &&& final(self).state == old(self).state
                    &&& (!(old(self).state is Stopped) ==> final(self).history.log() == old(
                        self,
                    ).history.log().push(m))
                    &&& (old(self).state is Streaming ==> match r {
                        LoopAction::PrintLine(p) => old(self).filter.keeps(m@.message) && p@
                            == m@,
                        LoopAction::Idle => !old(self).filter.keeps(m@.message),
                        _ => false,
                    })
                    &&& (old(self).state is SearchPaused ==> r is Idle)
                    &&& (old(self).state is Stopped ==> r is Idle && final(self).history == old(
                        self,
                    ).history)
                },
                LoopEvent::Key(k) => {
                    &&& final(self).history == old(self).history
                    &&& if old(self).state is Streaming && k is Quit {
                        final(self).state is Stopped && r is Shutdown
                    } else if old(self).state is Streaming && k is SearchHistory {
                        final(self).state is SearchPaused && r is OpenSearch
                    } else {
                        final(self).state == old(self).state && r is Idle
                    }
                },
                LoopEvent::Tick => *final(self) == *old(self) && r is Idle,
                LoopEvent::SearchSubmit(q) => {
                    &&& final(self).history == old(self).history
                    &&& if old(self).state is SearchPaused {
                        &&& final(self).state is Streaming
                        &&& match r {
                            LoopAction::ShowMatches(ms) => views(ms@) == search_views(
                                views(old(self).history@),
                                lower_of(q@),
                            ) && ms@.len() > 0,
                            LoopAction::Resume => search_views(
                                views(old(self).history@),
                                lower_of(q@),
                            ).len() == 0,
                            _ => false,
                        }
                    } else {
                        final(self).state == old(self).state && r is Idle
                    }
                },
                LoopEvent::SearchCancel => {
                    &&& final(self).history == old(self).history
                    &&& if old(self).state is SearchPaused {
                        final(self).state is Streaming && r is Resume
                    } else {
                        final(self).state == old(self).state && r is Idle
                    }
                },
            },
    {
        match ev {
            LoopEvent::Message(m) => {
                match self.state {
                    ControlLoopState::Stopped => LoopAction::Idle,
                    ControlLoopState::SearchPaused => {
                        self.history.append(m);
                        LoopAction::Idle
                    },
                    ControlLoopState::Streaming => {
                        let keep = self.filter.keep(&m);
                        let printed = if keep {
                            Some(m.duplicate())
                        } else {
                            None
                        };
                        self.history.append(m);
                        match printed {
                            Some(p) => LoopAction::PrintLine(p),
                            None => LoopAction::Idle,
                        }
                    },
                }
            },
            LoopEvent::Key(k) => {
                match self.state {
                    ControlLoopState::Streaming => {
                        match k {
                            KeyPress::Quit => {
                                self.state = ControlLoopState::Stopped;
                                LoopAction::Shutdown
                            },
                            KeyPress::SearchHistory => {
                                self.state = ControlLoopState::SearchPaused;
                                LoopAction::OpenSearch
                            },
                            KeyPress::Other => LoopAction::Idle,
                        }
                    },
                    _ => LoopAction::Idle,
                }
            },
            LoopEvent::Tick => LoopAction::Idle,
            LoopEvent::SearchSubmit(q) => {
                match self.state {
                    ControlLoopState::SearchPaused => {
                        self.state = ControlLoopState::Streaming;
                        let ms = self.history.search(q.as_str());
                        if ms.len() > 0 {
                            LoopAction::ShowMatches(ms)
                        } else {
                            LoopAction::Resume
                        }
                    },
                    _ => LoopAction::Idle,
                }
            },
            LoopEvent::SearchCancel => {
                match self.state {
                    ControlLoopState::SearchPaused => {
                        self.state = ControlLoopState::Streaming;
                        LoopAction::Resume
                    },
                    _ => LoopAction::Idle,
                }
            },
        }
    }
}

/// Everything the workers produced, as one bag: the union over all workers
/// of the messages each delivered into the shared channel.
pub open spec fn produced_total(parts: Seq<Seq<MsgView>>) -> Multiset<MsgView>
    decreases parts.len(),
{
    if parts.len() == 0 {
        Multiset::empty()
    } else {
        produced_total(parts.drop_last()).add(parts.last().to_multiset())
    }
}

proof fn lemma_produced_total_len(parts: Seq<Seq<MsgView>>, m: nat)
    requires
        forall|i: int| 0 <= i < parts.len() ==> parts[i].len() == m,
    ensures
        produced_total(parts).len() == parts.len() * m,
    decreases parts.len(),
{
    broadcast use vstd::multiset::axiom_len_add;

    if parts.len() == 0 {
        assert(parts.len() * m == 0) by (nonlinear_arith)
            requires
                parts.len() == 0,
        ;
    } else {
        assert(forall|i: int|
            0 <= i < parts.drop_last().len() ==> parts.drop_last()[i].len() == m);
        lemma_produced_total_len(parts.drop_last(), m);
        parts.last().to_multiset_ensures();
        assert(parts.last().len() == m);
        assert((parts.len() - 1) * m + m == parts.len() * m) by (nonlinear_arith);
    }
}

/// Law: with K workers producing m messages each, an arrival order that
/// loses nothing and duplicates nothing - one whose bag of messages is
/// exactly the union of what the workers produced - carries exactly K times
/// m messages, whatever the interleaving.
pub proof fn lemma_fan_in_count(parts: Seq<Seq<MsgView>>, received: Seq<MsgView>, m: nat)
    requires
        received.to_multiset() == produced_total(parts),
        forall|i: int| 0 <= i < parts.len() ==> parts[i].len() == m,
    ensures
        received.len() == parts.len() * m,
{
    lemma_produced_total_len(parts, m);
    received.to_multiset_ensures();
}

} // verus!
