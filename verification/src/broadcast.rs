//! A bounded multi-consumer broadcast channel, modelled as a growing history
//! with one cursor per subscriber.  A subscriber that falls more than
//! `capacity` events behind observes a lag signal and skips forward; closure
//! is terminal.

use vstd::prelude::*;
use crate::errors::KanshiError;
use crate::events::{EventModel, FileSystemEvent};

verus! {

/// Spec-level picture of the channel: its capacity, everything ever sent, and
/// whether it was closed.
pub struct ChannelModel {
    pub capacity: nat,
    pub history: Seq<EventModel>,
    pub closed: bool,
}

/// Spec-level picture of one receive attempt's outcome.
pub enum RecvOutcomeModel {
    Received(EventModel),
    Lagged,
    Pending,
    Closed,
}

/// What one receive attempt returns and where it leaves the cursor, as a
/// function of the channel state and the subscriber's cursor.
pub open spec fn spec_recv(ch: ChannelModel, cursor: nat) -> (RecvOutcomeModel, nat) {
    if cursor + ch.capacity < ch.history.len() {
        (RecvOutcomeModel::Lagged, (ch.history.len() - ch.capacity) as nat)
    } else if cursor < ch.history.len() {
        (RecvOutcomeModel::Received(ch.history[cursor as int]), (cursor + 1) as nat)
    } else if ch.closed {
        (RecvOutcomeModel::Closed, cursor)
    } else {
        (RecvOutcomeModel::Pending, cursor)
    }
}

/// Everything a subscriber at `cursor` will receive if it keeps up from here
/// on: the rest of the history, in order.
pub open spec fn spec_drain(ch: ChannelModel, cursor: nat) -> Seq<EventModel>
    decreases ch.history.len() - cursor,
{
    if cursor < ch.history.len() {
        seq![ch.history[cursor as int]] + spec_drain(ch, (cursor + 1) as nat)
    } else {
        Seq::empty()
    }
}

/// The sending half of the fan-out: owns the history and the closed flag.
pub struct BroadcastChannel {
    pub capacity: usize,
    pub history: Vec<FileSystemEvent>,
    pub closed: bool,
}

/// One consumer's cursor into the channel's history.
pub struct BroadcastSubscriber {
    pub cursor: usize,
}

/// The outcome of one receive attempt.
#[derive(Clone, Debug)]
pub enum RecvOutcome {
    /// The next event, in publication order.
    Received(FileSystemEvent),
    /// The subscriber fell more than `capacity` events behind and was skipped
    /// forward to the oldest retained event.
    Lagged,
    /// Nothing new yet; the channel is still open.
    Pending,
    /// The channel was closed and everything sent was consumed.
    Closed,
}

impl View for RecvOutcome {
    type V = RecvOutcomeModel;

    open spec fn view(&self) -> RecvOutcomeModel {
        match self {
            RecvOutcome::Received(e) => RecvOutcomeModel::Received(e@),
            RecvOutcome::Lagged => RecvOutcomeModel::Lagged,
            RecvOutcome::Pending => RecvOutcomeModel::Pending,
            RecvOutcome::Closed => RecvOutcomeModel::Closed,
        }
    }
}

impl View for BroadcastChannel {
    type V = ChannelModel;

    open spec fn view(&self) -> ChannelModel {
        ChannelModel {
            capacity: self.capacity as nat,
            history: self.history@.map_values(|e: FileSystemEvent| e@),
            closed: self.closed,
        }
    }
}

impl BroadcastChannel {
    /// A fresh, open channel that retains `capacity` events per subscriber.
    pub fn new(capacity: usize) -> (r: BroadcastChannel)
        requires
            capacity >= 1,
        ensures
            r@.capacity == capacity as nat,
            r@.history.len() == 0,
            !r@.closed,
    {
        BroadcastChannel { capacity, history: Vec::new(), closed: false }
    }

    /// Publish one event.  Fails exactly when the channel was closed, in
    /// which case nothing changes.
    pub fn send(&mut self, ev: FileSystemEvent) -> (r: Result<(), KanshiError>)
        ensures
            old(self)@.closed ==> (r matches Err(e) && e is StreamClosedError && final(self)@
                == old(self)@),
            !old(self)@.closed ==> (r is Ok && final(self)@ == (ChannelModel {
                history: old(self)@.history.push(ev@),
                ..old(self)@
            })),
    {
        if self.closed {
            Err(KanshiError::StreamClosedError)
        } else {
            self.history.push(ev);
            proof {
                assert(self@.history =~= old(self)@.history.push(ev@));
            }
            Ok(())
        }
    }

    /// Attach a new consumer.  It starts at the head: events published before
    /// it attached are not delivered to it.
    pub fn subscribe(&self) -> (s: BroadcastSubscriber)
        ensures
            s.cursor == self@.history.len(),
    {
        BroadcastSubscriber { cursor: self.history.len() }
    }

    /// One receive attempt by `sub`, exactly as `spec_recv` describes it.
    pub fn recv(&self, sub: &mut BroadcastSubscriber) -> (r: RecvOutcome)
        requires
            old(sub).cursor <= self@.history.len(),
        ensures
            (r@, final(sub).cursor as nat) == spec_recv(self@, old(sub).cursor as nat),
            final(sub).cursor <= self@.history.len(),
    {
        let len = self.history.len();
        if len - sub.cursor > self.capacity {
            sub.cursor = len - self.capacity;
            RecvOutcome::Lagged
        } else if sub.cursor < len {
            let ev = self.history[sub.cursor].clone();
            sub.cursor = sub.cursor + 1;
            RecvOutcome::Received(ev)
        } else if self.closed {
            RecvOutcome::Closed
        } else {
            RecvOutcome::Pending
        }
    }

    /// Close the channel.  Terminal: subscribers that drain the history then
    /// see `Closed` forever.
    pub fn close(&mut self)
        ensures
            final(self)@ == (ChannelModel { closed: true, ..old(self)@ }),
    {
        self.closed = true;
    }
}

/// P7 at one step: a subscriber no more than `capacity` behind is never
/// lagged; it receives exactly the next event and advances by one.
pub proof fn lemma_no_loss_within_capacity(ch: ChannelModel, cursor: nat)
    requires
        cursor < ch.history.len(),
        ch.history.len() <= cursor + ch.capacity,
    ensures
        spec_recv(ch, cursor).0 == RecvOutcomeModel::Received(ch.history[cursor as int]),
        spec_recv(ch, cursor).1 == cursor + 1,
{
}

/// A subscriber that keeps up receives precisely the suffix of the history
/// past its cursor, in publication order: nothing is dropped, nothing is
/// reordered, nothing is duplicated.
pub proof fn lemma_drain_delivers_suffix(ch: ChannelModel, cursor: nat)
    requires
        cursor <= ch.history.len(),
    ensures
        spec_drain(ch, cursor) == ch.history.skip(cursor as int),
    decreases ch.history.len() - cursor,
{
    if cursor < ch.history.len() {
        lemma_drain_delivers_suffix(ch, (cursor + 1) as nat);
        assert(seq![ch.history[cursor as int]] + ch.history.skip(cursor as int + 1)
            =~= ch.history.skip(cursor as int));
    } else {
        assert(spec_drain(ch, cursor) =~= ch.history.skip(cursor as int));
    }
}

/// After close, a drained subscriber sees `Closed` on every further attempt,
/// with its cursor unmoved: the sequence ends exactly once.
pub proof fn lemma_closed_is_terminal(ch: ChannelModel, cursor: nat)
    requires
        ch.closed,
        cursor >= ch.history.len(),
    ensures
        spec_recv(ch, cursor).0 == RecvOutcomeModel::Closed,
        spec_recv(ch, cursor).1 == cursor,
{
}

} // verus!
