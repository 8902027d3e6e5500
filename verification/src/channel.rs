//! One live connection: framed send, decode-and-dispatch of incoming frames
//! to subscribers in wire arrival order, and an idempotent stop signal that
//! turns every later operation into a cancellation outcome.
//!
//! The channel is the pure state of the connection. Bytes arriving from the
//! stream are handed to [`Channel::handle_frame`]; bytes to write accumulate
//! in [`Channel::outbox`] in send order, so concurrent senders can never
//! interleave partial frames. The surrounding runtime owns the socket and
//! moves bytes between it and this state.

use vstd::prelude::*;
use vstd::seq_lib::*;

use crate::error::NetError;
use crate::message::Message;
use crate::message::bytes_eq;
use crate::message::MessageView;
use crate::message::body_len;
use crate::message::frame_bytes;
use crate::message::parse_frame;
use crate::message::valid_message;

verus! {

/// One independent subscription on a channel: the command it listens for,
/// the matching messages not yet read (oldest first), and the ghost record of
/// what it has read and of every message dispatched while it existed.
pub struct Subscription {
    /// The command this subscription receives.
    pub command: Vec<u8>,
    /// Matching messages dispatched and not yet read, in arrival order.
    pub queue: Vec<Message>,
    /// Every message already read from this subscription, in reading order.
    pub consumed: Ghost<Seq<MessageView>>,
    /// Every message the channel dispatched while this subscription existed,
    /// in wire arrival order.
    pub history: Ghost<Seq<MessageView>>,
}

/// The value sequence of a message sequence.
pub open spec fn views_of(s: Seq<Message>) -> Seq<MessageView> {
    Seq::new(s.len(), |i: int| s[i]@)
}

/// The messages of `history` that a subscription on `command` is owed, in
/// arrival order.
pub open spec fn deliveries(history: Seq<MessageView>, command: Seq<u8>) -> Seq<MessageView> {
    history.filter(|mv: MessageView| mv.command == command)
}

/// A subscription is coherent with the channel's arrival record: what it has
/// read followed by what it still holds is exactly the arrival-order sequence
/// of matching messages, and its own history is a suffix of the channel's.
pub open spec fn sub_ok(s: Subscription, received: Seq<MessageView>) -> bool {
    &&& 1 <= s.command@.len() <= 255
    &&& s.consumed@ + views_of(s.queue@) == deliveries(s.history@, s.command@)
    &&& exists|k: int| 0 <= k <= received.len() && s.history@ == received.skip(k)
}

/// Whether some subscription listens for `command`.
pub open spec fn known_command(subs: Seq<Subscription>, command: Seq<u8>) -> bool {
    exists|i: int| 0 <= i < subs.len() && subs[i].command@ == command
}

/// How one dispatch changes one subscription: the message joins its history,
/// and joins its queue exactly when the command matches.
pub open spec fn dispatched_to(s_old: Subscription, s_new: Subscription, mv: MessageView) -> bool {
    &&& s_new.command@ == s_old.command@
    &&& s_new.history@ == s_old.history@.push(mv)
    &&& s_new.consumed@ == s_old.consumed@
    &&& views_of(s_new.queue@) == if s_old.command@ == mv.command {
        views_of(s_old.queue@).push(mv)
    } else {
        views_of(s_old.queue@)
    }
}

/// One live connection's state.
pub struct Channel {
    /// Unique identifier of this connection.
    pub id: u64,
    /// The remote peer's address.
    pub address: String,
    /// The shared stop signal: once true, every operation resolves to a
    /// cancellation outcome and no frame moves any more.
    pub stopped: bool,
    /// The registered subscriptions, each independent of the others.
    pub subs: Vec<Subscription>,
    /// Every message dispatched on this channel, in wire arrival order.
    pub received: Ghost<Seq<MessageView>>,
    /// Bytes produced for the stream and not yet drained by the runtime:
    /// whole frames in send order.
    pub outbox: Vec<u8>,
    /// The messages sent, in the order their frames were produced.
    pub sent: Ghost<Seq<MessageView>>,
    /// How many of the sent messages' frames the runtime has drained.
    pub flushed: Ghost<nat>,
    /// Largest frame body this channel accepts.
    pub max_frame_body: u32,
}

/// The channel after its stop signal fired: the same state, stopped.
pub open spec fn after_stop(c: Channel) -> Channel {
    Channel { stopped: true, ..c }
}

/// The wire bytes of a message sequence: each message's whole frame, one
/// after the other, in order — no partial frame ever stands between two
/// others.
pub open spec fn frames_of(sent: Seq<MessageView>) -> Seq<u8>
    decreases sent.len(),
{
    if sent.len() == 0 {
        Seq::empty()
    } else {
        frame_bytes(sent[0]) + frames_of(sent.skip(1))
    }
}

/// One more send appends one more whole frame.
proof fn lemma_frames_of_push(sent: Seq<MessageView>, mv: MessageView)
    ensures
        frames_of(sent.push(mv)) == frames_of(sent) + frame_bytes(mv),
    decreases sent.len(),
{
    if sent.len() == 0 {
        assert(sent.push(mv).skip(1) =~= Seq::<MessageView>::empty());
        assert(sent.push(mv)[0] == mv);
        assert(frame_bytes(mv) + frames_of(Seq::empty()) =~= frame_bytes(mv));
        assert(frames_of(sent) + frame_bytes(mv) =~= frame_bytes(mv));
    } else {
        assert(sent.push(mv).skip(1) =~= sent.skip(1).push(mv));
        lemma_frames_of_push(sent.skip(1), mv);
        assert(sent.push(mv)[0] == sent[0]);
        assert((frame_bytes(sent[0]) + frames_of(sent.skip(1))) + frame_bytes(mv) =~= frame_bytes(
            sent[0],
        ) + (frames_of(sent.skip(1)) + frame_bytes(mv)));
    }
}

/// Appending to both sequences of a suffix pair keeps them a suffix pair.
proof fn lemma_skip_push(r: Seq<MessageView>, k: int, mv: MessageView)
    requires
        0 <= k <= r.len(),
    ensures
        r.push(mv).skip(k) == r.skip(k).push(mv),
{
    assert(r.push(mv).skip(k) =~= r.skip(k).push(mv));
}

/// How one more arrival extends the owed deliveries of a subscription.
proof fn lemma_deliveries_push(h: Seq<MessageView>, command: Seq<u8>, mv: MessageView)
    ensures
        deliveries(h.push(mv), command) == if mv.command == command {
            deliveries(h, command).push(mv)
        } else {
            deliveries(h, command)
        },
{
    reveal_with_fuel(Seq::filter, 2);
    assert(h.push(mv).drop_last() =~= h);
    assert(h.push(mv).last() == mv);
}

impl Channel {
    /// The channel's invariant, established at creation and preserved by
    /// every operation.
    pub open spec fn wf(self) -> bool {
        &&& self.max_frame_body >= 2
        &&& forall|i: int|
            0 <= i < self.subs@.len() ==> sub_ok(#[trigger] self.subs@[i], self.received@)
        &&& self.flushed@ <= self.sent@.len()
        &&& self.outbox@ == frames_of(self.sent@.skip(self.flushed@ as int))
    }

    /// A fresh channel around a newly established stream: running, with no
    /// subscriptions, nothing received and nothing written.
    pub fn new(id: u64, address: String, max_frame_body: u32) -> (c: Channel)
        requires
            max_frame_body >= 2,
        ensures
            c.wf(),
            !c.stopped,
            c.id == id,
            c.address == address,
            c.max_frame_body == max_frame_body,
            c.subs@.len() == 0,
            c.received@ == Seq::<MessageView>::empty(),
            c.outbox@ == Seq::<u8>::empty(),
            c.sent@ == Seq::<MessageView>::empty(),
            c.flushed@ == 0,
    {
        Channel {
            id,
            address,
            stopped: false,
            subs: Vec::new(),
            received: Ghost(Seq::empty()),
            outbox: Vec::new(),
            sent: Ghost(Seq::empty()),
            flushed: Ghost(0),
            max_frame_body,
        }
    }

    /// Registers an independent subscription on one command and returns its
    /// index. On a stopped channel the call resolves to the cancellation
    /// outcome instead.
    pub fn subscribe(&mut self, command: Vec<u8>) -> (r: Result<usize, NetError>)
        requires
            old(self).wf(),
            1 <= command@.len() <= 255,
        ensures
            final(self).wf(),
            old(self).stopped ==> r == Err::<usize, NetError>(NetError::ChannelStopped)
                && *final(self) == *old(self),
            !old(self).stopped ==> {
                &&& r == Ok::<usize, NetError>(old(self).subs@.len() as usize)
                &&& final(self).subs@.len() == old(self).subs@.len() + 1
                &&& forall|j: int|
                    0 <= j < old(self).subs@.len() ==> final(self).subs@[j] == old(self).subs@[j]
                &&& final(self).subs@.last().command@ == command@
                &&& final(self).subs@.last().queue@.len() == 0
                &&& final(self).stopped == old(self).stopped
                &&& final(self).id == old(self).id
                &&& final(self).address == old(self).address
                &&& final(self).received@ == old(self).received@
                &&& final(self).outbox@ == old(self).outbox@
                &&& final(self).sent@ == old(self).sent@
                &&& final(self).flushed@ == old(self).flushed@
                &&& final(self).max_frame_body == old(self).max_frame_body
            },
    {
        if self.stopped {
            return Err(NetError::ChannelStopped);
        }
        let idx = self.subs.len();
        let sub = Subscription {
            command,
            queue: Vec::new(),
            consumed: Ghost(Seq::empty()),
            history: Ghost(Seq::empty()),
        };
        proof {
            reveal_with_fuel(Seq::filter, 2);
            assert(views_of(sub.queue@) =~= Seq::<MessageView>::empty());
            assert(sub.consumed@ + views_of(sub.queue@) =~= deliveries(
                sub.history@,
                sub.command@,
            ));
            assert(sub.history@ =~= self.received@.skip(self.received@.len() as int));
        }
        self.subs.push(sub);
        Ok(idx)
    }

    /// Serializes and frames one message and appends the whole frame to the
    /// outbox, atomically with respect to any other sender. On a stopped
    /// channel the send resolves to the cancellation outcome and writes
    /// nothing.
    pub fn send(&mut self, m: &Message) -> (r: Result<(), NetError>)
        requires
            old(self).wf(),
            valid_message(m@, old(self).max_frame_body),
            body_len(m@) + 4 <= usize::MAX,
            old(self).outbox@.len() + 4 + body_len(m@) <= usize::MAX,
        ensures
            final(self).wf(),
            old(self).stopped ==> r == Err::<(), NetError>(NetError::ChannelStopped)
                && *final(self) == *old(self),
            !old(self).stopped ==> {
                &&& r == Ok::<(), NetError>(())
                &&& final(self).outbox@ == old(self).outbox@ + frame_bytes(m@)
                &&& final(self).sent@ == old(self).sent@.push(m@)
                &&& final(self).flushed@ == old(self).flushed@
                &&& final(self).stopped == old(self).stopped
                &&& final(self).id == old(self).id
                &&& final(self).address == old(self).address
                &&& final(self).subs@ == old(self).subs@
                &&& final(self).received@ == old(self).received@
                &&& final(self).max_frame_body == old(self).max_frame_body
            },
    {
        if self.stopped {
            return Err(NetError::ChannelStopped);
        }
        let mut frame = crate::message::encode_frame(m, self.max_frame_body);
        self.outbox.append(&mut frame);
        proof {
            self.sent@ = self.sent@.push(m@);
            let pending = old(self).sent@.skip(old(self).flushed@ as int);
            assert(self.sent@.skip(self.flushed@ as int) =~= pending.push(m@));
            lemma_frames_of_push(pending, m@);
        }
        Ok(())
    }

    /// Hands the runtime every frame produced so far and not yet written, in
    /// send order, and empties the outbox: the runtime writes these bytes to
    /// the stream as one unit. Draining is the runtime's pull, so it works on
    /// a stopped channel too, letting a final flush happen before the stream
    /// closes.
    pub fn drain_outbox(&mut self) -> (r: Vec<u8>)
        requires
            old(self).wf(),
        ensures
            final(self).wf(),
            r@ == old(self).outbox@,
            final(self).outbox@ == Seq::<u8>::empty(),
            final(self).flushed@ == final(self).sent@.len(),
            final(self).stopped == old(self).stopped,
            final(self).id == old(self).id,
            final(self).address == old(self).address,
            final(self).subs@ == old(self).subs@,
            final(self).received@ == old(self).received@,
            final(self).sent@ == old(self).sent@,
            final(self).max_frame_body == old(self).max_frame_body,
    {
        let r = vstd::slice::slice_to_vec(self.outbox.as_slice());
        self.outbox.clear();
        proof {
            self.flushed@ = self.sent@.len();
            assert(self.sent@.skip(self.sent@.len() as int) =~= Seq::<MessageView>::empty());
        }
        r
    }

    /// Fires the stop signal: idempotent, and the single source of truth for
    /// "this connection is ending". Returns whether this call performed the
    /// teardown; on an already-stopped channel nothing changes and nothing is
    /// torn down again.
    pub fn stop(&mut self) -> (first: bool)
        ensures
            *final(self) == after_stop(*old(self)),
            first == !old(self).stopped,
            old(self).wf() ==> final(self).wf(),
    {
        let first = !self.stopped;
        self.stopped = true;
        first
    }

    /// Applies the propagation policy to one protocol task's failure:
    /// channel-level failures — I/O errors and framing violations — are not
    /// salvageable and stop the whole channel; protocol-level failures are
    /// isolated, reported to the caller and nothing more, unless the failing
    /// protocol is privileged and stops the channel itself. Returns whether
    /// this failure performed the teardown.
    pub fn on_failure(&mut self, e: NetError) -> (stopped_now: bool)
        ensures
            e.channel_fatal_spec() ==> *final(self) == after_stop(*old(self)) && stopped_now == !old(
                self,
            ).stopped,
            !e.channel_fatal_spec() ==> *final(self) == *old(self) && !stopped_now,
            old(self).wf() ==> final(self).wf(),
    {
        if e.is_channel_fatal() {
            self.stop()
        } else {
            false
        }
    }

    /// Reads the oldest pending message of one subscription. `Ok(None)` means
    /// nothing is pending yet (the caller suspends and retries); on a stopped
    /// channel the read resolves to the cancellation outcome.
    pub fn read(&mut self, idx: usize) -> (r: Result<Option<Message>, NetError>)
        requires
            old(self).wf(),
            idx < old(self).subs@.len(),
        ensures
            final(self).wf(),
            old(self).stopped ==> r == Err::<Option<Message>, NetError>(NetError::ChannelStopped)
                && *final(self) == *old(self),
            !old(self).stopped && old(self).subs@[idx as int].queue@.len() == 0 ==> r == Ok::<
                Option<Message>,
                NetError,
            >(None) && *final(self) == *old(self),
            !old(self).stopped && old(self).subs@[idx as int].queue@.len() > 0 ==> {
                &&& match r {
                    Ok(Some(m)) => m@ == old(self).subs@[idx as int].queue@[0]@,
                    _ => false,
                }
                &&& final(self).subs@.len() == old(self).subs@.len()
                &&& forall|j: int|
                    0 <= j < old(self).subs@.len() && j != idx ==> final(self).subs@[j] == old(
                        self,
                    ).subs@[j]
                &&& final(self).subs@[idx as int].command@ == old(self).subs@[idx as int].command@
                &&& final(self).subs@[idx as int].queue@ == old(self).subs@[idx as int].queue@
                    .remove(0)
                &&& final(self).subs@[idx as int].consumed@ == old(self).subs@[idx as int].consumed@
                    .push(old(self).subs@[idx as int].queue@[0]@)
                &&& final(self).subs@[idx as int].history@ == old(self).subs@[idx as int].history@
                &&& final(self).stopped == old(self).stopped
                &&& final(self).id == old(self).id
                &&& final(self).address == old(self).address
                &&& final(self).received@ == old(self).received@
                &&& final(self).outbox@ == old(self).outbox@
                &&& final(self).sent@ == old(self).sent@
                &&& final(self).flushed@ == old(self).flushed@
                &&& final(self).max_frame_body == old(self).max_frame_body
            },
    {
        if self.stopped {
            return Err(NetError::ChannelStopped);
        }
        if self.subs[idx].queue.len() == 0 {
            return Ok(None);
        }
        let ghost old_subs = self.subs@;
        let mut s = self.subs.remove(idx);
        let m = s.queue.remove(0);
        proof {
            s.consumed@ = s.consumed@.push(m@);
        }
        proof {
            let so = old_subs[idx as int];
            assert(views_of(so.queue@)[0] == m@);
            assert(s.consumed@ + views_of(s.queue@) =~= so.consumed@ + views_of(so.queue@)) by {
                assert(views_of(s.queue@) =~= views_of(so.queue@).remove(0));
            }
        }
        self.subs.insert(idx, s);
        proof {
            assert(self.subs@ =~= old_subs.update(idx as int, self.subs@[idx as int]));
        }
        Ok(Some(m))
    }

    /// Decodes one incoming frame and fans it out to every matching
    /// subscription, in wire arrival order. A malformed or oversized frame,
    /// and a command no subscription recognizes, is a protocol violation that
    /// stops the channel; on a stopped channel the call resolves to the
    /// cancellation outcome.
    pub fn handle_frame(&mut self, bytes: &[u8]) -> (r: Result<(), NetError>)
        requires
            old(self).wf(),
        ensures
            final(self).wf(),
            old(self).stopped ==> r == Err::<(), NetError>(NetError::ChannelStopped)
                && *final(self) == *old(self),
            !old(self).stopped ==> match parse_frame(bytes@, old(self).max_frame_body) {
                Option::None => r == Err::<(), NetError>(NetError::ProtocolViolation)
                    && *final(self) == after_stop(*old(self)),
                Option::Some(mv) => {
                    if known_command(old(self).subs@, mv.command) {
                        &&& r == Ok::<(), NetError>(())
                        &&& final(self).received@ == old(self).received@.push(mv)
                        &&& final(self).subs@.len() == old(self).subs@.len()
                        &&& forall|j: int|
                            0 <= j < old(self).subs@.len() ==> dispatched_to(
                                old(self).subs@[j],
                                #[trigger] final(self).subs@[j],
                                mv,
                            )
                        &&& final(self).stopped == old(self).stopped
                        &&& final(self).id == old(self).id
                        &&& final(self).address == old(self).address
                        &&& final(self).outbox@ == old(self).outbox@
                        &&& final(self).sent@ == old(self).sent@
                        &&& final(self).flushed@ == old(self).flushed@
                        &&& final(self).max_frame_body == old(self).max_frame_body
                    } else {
                        r == Err::<(), NetError>(NetError::ProtocolViolation) && *final(self)
                            == after_stop(*old(self))
                    }
                },
            },
    {
        if self.stopped {
            return Err(NetError::ChannelStopped);
        }
        let m = match crate::message::decode_frame(bytes, self.max_frame_body) {
            Ok(m) => m,
            Err(e) => {
                self.stopped = true;
                return Err(e);
            },
        };
        let mut known = false;
        let mut i: usize = 0;
        while i < self.subs.len()
            invariant
                *self == *old(self),
                !self.stopped,
                i <= self.subs@.len(),
                known == exists|j: int| 0 <= j < i && self.subs@[j].command@ == m@.command,
            decreases self.subs@.len() - i,
        {
            if bytes_eq(&self.subs[i].command, &m.command) {
                known = true;
            }
            i = i + 1;
        }
        if !known {
            self.stopped = true;
            return Err(NetError::ProtocolViolation);
        }
        let ghost mv = m@;
        let ghost old_subs = self.subs@;
        let mut done: Vec<Subscription> = Vec::new();
        while self.subs.len() > 0
            invariant
                done@.len() + self.subs@.len() == old_subs.len(),
                forall|j: int|
                    0 <= j < done@.len() ==> dispatched_to(old_subs[j], #[trigger] done@[j], mv),
                forall|j: int|
                    0 <= j < self.subs@.len() ==> #[trigger] self.subs@[j] == old_subs[j
                        + done@.len()],
                self.stopped == old(self).stopped,
                self.id == old(self).id,
                self.address == old(self).address,
                self.received@ == old(self).received@,
                self.outbox@ == old(self).outbox@,
                self.sent@ == old(self).sent@,
                self.flushed@ == old(self).flushed@,
                self.max_frame_body == old(self).max_frame_body,
                mv == m@,
            decreases self.subs@.len(),
        {
            let mut s = self.subs.remove(0);
            let ghost s_old = s;
            if bytes_eq(&s.command, &m.command) {
                let copy = m.duplicate();
                s.queue.push(copy);
                proof {
                    assert(views_of(s.queue@) =~= views_of(s_old.queue@).push(mv));
                }
            } else {
                proof {
                    assert(views_of(s.queue@) =~= views_of(s_old.queue@));
                }
            }
            proof {
                s.history@ = s.history@.push(mv);
            }
            done.push(s);
        }
        self.subs = done;
        proof {
            self.received@ = self.received@.push(mv);
            assert forall|j: int|
                0 <= j < self.subs@.len() implies sub_ok(
                #[trigger] self.subs@[j],
                self.received@,
            ) by {
                let so = old_subs[j];
                let sn = self.subs@[j];
                assert(sub_ok(so, old(self).received@));
                lemma_deliveries_push(so.history@, so.command@, mv);
                assert(sn.consumed@ + views_of(sn.queue@) =~= deliveries(
                    sn.history@,
                    sn.command@,
                ));
                let k = choose|k: int|
                    0 <= k <= old(self).received@.len() && so.history@ == old(
                        self,
                    ).received@.skip(k);
                lemma_skip_push(old(self).received@, k, mv);
                assert(sn.history@ == self.received@.skip(k));
            }
        }
        Ok(())
    }
}

/// Stopping is idempotent: stopping an already-stopped channel is the same
/// state again, so any number of stop calls after the first change nothing
/// and perform no further teardown.
pub proof fn lemma_stop_idempotent(c: Channel)
    ensures
        after_stop(after_stop(c)) == after_stop(c),
        after_stop(c).stopped,
{
}

/// No reordering across subscribers: any two subscriptions on one channel saw
/// the same arrival order — the history of the one subscribed later is
/// exactly a suffix of the other's, never a permutation of it.
pub proof fn lemma_no_cross_subscriber_reordering(c: Channel, i: int, j: int)
    requires
        c.wf(),
        0 <= i < c.subs@.len(),
        0 <= j < c.subs@.len(),
    ensures
        exists|k: int|
            0 <= k && (c.subs@[i].history@ == c.subs@[j].history@.skip(k) || c.subs@[j].history@
                == c.subs@[i].history@.skip(k)),
{
    let hi = c.subs@[i].history@;
    let hj = c.subs@[j].history@;
    let r = c.received@;
    assert(sub_ok(c.subs@[i], r));
    assert(sub_ok(c.subs@[j], r));
    let ki = choose|k: int| 0 <= k <= r.len() && hi == r.skip(k);
    let kj = choose|k: int| 0 <= k <= r.len() && hj == r.skip(k);
    if ki >= kj {
        assert(hi == hj.skip(ki - kj)) by {
            assert(r.skip(kj).skip(ki - kj) =~= r.skip(ki));
        }
    } else {
        assert(hj == hi.skip(kj - ki)) by {
            assert(r.skip(ki).skip(kj - ki) =~= r.skip(kj));
        }
    }
}

/// Delivery order: what a subscription still holds is exactly the
/// arrival-order sequence of the matching messages, less those already read.
pub proof fn lemma_delivery_order(c: Channel, i: int)
    requires
        c.wf(),
        0 <= i < c.subs@.len(),
    ensures
        views_of(c.subs@[i].queue@) == deliveries(
            c.subs@[i].history@,
            c.subs@[i].command@,
        ).skip(c.subs@[i].consumed@.len() as int),
{
    let s = c.subs@[i];
    assert(sub_ok(s, c.received@));
    assert(views_of(s.queue@) =~= (s.consumed@ + views_of(s.queue@)).skip(
        s.consumed@.len() as int,
    ));
}

} // verus!
