//! The duplex stream session.
//!
//! One producer turns input lines into outbound messages and hands them to
//! the bounded queue; the transport drains the queue; one consumer renders
//! the inbound messages. The session records each direction's state and, as
//! ghost history, the messages accepted, forwarded and received, so that the
//! ordering and termination laws can be stated and proved.

use vstd::prelude::*;
use vstd::string::StringExecFns;
use crate::messages::{models_of, ChatMessage, ChatMessageModel};
use crate::queue::{EnqueueOutcome, OutboundQueue};
use crate::text::{is_blank, line_is_blank};

verus! {

/// The errors a session can surface.
#[derive(PartialEq, Eq, Structural, Clone, Copy, Debug)]
pub enum SessionError {
    /// The stream could not be established; fatal to the session.
    ConnectionError,
    /// The queue's receiving end has gone away; the producer ends quietly.
    QueueClosedError,
    /// A fault while reading the inbound sequence; fatal to the session.
    StreamError,
}

impl SessionError {
    /// A short diagnostic line for this error.
    pub fn describe(&self) -> (r: String)
        ensures
            *self == SessionError::ConnectionError ==> r@ == "failed to establish the stream"@,
            *self == SessionError::QueueClosedError ==> r@ == "failed to send message to server"@,
            *self == SessionError::StreamError ==> r@ == "fault on the inbound stream"@,
    {
        match self {
            SessionError::ConnectionError => String::from_str("failed to establish the stream"),
            SessionError::QueueClosedError => String::from_str("failed to send message to server"),
            SessionError::StreamError => String::from_str("fault on the inbound stream"),
        }
    }
}

/// One input line tagged with the fixed caller identity.
pub open spec fn tagged(identity: Seq<char>, line: Seq<char>) -> ChatMessageModel {
    ChatMessageModel { user_id: identity, message: line }
}

/// The outbound messages produced from a sequence of input lines: a blank
/// line produces nothing; every other line becomes one message tagged with
/// the identity, in the order the lines came.
pub open spec fn outbound_of(identity: Seq<char>, lines: Seq<Seq<char>>) -> Seq<ChatMessageModel>
    decreases lines.len(),
{
    if lines.len() == 0 {
        Seq::empty()
    } else if is_blank(lines.last()) {
        outbound_of(identity, lines.drop_last())
    } else {
        outbound_of(identity, lines.drop_last()).push(tagged(identity, lines.last()))
    }
}

/// The views of a sequence of input lines, in the same order.
pub open spec fn views_of(lines: Seq<String>) -> Seq<Seq<char>> {
    lines.map(|i: int, l: String| l@)
}

/// Builds the outbound message for one input line: none for a blank line,
/// otherwise the line tagged with the caller identity.
pub fn outbound_for_line(identity: &str, line: String) -> (m: Option<ChatMessage>)
    ensures
        is_blank(line@) ==> m is None,
        !is_blank(line@) ==> m is Some && m->0@ == tagged(identity@, line@),
{
    if line_is_blank(line.as_str()) {
        None
    } else {
        Some(ChatMessage { user_id: identity.to_owned(), message: line })
    }
}

/// Runs the producer decision over a whole sequence of input lines and
/// collects the outbound messages it produces, in order.
pub fn outbound_messages(identity: &str, lines: Vec<String>) -> (out: Vec<ChatMessage>)
    ensures
        models_of(out@) == outbound_of(identity@, views_of(lines@)),
{
    let mut out: Vec<ChatMessage> = Vec::new();
    let mut k: usize = 0;
    proof {
        assert(models_of(out@) =~= outbound_of(identity@, views_of(lines@.take(0))));
    }
    while k < lines.len()
        invariant
            k <= lines@.len(),
            models_of(out@) == outbound_of(identity@, views_of(lines@.take(k as int))),
        decreases lines@.len() - k,
    {
        let ghost prev = lines@.take(k as int);
        let ghost next = lines@.take(k as int + 1);
        let line = lines[k].clone();
        proof {
            assert(views_of(next).drop_last() =~= views_of(prev));
            assert(views_of(next).last() == lines@[k as int]@);
        }
        match outbound_for_line(identity, line) {
            Some(message) => {
                let ghost before = out@;
                out.push(message);
                proof {
                    assert(models_of(out@) =~= models_of(before).push(message@));
                }
            },
            None => {},
        }
        k = k + 1;
    }
    proof {
        assert(lines@.take(lines@.len() as int) =~= lines@);
    }
    out
}

/// Ordering law: a sequence of non-blank input lines produces exactly one
/// outbound message per line, in the order the lines came, each tagged with
/// the fixed caller identity.
pub proof fn lemma_outbound_order(identity: Seq<char>, lines: Seq<Seq<char>>)
    requires
        forall|i: int| 0 <= i < lines.len() ==> !is_blank(#[trigger] lines[i]),
    ensures
        outbound_of(identity, lines).len() == lines.len(),
        forall|i: int|
            0 <= i < lines.len() ==> outbound_of(identity, lines)[i] == tagged(
                identity,
                lines[i],
            ),
    decreases lines.len(),
{
    if lines.len() > 0 {
        lemma_outbound_order(identity, lines.drop_last());
    }
}

/// Silence law: a blank input line produces no outbound message, wherever
/// it comes in the input.
pub proof fn lemma_blank_line_no_message(identity: Seq<char>, lines: Seq<Seq<char>>, line: Seq<
    char,
>)
    requires
        is_blank(line),
    ensures
        outbound_of(identity, lines.push(line)) == outbound_of(identity, lines),
{
    assert(lines.push(line).drop_last() =~= lines);
    assert(lines.push(line).last() == line);
}

/// The state of the producer activity.
#[derive(PartialEq, Eq, Structural, Clone, Copy, Debug)]
pub enum ProducerState {
    /// Lines are still being read and offered.
    Running,
    /// The input source is exhausted; the producer ended normally.
    InputDone,
    /// An enqueue attempt found the queue closed; the producer ended
    /// quietly, leaving the consumer untouched.
    Stopped,
}

/// The state of the consumer activity.
#[derive(PartialEq, Eq, Structural, Clone, Copy, Debug)]
pub enum ConsumerState {
    /// Inbound messages are still being drained.
    Running,
    /// The inbound sequence ended normally; no error, no retry.
    Ended,
    /// A transport fault ended the session; surfaced to the caller.
    Failed,
}

/// What one offered line came to.
#[derive(PartialEq, Eq, Structural, Clone, Copy, Debug)]
pub enum LineOutcome {
    /// The line was blank: no outbound message.
    Skipped,
    /// A message was built and accepted by the queue.
    Accepted,
    /// The queue is full: the producer must suspend and offer the same
    /// line again once the transport has drained a message.
    MustWait,
    /// The queue's receiving end has gone away: the producer terminated.
    ProducerStopped,
}

/// A duplex chat session: the fixed caller identity, the bounded outbound
/// queue, the state of each direction, and the ghost histories of the
/// messages accepted, forwarded and received.
pub struct Session {
    identity: String,
    queue: OutboundQueue,
    producer: ProducerState,
    consumer: ConsumerState,
    accepted: Ghost<Seq<ChatMessageModel>>,
    forwarded: Ghost<Seq<ChatMessageModel>>,
    received: Ghost<Seq<ChatMessageModel>>,
}

impl Session {
    /// The fixed caller identity every outbound message is tagged with.
    pub closed spec fn identity(&self) -> Seq<char> {
        self.identity@
    }

    /// The messages accepted into the queue so far, in acceptance order.
    pub closed spec fn accepted(&self) -> Seq<ChatMessageModel> {
        self.accepted@
    }

    /// The messages already handed to the transport, in hand-off order.
    pub closed spec fn forwarded(&self) -> Seq<ChatMessageModel> {
        self.forwarded@
    }

    /// The inbound messages received so far, in arrival order.
    pub closed spec fn received(&self) -> Seq<ChatMessageModel> {
        self.received@
    }

    /// The messages pending in the queue, oldest first.
    pub closed spec fn pending(&self) -> Seq<ChatMessageModel> {
        self.queue.pending()
    }

    /// The capacity of the outbound queue.
    pub closed spec fn cap(&self) -> nat {
        self.queue.cap()
    }

    /// Whether the queue's receiving end has gone away.
    pub closed spec fn queue_closed(&self) -> bool {
        self.queue.is_closed()
    }

    /// The state of the producer activity.
    pub closed spec fn producer_state(&self) -> ProducerState {
        self.producer
    }

    /// The state of the consumer activity.
    pub closed spec fn consumer_state(&self) -> ConsumerState {
        self.consumer
    }

    /// Well-formedness: the queue respects its bound, the accepted history
    /// is exactly the forwarded history followed by the pending messages,
    /// every accepted message is tagged with the identity and carries a
    /// non-blank payload, and a stopped producer implies a closed queue.
    pub closed spec fn wf(&self) -> bool {
        &&& self.queue.wf()
        &&& self.accepted@ == self.forwarded@ + self.queue.pending()
        &&& forall|i: int|
            0 <= i < self.accepted@.len() ==> (#[trigger] self.accepted@[i]).user_id
                == self.identity@ && !is_blank(self.accepted@[i].message)
        &&& self.producer is Stopped ==> self.queue.is_closed()
    }

    /// Opens a session: an empty queue of the given capacity, both
    /// activities running, all histories empty.
    pub fn start(identity: String, capacity: usize) -> (s: Session)
        requires
            capacity >= 1,
        ensures
            s.wf(),
            s.identity() == identity@,
            s.cap() == capacity as nat,
            s.producer_state() is Running,
            s.consumer_state() is Running,
            s.accepted() == Seq::<ChatMessageModel>::empty(),
            s.forwarded() == Seq::<ChatMessageModel>::empty(),
            s.received() == Seq::<ChatMessageModel>::empty(),
            s.pending() == Seq::<ChatMessageModel>::empty(),
            !s.queue_closed(),
    {
        let s = Session {
            identity,
            queue: OutboundQueue::new(capacity),
            producer: ProducerState::Running,
            consumer: ConsumerState::Running,
            accepted: Ghost(Seq::empty()),
            forwarded: Ghost(Seq::empty()),
            received: Ghost(Seq::empty()),
        };
        proof {
            assert(s.accepted@ =~= s.forwarded@ + s.queue.pending());
        }
        s
    }

    /// Offers one input line to the producer.
    ///
    /// A blank line is skipped. Otherwise the line is tagged with the
    /// identity and offered to the queue: accepted when there is room, made
    /// to wait when the queue is full (nothing is dropped or reordered), and
    /// refused when the queue is closed, which stops the producer while the
    /// consumer keeps running untouched.
    pub fn offer_line(&mut self, line: String) -> (outcome: LineOutcome)
        requires
            old(self).wf(),
            old(self).producer_state() is Running,
        ensures
            final(self).wf(),
            final(self).identity() == old(self).identity(),
            final(self).cap() == old(self).cap(),
            final(self).consumer_state() == old(self).consumer_state(),
            final(self).forwarded() == old(self).forwarded(),
            final(self).received() == old(self).received(),
            final(self).queue_closed() == old(self).queue_closed(),
            is_blank(line@) ==> {
                &&& outcome == LineOutcome::Skipped
                &&& final(self).accepted() == old(self).accepted()
                &&& final(self).pending() == old(self).pending()
                &&& final(self).producer_state() is Running
            },
            !is_blank(line@) && old(self).queue_closed() ==> {
                &&& outcome == LineOutcome::ProducerStopped
                &&& final(self).accepted() == old(self).accepted()
                &&& final(self).pending() == old(self).pending()
                &&& final(self).producer_state() is Stopped
            },
            !is_blank(line@) && !old(self).queue_closed() && old(self).pending().len() == old(self).cap() ==> {
                &&& outcome == LineOutcome::MustWait
                &&& final(self).accepted() == old(self).accepted()
                &&& final(self).pending() == old(self).pending()
                &&& final(self).producer_state() is Running
            },
            !is_blank(line@) && !old(self).queue_closed() && old(self).pending().len() < old(self).cap() ==> {
                &&& outcome == LineOutcome::Accepted
                &&& final(self).accepted() == old(self).accepted().push(tagged(old(self).identity(), line@))
                &&& final(self).pending() == old(self).pending().push(tagged(old(self).identity(), line@))
                &&& final(self).producer_state() is Running
            },
    {
        if line_is_blank(line.as_str()) {
            return LineOutcome::Skipped;
        }
        let message = ChatMessage { user_id: self.identity.clone(), message: line };
        let ghost model = message@;
        match self.queue.try_enqueue(message) {
            EnqueueOutcome::Accepted => {
                self.accepted = Ghost(self.accepted@.push(model));
                proof {
                    assert(self.accepted@ =~= self.forwarded@ + self.queue.pending());
                }
                LineOutcome::Accepted
            },
            EnqueueOutcome::WouldBlock => LineOutcome::MustWait,
            EnqueueOutcome::Closed => {
                self.producer = ProducerState::Stopped;
                LineOutcome::ProducerStopped
            },
        }
    }

    /// Records that the input source is exhausted: the producer ends
    /// normally; nothing else changes.
    pub fn input_exhausted(&mut self)
        requires
            old(self).wf(),
            old(self).producer_state() is Running,
        ensures
            final(self).wf(),
            final(self).producer_state() is InputDone,
            final(self).identity() == old(self).identity(),
            final(self).cap() == old(self).cap(),
            final(self).consumer_state() == old(self).consumer_state(),
            final(self).accepted() == old(self).accepted(),
            final(self).forwarded() == old(self).forwarded(),
            final(self).received() == old(self).received(),
            final(self).pending() == old(self).pending(),
            final(self).queue_closed() == old(self).queue_closed(),
    {
        self.producer = ProducerState::InputDone;
    }

    /// Hands the oldest pending message to the transport, if any; the
    /// forwarded history grows by exactly that message.
    pub fn next_outbound(&mut self) -> (m: Option<ChatMessage>)
        requires
            old(self).wf(),
        ensures
            final(self).wf(),
            final(self).identity() == old(self).identity(),
            final(self).cap() == old(self).cap(),
            final(self).producer_state() == old(self).producer_state(),
            final(self).consumer_state() == old(self).consumer_state(),
            final(self).accepted() == old(self).accepted(),
            final(self).received() == old(self).received(),
            final(self).queue_closed() == old(self).queue_closed(),
            old(self).pending().len() == 0 ==> {
                &&& m is None
                &&& final(self).forwarded() == old(self).forwarded()
                &&& final(self).pending() == old(self).pending()
            },
            old(self).pending().len() > 0 ==> {
                &&& m is Some
                &&& m->0@ == old(self).pending()[0]
                &&& final(self).forwarded() == old(self).forwarded().push(old(self).pending()[0])
                &&& final(self).pending() == old(self).pending().drop_first()
            },
    {
        match self.queue.dequeue() {
            None => None,
            Some(front) => {
                self.forwarded = Ghost(self.forwarded@.push(front@));
                proof {
                    assert(self.accepted@ =~= self.forwarded@ + self.queue.pending());
                }
                Some(front)
            },
        }
    }

    /// Records one inbound message and returns its rendering for the
    /// output sink; the consumer keeps running.
    pub fn on_inbound(&mut self, message: ChatMessage) -> (line: String)
        requires
            old(self).wf(),
            old(self).consumer_state() is Running,
        ensures
            final(self).wf(),
            final(self).identity() == old(self).identity(),
            final(self).cap() == old(self).cap(),
            final(self).producer_state() == old(self).producer_state(),
            final(self).consumer_state() is Running,
            final(self).accepted() == old(self).accepted(),
            final(self).forwarded() == old(self).forwarded(),
            final(self).pending() == old(self).pending(),
            final(self).queue_closed() == old(self).queue_closed(),
            final(self).received() == old(self).received().push(message@),
            line@ == rendered(message@),
    {
        self.received = Ghost(self.received@.push(message@));
        render_inbound(&message)
    }

    /// Records that the inbound sequence ended normally: the consumer
    /// terminates without error and without retry; nothing else changes.
    pub fn inbound_ended(&mut self)
        requires
            old(self).wf(),
            old(self).consumer_state() is Running,
        ensures
            final(self).wf(),
            final(self).consumer_state() is Ended,
            final(self).identity() == old(self).identity(),
            final(self).cap() == old(self).cap(),
            final(self).producer_state() == old(self).producer_state(),
            final(self).accepted() == old(self).accepted(),
            final(self).forwarded() == old(self).forwarded(),
            final(self).received() == old(self).received(),
            final(self).pending() == old(self).pending(),
            final(self).queue_closed() == old(self).queue_closed(),
    {
        self.consumer = ConsumerState::Ended;
    }

    /// Records a fault on the inbound sequence: the consumer fails and the
    /// stream error is surfaced to the caller; nothing else changes.
    pub fn inbound_fault(&mut self) -> (e: SessionError)
        requires
            old(self).wf(),
            old(self).consumer_state() is Running,
        ensures
            final(self).wf(),
            final(self).consumer_state() is Failed,
            e == SessionError::StreamError,
            final(self).identity() == old(self).identity(),
            final(self).cap() == old(self).cap(),
            final(self).producer_state() == old(self).producer_state(),
            final(self).accepted() == old(self).accepted(),
            final(self).forwarded() == old(self).forwarded(),
            final(self).received() == old(self).received(),
            final(self).pending() == old(self).pending(),
            final(self).queue_closed() == old(self).queue_closed(),
    {
        self.consumer = ConsumerState::Failed;
        SessionError::StreamError
    }

    /// Records that the queue's receiving end has gone away: later enqueue
    /// attempts are refused; the pending messages and both activity states
    /// are left as they were.
    pub fn receiver_dropped(&mut self)
        requires
            old(self).wf(),
        ensures
            final(self).wf(),
            final(self).queue_closed(),
            final(self).identity() == old(self).identity(),
            final(self).cap() == old(self).cap(),
            final(self).producer_state() == old(self).producer_state(),
            final(self).consumer_state() == old(self).consumer_state(),
            final(self).accepted() == old(self).accepted(),
            final(self).forwarded() == old(self).forwarded(),
            final(self).received() == old(self).received(),
            final(self).pending() == old(self).pending(),
    {
        self.queue.close();
    }

    /// The state of the producer activity, for the driving loop.
    pub fn producer_status(&self) -> (st: ProducerState)
        ensures
            st == self.producer_state(),
    {
        self.producer
    }

    /// The state of the consumer activity, for the driving loop.
    pub fn consumer_status(&self) -> (st: ConsumerState)
        ensures
            st == self.consumer_state(),
    {
        self.consumer
    }

    /// How many outbound messages are pending in the queue.
    pub fn pending_len(&self) -> (n: usize)
        ensures
            n == self.pending().len(),
    {
        self.queue.len()
    }
}

/// Runs the producer and the transport hand-off of one session over a whole
/// sequence of input lines, offline: each line is offered in order; when the
/// queue is full the producer waits while the transport drains one message;
/// at the end the queue is drained. The messages the transport observed are
/// returned, and they are exactly the non-blank lines, in the order typed,
/// each tagged with the caller identity.
pub fn forward_lines(identity: String, lines: Vec<String>, capacity: usize) -> (out: Vec<
    ChatMessage,
>)
    requires
        capacity >= 1,
    ensures
        models_of(out@) == outbound_of(identity@, views_of(lines@)),
{
    let mut s = Session::start(identity, capacity);
    let ghost id: Seq<char> = s.identity();
    let mut out: Vec<ChatMessage> = Vec::new();
    let mut k: usize = 0;
    proof {
        assert(views_of(lines@.take(0)) =~= Seq::<Seq<char>>::empty());
        assert(models_of(out@) =~= Seq::<ChatMessageModel>::empty());
    }
    while k < lines.len()
        invariant
            k <= lines@.len(),
            s.wf(),
            s.identity() == id,
            s.cap() == capacity as nat,
            capacity >= 1,
            s.producer_state() is Running,
            !s.queue_closed(),
            s.accepted() == outbound_of(id, views_of(lines@.take(k as int))),
            models_of(out@) == s.forwarded(),
        decreases lines@.len() - k,
    {
        let ghost prev = lines@.take(k as int);
        let ghost next = lines@.take(k as int + 1);
        proof {
            assert(views_of(next).drop_last() =~= views_of(prev));
            assert(views_of(next).last() == lines@[k as int]@);
        }
        let line = lines[k].clone();
        let outcome = s.offer_line(line.clone());
        if outcome == LineOutcome::MustWait {
            // Backpressure: the queue is full, so the transport takes the
            // oldest message before the same line is offered again.
            let ghost before = out@;
            let drained = s.next_outbound().unwrap();
            out.push(drained);
            proof {
                assert(models_of(out@) =~= models_of(before).push(drained@));
            }
            let second = s.offer_line(line);
            assert(second == LineOutcome::Accepted);
        }
        k = k + 1;
    }
    proof {
        assert(lines@.take(lines@.len() as int) =~= lines@);
    }
    while s.pending_len() > 0
        invariant
            s.wf(),
            s.accepted() == outbound_of(id, views_of(lines@)),
            models_of(out@) == s.forwarded(),
        decreases s.pending().len(),
    {
        let ghost before = out@;
        let drained = s.next_outbound().unwrap();
        out.push(drained);
        proof {
            assert(models_of(out@) =~= models_of(before).push(drained@));
        }
    }
    proof {
        lemma_forwarded_prefix(&s);
        assert(s.forwarded() =~= s.accepted());
    }
    out
}

/// The rendering of one inbound message for the output sink.
pub open spec fn rendered(m: ChatMessageModel) -> Seq<char> {
    "Server says: "@ + m.user_id + ": "@ + m.message
}

/// Renders one inbound message as the line written to the output sink.
pub fn render_inbound(message: &ChatMessage) -> (line: String)
    ensures
        line@ == rendered(message@),
{
    let mut out = String::from_str("Server says: ");
    out.append(message.user_id.as_str());
    out.append(": ");
    out.append(message.message.as_str());
    proof {
        assert(out@ =~= rendered(message@));
    }
    out
}

/// Ordering law for the transport: in a well-formed session the messages
/// handed to the transport are exactly the first forwarded ones of the
/// accepted history, in acceptance order, and every accepted message is
/// tagged with the session identity and carries a non-blank payload.
pub proof fn lemma_forwarded_prefix(s: &Session)
    requires
        s.wf(),
    ensures
        s.accepted() == s.forwarded() + s.pending(),
        s.forwarded() == s.accepted().take(s.forwarded().len() as int),
        forall|i: int|
            0 <= i < s.accepted().len() ==> (#[trigger] s.accepted()[i]).user_id == s.identity()
                && !is_blank(s.accepted()[i].message),
{
    assert(s.forwarded() =~= s.accepted().take(s.forwarded().len() as int));
}

/// Backpressure law for the session: a well-formed session never holds more
/// pending outbound messages than the queue's capacity.
pub proof fn lemma_session_backpressure(s: &Session)
    requires
        s.wf(),
    ensures
        s.pending().len() <= s.cap(),
{
}

} // verus!
