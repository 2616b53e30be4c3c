//! Channel multiplexer: classification and routing of protocol messages
//! between a request origin and the kernel's communication channels.
//!
//! Requests are classified by content kind alone: debug, interrupt and
//! shutdown requests go to the control channel, everything else to the
//! shell channel. Each channel is single-in-flight: one request is sent
//! and exactly one reply awaited before the next, so replies match
//! requests strictly in submission order within a channel, while the two
//! channels never block each other. Broadcast messages and replies merge
//! into one inbound event stream in arrival order.

use vstd::prelude::*;

verus! {

/// The kind of a protocol message's content. Routing reads nothing else.
#[derive(Clone, Copy, PartialEq, Eq, Structural, Debug)]
pub enum MessageKind {
    ExecuteRequest,
    DebugRequest,
    InterruptRequest,
    ShutdownRequest,
    KernelInfoRequest,
    OtherRequest,
    Status,
    KernelInfoReply,
    OtherReply,
}

/// A protocol message envelope: an opaque tag for the caller, and the
/// content kind that routing decides by.
#[derive(Clone, Copy, PartialEq, Eq, Structural, Debug)]
pub struct Message {
    pub id: u64,
    pub kind: MessageKind,
}

/// The two request/reply channels to a kernel.
#[derive(Clone, Copy, PartialEq, Eq, Structural, Debug)]
pub enum Channel {
    Control,
    Shell,
}

/// Where a message belongs: a pure function of its content kind, never of
/// the channel it arrived on. Debug, interrupt and shutdown requests are
/// urgent and go to control; everything else goes to shell.
pub open spec fn classify_spec(kind: MessageKind) -> Channel {
    match kind {
        MessageKind::DebugRequest => Channel::Control,
        MessageKind::InterruptRequest => Channel::Control,
        MessageKind::ShutdownRequest => Channel::Control,
        _ => Channel::Shell,
    }
}

/// Classifies a message, exactly as `classify_spec` says.
pub fn classify(message: &Message) -> (c: Channel)
    ensures
        c == classify_spec(message.kind),
{
    match message.kind {
        MessageKind::DebugRequest => Channel::Control,
        MessageKind::InterruptRequest => Channel::Control,
        MessageKind::ShutdownRequest => Channel::Control,
        _ => Channel::Shell,
    }
}

/// An event of the merged inbound stream: a broadcast forwarded unmodified,
/// or a reply received on one of the two channels.
#[derive(Clone, Copy, PartialEq, Eq, Structural, Debug)]
pub enum InboundEvent {
    Broadcast(Message),
    Reply(Channel, Message),
}

/// One channel's worker state: the requests queued for it, in submission
/// order, and the single request in flight, if any.
pub struct ChannelState {
    pub queue: Vec<Message>,
    pub inflight: Option<Message>,
}

pub struct ChannelStateView {
    pub queue: Seq<Message>,
    pub inflight: Option<Message>,
}

impl View for ChannelState {
    type V = ChannelStateView;

    open spec fn view(&self) -> ChannelStateView {
        ChannelStateView { queue: self.queue@, inflight: self.inflight }
    }
}

/// The multiplexer's state: the two channel workers and the merged
/// inbound event stream, oldest first.
pub struct Multiplexer {
    pub control: ChannelState,
    pub shell: ChannelState,
    pub inbound: Vec<InboundEvent>,
}

pub struct MuxView {
    pub control: ChannelStateView,
    pub shell: ChannelStateView,
    pub inbound: Seq<InboundEvent>,
}

impl View for Multiplexer {
    type V = MuxView;

    open spec fn view(&self) -> MuxView {
        MuxView { control: self.control@, shell: self.shell@, inbound: self.inbound@ }
    }
}

/// The state of one channel within a multiplexer state.
pub open spec fn chan_of(m: MuxView, ch: Channel) -> ChannelStateView {
    match ch {
        Channel::Control => m.control,
        Channel::Shell => m.shell,
    }
}

/// Submitting a request appends it to the queue of the channel its kind
/// selects; nothing else changes.
pub open spec fn submit_t(m: MuxView, msg: Message) -> MuxView {
    if classify_spec(msg.kind) is Control {
        MuxView {
            control: ChannelStateView {
                queue: m.control.queue.push(msg),
                inflight: m.control.inflight,
            },
            shell: m.shell,
            inbound: m.inbound,
        }
    } else {
        MuxView {
            control: m.control,
            shell: ChannelStateView {
                queue: m.shell.queue.push(msg),
                inflight: m.shell.inflight,
            },
            inbound: m.inbound,
        }
    }
}

/// A channel may send its next request only when none is in flight and one
/// is queued: the single-in-flight discipline.
pub open spec fn can_begin(m: MuxView, ch: Channel) -> bool {
    chan_of(m, ch).inflight is None && chan_of(m, ch).queue.len() > 0
}

/// The request a channel sends next: the head of its queue.
pub open spec fn begin_msg(m: MuxView, ch: Channel) -> Message {
    chan_of(m, ch).queue[0]
}

/// Sending moves the queue's head into flight on its own channel only.
pub open spec fn begin_t(m: MuxView, ch: Channel) -> MuxView {
    let c = chan_of(m, ch);
    let stepped = ChannelStateView {
        queue: c.queue.drop_first(),
        inflight: Some(c.queue[0]),
    };
    match ch {
        Channel::Control => MuxView { control: stepped, shell: m.shell, inbound: m.inbound },
        Channel::Shell => MuxView { control: m.control, shell: stepped, inbound: m.inbound },
    }
}

/// A reply clears its channel's in-flight request and joins the inbound
/// stream; the other channel is untouched.
pub open spec fn reply_t(m: MuxView, ch: Channel, reply: Message) -> MuxView {
    let c = chan_of(m, ch);
    let stepped = ChannelStateView { queue: c.queue, inflight: None };
    let inbound = m.inbound.push(InboundEvent::Reply(ch, reply));
    match ch {
        Channel::Control => MuxView { control: stepped, shell: m.shell, inbound },
        Channel::Shell => MuxView { control: m.control, shell: stepped, inbound },
    }
}

/// A broadcast joins the inbound stream unmodified; the channels are
/// untouched.
pub open spec fn broadcast_t(m: MuxView, msg: Message) -> MuxView {
    MuxView {
        control: m.control,
        shell: m.shell,
        inbound: m.inbound.push(InboundEvent::Broadcast(msg)),
    }
}

impl Multiplexer {
    /// A multiplexer with empty queues, nothing in flight, and an empty
    /// inbound stream.
    pub fn new() -> (r: Multiplexer)
        ensures
            r@.control.queue == Seq::<Message>::empty(),
            r@.control.inflight is None,
            r@.shell.queue == Seq::<Message>::empty(),
            r@.shell.inflight is None,
            r@.inbound == Seq::<InboundEvent>::empty(),
    {
        Multiplexer {
            control: ChannelState { queue: Vec::new(), inflight: None },
            shell: ChannelState { queue: Vec::new(), inflight: None },
            inbound: Vec::new(),
        }
    }

    /// Routes one submitted request to its channel's queue, preserving
    /// submission order within that queue, exactly as `submit_t` says.
    pub fn submit(&mut self, message: Message)
        ensures
            final (self)@ == submit_t(old(self)@, message),
    {
        match classify(&message) {
            Channel::Control => self.control.queue.push(message),
            Channel::Shell => self.shell.queue.push(message),
        }
    }

    /// Takes the next request to put on the wire for `ch`: the head of its
    /// queue, which becomes the channel's single in-flight request. `None`,
    /// with nothing changed, while a request is already in flight or the
    /// queue is empty.
    pub fn next_to_send(&mut self, ch: Channel) -> (r: Option<Message>)
        ensures
            can_begin(old(self)@, ch) ==> final (self)@ == begin_t(old(self)@, ch) && r == Some(
                begin_msg(old(self)@, ch),
            ),
            !can_begin(old(self)@, ch) ==> final (self)@ == old(self)@ && r is None,
    {
        let worker = match ch {
            Channel::Control => &mut self.control,
            Channel::Shell => &mut self.shell,
        };
        if worker.inflight.is_some() || worker.queue.len() == 0 {
            return None;
        }
        let message = worker.queue.remove(0);
        worker.inflight = Some(message);
        proof {
            assert(old(self)@.control.queue.drop_first() =~= old(self)@.control.queue.remove(0));
            assert(old(self)@.shell.queue.drop_first() =~= old(self)@.shell.queue.remove(0));
        }
        Some(message)
    }

    /// Records a reply read from `ch`'s socket: the channel's in-flight
    /// request is answered, FIFO, and the reply joins the inbound stream,
    /// exactly as `reply_t` says. Returns the request the reply answers; a
    /// reply with no request in flight is dropped unchanged.
    pub fn deliver_reply(&mut self, ch: Channel, reply: Message) -> (request: Option<Message>)
        ensures
            old(self)@.chan(ch).inflight matches Some(q) ==> final (self)@ == reply_t(
                old(self)@,
                ch,
                reply,
            ) && request == Some(q),
            old(self)@.chan(ch).inflight is None ==> final (self)@ == old(self)@ && request
                is None,
    {
        let worker = match ch {
            Channel::Control => &mut self.control,
            Channel::Shell => &mut self.shell,
        };
        match worker.inflight {
            Some(request) => {
                worker.inflight = None;
                self.inbound.push(InboundEvent::Reply(ch, reply));
                Some(request)
            },
            None => None,
        }
    }

    /// Forwards a broadcast message, unmodified and in arrival order, into
    /// the inbound stream, exactly as `broadcast_t` says.
    pub fn deliver_broadcast(&mut self, message: Message)
        ensures
            final (self)@ == broadcast_t(old(self)@, message),
    {
        self.inbound.push(InboundEvent::Broadcast(message));
    }
}

impl MuxView {
    /// The state of one channel.
    pub open spec fn chan(self, ch: Channel) -> ChannelStateView {
        chan_of(self, ch)
    }
}

/// Submitting a batch of requests, oldest first.
pub open spec fn submit_all(m: MuxView, msgs: Seq<Message>) -> MuxView
    decreases msgs.len(),
{
    if msgs.len() == 0 {
        m
    } else {
        submit_t(submit_all(m, msgs.drop_last()), msgs.last())
    }
}

/// The subsequence of a batch that classification sends to `ch`, in order.
pub open spec fn routed_to(msgs: Seq<Message>, ch: Channel) -> Seq<Message>
    decreases msgs.len(),
{
    if msgs.len() == 0 {
        Seq::empty()
    } else if classify_spec(msgs.last().kind) == ch {
        routed_to(msgs.drop_last(), ch).push(msgs.last())
    } else {
        routed_to(msgs.drop_last(), ch)
    }
}

/// Law: the router preserves submission order within each channel: after
/// a batch of submissions, each queue has grown by exactly the requests
/// classified to it, in submission order, and the inbound stream is
/// untouched.
pub proof fn lemma_router_order(m: MuxView, msgs: Seq<Message>)
    ensures
        submit_all(m, msgs).control.queue =~= m.control.queue + routed_to(msgs, Channel::Control),
        submit_all(m, msgs).shell.queue =~= m.shell.queue + routed_to(msgs, Channel::Shell),
        submit_all(m, msgs).control.inflight == m.control.inflight,
        submit_all(m, msgs).shell.inflight == m.shell.inflight,
        submit_all(m, msgs).inbound == m.inbound,
    decreases msgs.len(),
{
    if msgs.len() > 0 {
        lemma_router_order(m, msgs.drop_last());
    }
}

/// Law: two requests submitted back-to-back to an idle shell channel are
/// sent in submission order, each answered by exactly one reply before the
/// next is sent, and the inbound stream gains exactly the two shell
/// replies, in the same order, with no other event between them.
pub proof fn lemma_shell_fifo(m0: MuxView, a: Message, b: Message, ra: Message, rb: Message)
    requires
        classify_spec(a.kind) is Shell,
        classify_spec(b.kind) is Shell,
        m0.shell.queue.len() == 0,
        m0.shell.inflight is None,
    ensures
        ({
            let m1 = submit_t(submit_t(m0, a), b);
            let m2 = begin_t(m1, Channel::Shell);
            let m3 = reply_t(m2, Channel::Shell, ra);
            let m4 = begin_t(m3, Channel::Shell);
            let m5 = reply_t(m4, Channel::Shell, rb);
            &&& can_begin(m1, Channel::Shell) && begin_msg(m1, Channel::Shell) == a
            &&& m2.shell.inflight == Some(a)
            &&& can_begin(m3, Channel::Shell) && begin_msg(m3, Channel::Shell) == b
            &&& m4.shell.inflight == Some(b)
            &&& m5.inbound =~= m0.inbound.push(InboundEvent::Reply(Channel::Shell, ra)).push(
                InboundEvent::Reply(Channel::Shell, rb),
            )
            &&& m5.shell.queue.len() == 0 && m5.shell.inflight is None
        }),
{
    let q2 = m0.shell.queue.push(a).push(b);
    assert(q2[0] == a);
    assert(q2.drop_first() =~= seq![b]);
    assert(q2.drop_first().drop_first() =~= Seq::<Message>::empty());
}

/// Law: delivering a control reply never waits on the shell channel: while
/// a shell request is still in flight, the control reply is deliverable at
/// once, leaves the shell leg untouched, and stands in the inbound stream
/// before the shell reply that later arrives.
pub proof fn lemma_control_not_blocked(m: MuxView, rc: Message, rs: Message)
    requires
        m.control.inflight is Some,
        m.shell.inflight is Some,
    ensures
        ({
            let m1 = reply_t(m, Channel::Control, rc);
            let m2 = reply_t(m1, Channel::Shell, rs);
            &&& m1.shell == m.shell
            &&& m1.shell.inflight is Some
            &&& m2.inbound =~= m.inbound.push(InboundEvent::Reply(Channel::Control, rc)).push(
                InboundEvent::Reply(Channel::Shell, rs),
            )
        }),
{
}

} // verus!
