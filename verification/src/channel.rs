//! The bridge between the events of one data channel and the two calls of
//! its user: send, gated by the open latch, and receive, fed by a queue.

use vstd::prelude::*;
use vstd::slice::slice_to_vec;
use crate::facade::Error;
use crate::mailbox::Mailbox;
use crate::sync_util::{PermanentNotify, Step};

verus! {

/// Why a send or a receive failed.
#[derive(Debug)]
pub enum ChannelError {
    /// The channel is closed and everything received has been handed out.
    ChannelClosed,
    /// The channel was closed before the message could be sent.
    BrokenPipe,
    /// The transport reported an error on this channel.
    Transport(Error),
}

/// One thing that arrived on a channel, as a mathematical value: the bytes
/// of a message, or the text of the error that ended the channel.
pub type Delivery = Result<Seq<u8>, Seq<char>>;

/// The value of a queued item.
pub open spec fn delivery(item: Result<Vec<u8>, Error>) -> Delivery {
    match item {
        Ok(buf) => Ok(buf@),
        Err(e) => Err(e@),
    }
}

/// What a receive hands out for a delivery: the bytes of a message as they
/// arrived, or the transport's error.
pub open spec fn received(d: Delivery, r: Result<Vec<u8>, ChannelError>) -> bool {
    match d {
        Ok(bytes) => r matches Ok(buf) && buf@ == bytes,
        Err(text) => r matches Err(ChannelError::Transport(e)) && e@ == text,
    }
}

/// An event of the transport on one channel.
pub enum ChannelEvent {
    /// The channel can now carry messages.
    Open,
    /// A message arrived.
    Message(Seq<u8>),
    /// The channel failed.
    Error(Seq<char>),
    /// The channel closed.
    Close,
}

/// The receiving half of a channel as a mathematical value.
pub struct ReceiverView {
    /// What arrived and has not been handed out, oldest first.
    pub inbox: Seq<Delivery>,
    /// Whether the inbox takes nothing more.
    pub closed: bool,
}

impl ReceiverView {
    /// The half after an event. A message joins the inbox while it is open.
    /// An error joins it while it is open, as its last item, and closes it.
    /// A close closes it. Opening does not concern this half.
    pub open spec fn after(self, event: ChannelEvent) -> Self {
        match event {
            ChannelEvent::Open => self,
            ChannelEvent::Message(bytes) => if self.closed {
                self
            } else {
                ReceiverView { inbox: self.inbox.push(Ok(bytes)), ..self }
            },
            ChannelEvent::Error(text) => if self.closed {
                self
            } else {
                ReceiverView { inbox: self.inbox.push(Err(text)), closed: true }
            },
            ChannelEvent::Close => ReceiverView { closed: true, ..self },
        }
    }

    /// Whether `step` is what a receive answers in this state: the oldest
    /// delivery where there is one, `ChannelClosed` where the inbox is closed
    /// and empty, and a wait where it is open and empty.
    pub open spec fn answers(self, step: Step<Result<Vec<u8>, ChannelError>>) -> bool {
        if self.inbox.len() > 0 {
            step matches Step::Ready(r) && received(self.inbox[0], r)
        } else if self.closed {
            step matches Step::Ready(Err(ChannelError::ChannelClosed))
        } else {
            step is Pending
        }
    }

    /// The half after a receive: without its oldest delivery.
    pub open spec fn after_recv(self) -> Self {
        if self.inbox.len() > 0 {
            ReceiverView { inbox: self.inbox.skip(1), ..self }
        } else {
            self
        }
    }

    /// The half after a run of events.
    pub open spec fn after_all(self, events: Seq<ChannelEvent>) -> Self
        decreases events.len(),
    {
        if events.len() == 0 {
            self
        } else {
            self.after_all(events.drop_last()).after(events.last())
        }
    }
}

/// What a send decides.
#[derive(Clone, Copy, Debug, PartialEq, Eq, Structural)]
pub enum SendDecision {
    /// The channel is open: hand the message to the transport.
    Transmit,
    /// The channel is closed: fail.
    BrokenPipe,
    /// The channel is neither open nor closed yet: wait for either.
    Wait,
}

/// The sending half of a channel as a mathematical value.
pub struct SenderView {
    /// Whether the open latch is set.
    pub open: bool,
    /// Whether the close latch is set.
    pub closed: bool,
}

impl SenderView {
    /// The half after an event: opening sets the open latch, an error or a
    /// close sets the close latch, and no event clears either.
    pub open spec fn after(self, event: ChannelEvent) -> Self {
        match event {
            ChannelEvent::Open => SenderView { open: true, ..self },
            ChannelEvent::Message(_) => self,
            ChannelEvent::Error(_) => SenderView { closed: true, ..self },
            ChannelEvent::Close => SenderView { closed: true, ..self },
        }
    }

    /// The half after a run of events.
    pub open spec fn after_all(self, events: Seq<ChannelEvent>) -> Self
        decreases events.len(),
    {
        if events.len() == 0 {
            self
        } else {
            self.after_all(events.drop_last()).after(events.last())
        }
    }

    /// What a send decides in this state. A closed channel wins over an
    /// open one.
    pub open spec fn decision(self) -> SendDecision {
        if self.closed {
            SendDecision::BrokenPipe
        } else if self.open {
            SendDecision::Transmit
        } else {
            SendDecision::Wait
        }
    }
}

/// A channel as a mathematical value: its two halves.
pub struct ChannelView {
    pub sender: SenderView,
    pub receiver: ReceiverView,
}

impl ChannelView {
    /// The channel after an event: both halves after it.
    pub open spec fn after(self, event: ChannelEvent) -> Self {
        ChannelView { sender: self.sender.after(event), receiver: self.receiver.after(event) }
    }

    /// The channel after a run of events.
    pub open spec fn after_all(self, events: Seq<ChannelEvent>) -> Self {
        ChannelView {
            sender: self.sender.after_all(events),
            receiver: self.receiver.after_all(events),
        }
    }

    /// A channel on which nothing has happened yet.
    pub open spec fn fresh(is_open: bool) -> Self {
        ChannelView {
            sender: SenderView { open: is_open, closed: false },
            receiver: ReceiverView { inbox: Seq::empty(), closed: false },
        }
    }
}

/// What to do about a send on a channel that is not closed.
pub enum Sending<'a> {
    /// The channel is open: these bytes go to the transport now.
    Transmit(&'a [u8]),
    /// The channel is neither open nor closed yet. Wait until the first of
    /// the two listeners wakes, the one of the open latch or the one of the
    /// close latch, and send again.
    Wait(event_listener::EventListener<()>, event_listener::EventListener<()>),
}

/// What was decided by the outcome of a send.
pub open spec fn decided(sending: Result<Sending<'_>, ChannelError>) -> SendDecision {
    match sending {
        Ok(Sending::Transmit(_)) => SendDecision::Transmit,
        Ok(Sending::Wait(_, _)) => SendDecision::Wait,
        Err(_) => SendDecision::BrokenPipe,
    }
}

/// The receiving half of a channel.
pub struct Receiver {
    rx: Mailbox<Result<Vec<u8>, Error>>,
}

impl View for Receiver {
    type V = ReceiverView;

    closed spec fn view(&self) -> ReceiverView {
        ReceiverView {
            inbox: Seq::new(self.rx@.items.len(), |i: int| delivery(self.rx@.items[i])),
            closed: self.rx@.closed,
        }
    }
}

impl Receiver {
    /// Whether the queue of this half has no bound, as it must.
    pub closed spec fn wf(&self) -> bool {
        self.rx@.capacity is None
    }

    fn new() -> (r: Self)
        ensures
            r.wf(),
            r@ == (ReceiverView { inbox: Seq::empty(), closed: false }),
    {
        let r = Receiver { rx: Mailbox::unbounded() };
        assert(r@.inbox =~= Seq::empty());
        r
    }

    /// Takes the oldest delivery out: the bytes of a message exactly as
    /// they arrived, or the error that ended the channel. When nothing is
    /// queued, a closed channel answers `ChannelClosed` and an open one
    /// says what to wait for.
    pub fn recv(&mut self) -> (step: Step<Result<Vec<u8>, ChannelError>>)
        requires
            old(self).wf(),
        ensures
            final(self).wf(),
            final(self)@ == old(self)@.after_recv(),
            old(self)@.answers(step),
    {
        let step = self.rx.recv();
        proof {
            if old(self)@.inbox.len() > 0 {
                assert(self@.inbox =~= old(self)@.inbox.skip(1));
            }
        }
        match step {
            Step::Ready(Some(Ok(buf))) => Step::Ready(Ok(buf)),
            Step::Ready(Some(Err(e))) => Step::Ready(Err(ChannelError::Transport(e))),
            Step::Ready(None) => Step::Ready(Err(ChannelError::ChannelClosed)),
            Step::Pending(listener) => Step::Pending(listener),
        }
    }

    /// A message arrived: a copy of its bytes joins the inbox, unless the
    /// inbox is closed.
    pub fn on_message(&mut self, buf: &[u8])
        requires
            old(self).wf(),
        ensures
            final(self).wf(),
            final(self)@ == old(self)@.after(ChannelEvent::Message(buf@)),
    {
        let copy = slice_to_vec(buf);
        let _ = self.rx.try_send(Ok(copy));
        proof {
            if !old(self)@.closed {
                assert(self@.inbox =~= old(self)@.inbox.push(Ok(buf@)));
            }
        }
    }

    /// The channel failed: the error joins the inbox as its last delivery,
    /// and the inbox closes.
    pub fn on_error(&mut self, err: Error)
        requires
            old(self).wf(),
        ensures
            final(self).wf(),
            final(self)@ == old(self)@.after(ChannelEvent::Error(err@)),
    {
        let _ = self.rx.try_send(Err(err));
        let _ = self.rx.close();
        proof {
            if !old(self)@.closed {
                assert(self@.inbox =~= old(self)@.inbox.push(Err(err@)));
            }
        }
    }

    /// The channel closed: the inbox closes. What is queued stays.
    pub fn on_close(&mut self)
        requires
            old(self).wf(),
        ensures
            final(self).wf(),
            final(self)@ == old(self)@.after(ChannelEvent::Close),
    {
        let _ = self.rx.close();
    }

    /// Joins this half with its sending half again.
    pub fn unsplit<D>(self, sender: Sender<D>) -> (channel: Channel<D>)
        ensures
            channel.receiver == self,
            channel.sender == sender,
    {
        sender.unsplit(self)
    }
}

/// The sending half of a channel. `D` is the transport's handle of the
/// channel, which takes the bytes once a send may go ahead.
pub struct Sender<D> {
    is_open_notify: PermanentNotify,
    closed_notify: PermanentNotify,
    dc: D,
}

impl<D> View for Sender<D> {
    type V = SenderView;

    closed spec fn view(&self) -> SenderView {
        SenderView {
            open: self.is_open_notify.is_notified(),
            closed: self.closed_notify.is_notified(),
        }
    }
}

impl<D> Sender<D> {
    /// The transport's handle of the channel.
    pub closed spec fn handle(&self) -> D {
        self.dc
    }

    /// The transport's handle of the channel.
    pub fn dc(&self) -> (dc: &D)
        ensures
            *dc == self.handle(),
    {
        &self.dc
    }

    /// Decides a send of `buf`. On a closed channel it fails with a broken
    /// pipe, whether or not the channel was ever open. On an open channel
    /// the bytes go to the transport, exactly as given. Before that the
    /// caller waits for the channel to open or close and sends again.
    pub fn send<'a>(&self, buf: &'a [u8]) -> (sending: Result<Sending<'a>, ChannelError>)
        ensures
            decided(sending) == self@.decision(),
            sending matches Ok(Sending::Transmit(bytes)) ==> bytes@ == buf@,
            sending matches Err(e) ==> e is BrokenPipe,
    {
        if self.closed_notify.get() {
            return Err(ChannelError::BrokenPipe);
        }
        if self.is_open_notify.get() {
            return Ok(Sending::Transmit(buf));
        }
        let opened = self.is_open_notify.listen();
        let closed = self.closed_notify.listen();
        Ok(Sending::Wait(opened, closed))
    }

    /// The channel opened: the open latch is set, and whoever waits to send
    /// is woken.
    pub fn on_open(&mut self)
        ensures
            final(self)@ == old(self)@.after(ChannelEvent::Open),
            final(self).handle() == old(self).handle(),
    {
        self.is_open_notify.notify();
    }

    /// The channel closed or failed: the close latch is set, and whoever
    /// waits to send is woken.
    pub fn on_close(&mut self)
        ensures
            final(self)@ == old(self)@.after(ChannelEvent::Close),
            final(self).handle() == old(self).handle(),
    {
        self.closed_notify.notify();
    }

    /// Joins this half with its receiving half again.
    pub fn unsplit(self, receiver: Receiver) -> (channel: Channel<D>)
        ensures
            channel.receiver == receiver,
            channel.sender == self,
    {
        Channel { receiver, sender: self }
    }
}

/// A data channel on which datagrams are sent and received.
pub struct Channel<D> {
    pub receiver: Receiver,
    pub sender: Sender<D>,
}

impl<D> View for Channel<D> {
    type V = ChannelView;

    open spec fn view(&self) -> ChannelView {
        ChannelView { sender: self.sender@, receiver: self.receiver@ }
    }
}

impl<D> Channel<D> {
    /// Whether the channel's queue has no bound, as it must.
    pub open spec fn wf(&self) -> bool {
        self.receiver.wf()
    }

    /// The bridge for the transport's channel `dc`. `is_open` says whether
    /// the channel is open already, as one that the peer created is; the
    /// open latch starts out accordingly. Nothing has arrived yet.
    pub fn wrap(dc: D, is_open: bool) -> (channel: Self)
        ensures
            channel.wf(),
            channel@ == ChannelView::fresh(is_open),
            channel.sender.handle() == dc,
    {
        let mut is_open_notify = PermanentNotify::new();
        if is_open {
            is_open_notify.notify();
        }
        Channel {
            receiver: Receiver::new(),
            sender: Sender { is_open_notify, closed_notify: PermanentNotify::new(), dc },
        }
    }

    /// Takes the oldest delivery out, as `Receiver::recv` does.
    pub fn recv(&mut self) -> (step: Step<Result<Vec<u8>, ChannelError>>)
        requires
            old(self).wf(),
        ensures
            final(self).wf(),
            final(self).sender == old(self).sender,
            final(self)@.receiver == old(self)@.receiver.after_recv(),
            old(self)@.receiver.answers(step),
    {
        self.receiver.recv()
    }

    /// Decides a send of `buf`, as `Sender::send` does.
    pub fn send<'a>(&self, buf: &'a [u8]) -> (sending: Result<Sending<'a>, ChannelError>)
        ensures
            decided(sending) == self@.sender.decision(),
            sending matches Ok(Sending::Transmit(bytes)) ==> bytes@ == buf@,
            sending matches Err(e) ==> e is BrokenPipe,
    {
        self.sender.send(buf)
    }

    /// The channel opened.
    pub fn on_open(&mut self)
        requires
            old(self).wf(),
        ensures
            final(self).wf(),
            final(self)@ == old(self)@.after(ChannelEvent::Open),
            final(self).sender.handle() == old(self).sender.handle(),
    {
        self.sender.on_open();
    }

    /// A message arrived.
    pub fn on_message(&mut self, buf: &[u8])
        requires
            old(self).wf(),
        ensures
            final(self).wf(),
            final(self)@ == old(self)@.after(ChannelEvent::Message(buf@)),
            final(self).sender.handle() == old(self).sender.handle(),
    {
        self.receiver.on_message(buf);
    }

    /// The channel failed with `err`.
    pub fn on_error(&mut self, err: Error)
        requires
            old(self).wf(),
        ensures
            final(self).wf(),
            final(self)@ == old(self)@.after(ChannelEvent::Error(err@)),
            final(self).sender.handle() == old(self).sender.handle(),
    {
        self.receiver.on_error(err);
        self.sender.on_close();
    }

    /// The channel closed.
    pub fn on_close(&mut self)
        requires
            old(self).wf(),
        ensures
            final(self).wf(),
            final(self)@ == old(self)@.after(ChannelEvent::Close),
            final(self).sender.handle() == old(self).sender.handle(),
    {
        self.receiver.on_close();
        self.sender.on_close();
    }

    /// Parts the transport's handle from the bridge. The bridge that is
    /// left is in the state that this one was in.
    pub fn into_parts(self) -> (parts: (D, Channel<()>))
        ensures
            parts.0 == self.sender.handle(),
            parts.1@ == self@,
            parts.1.wf() == self.wf(),
            parts.1.receiver == self.receiver,
    {
        let Channel { receiver, sender } = self;
        let Sender { is_open_notify, closed_notify, dc } = sender;
        (dc, Channel { receiver, sender: Sender { is_open_notify, closed_notify, dc: () } })
    }

    /// Splits the channel into its two halves, which may go to different
    /// tasks. The halves are the channel's own: no latch is copied or lost.
    pub fn split(self) -> (halves: (Sender<D>, Receiver))
        ensures
            halves.0 == self.sender,
            halves.1 == self.receiver,
    {
        (self.sender, self.receiver)
    }
}

/// The events that a run of arriving messages makes.
pub open spec fn message_events(messages: Seq<Seq<u8>>) -> Seq<ChannelEvent> {
    Seq::new(messages.len(), |i: int| ChannelEvent::Message(messages[i]))
}

/// The deliveries that a run of arriving messages makes.
pub open spec fn message_deliveries(messages: Seq<Seq<u8>>) -> Seq<Delivery> {
    Seq::new(messages.len(), |i: int| Ok::<Seq<u8>, Seq<char>>(messages[i]))
}

/// The latches of a channel only ever get set: a channel that is open stays
/// open and one that is closed stays closed, whatever happens next.
pub proof fn lemma_latches_are_permanent(sender: SenderView, events: Seq<ChannelEvent>)
    ensures
        sender.open ==> sender.after_all(events).open,
        sender.closed ==> sender.after_all(events).closed,
    decreases events.len(),
{
    if events.len() > 0 {
        lemma_latches_are_permanent(sender, events.drop_last());
    }
}

/// A send on a closed channel fails with a broken pipe and never waits,
/// whatever happened before the close and whatever happens after it.
pub proof fn lemma_send_after_close_is_a_broken_pipe(
    sender: SenderView,
    before: Seq<ChannelEvent>,
    text: Seq<char>,
    after: Seq<ChannelEvent>,
)
    ensures
        sender.after_all(before).after(ChannelEvent::Close).after_all(after).decision()
            == SendDecision::BrokenPipe,
        sender.after_all(before).after(ChannelEvent::Error(text)).after_all(after).decision()
            == SendDecision::BrokenPipe,
{
    lemma_latches_are_permanent(sender.after_all(before).after(ChannelEvent::Close), after);
    lemma_latches_are_permanent(sender.after_all(before).after(ChannelEvent::Error(text)), after);
}

/// A send that comes before the channel opens is not refused and not
/// dropped: it waits. Once the channel has opened, and for as long as it
/// has not closed, every send goes to the transport.
pub proof fn lemma_send_waits_for_open(events: Seq<ChannelEvent>)
    requires
        forall|i: int|
            0 <= i < events.len() ==> !(#[trigger] events[i] is Close) && !(events[i] is Error),
    ensures
        ChannelView::fresh(false).sender.decision() == SendDecision::Wait,
        ChannelView::fresh(true).sender.decision() == SendDecision::Transmit,
        !ChannelView::fresh(false).sender.after_all(events).closed,
        ChannelView::fresh(false).sender.after(ChannelEvent::Open).after_all(events).decision()
            == SendDecision::Transmit,
    decreases events.len(),
{
    let fresh = ChannelView::fresh(false).sender;
    if events.len() > 0 {
        let init = events.drop_last();
        assert forall|i: int| 0 <= i < init.len() implies !(#[trigger] init[i] is Close) && !(
        init[i] is Error) by {
            assert(init[i] == events[i]);
        }
        lemma_send_waits_for_open(init);
        assert(!(events.last() is Close) && !(events.last() is Error)) by {
            assert(events.last() == events[events.len() - 1]);
        }
    }
}

/// Messages come out in the order in which they arrived, byte for byte:
/// after a run of messages an open inbox holds what it held, followed by
/// exactly those messages in that order.
pub proof fn lemma_messages_arrive_in_order(receiver: ReceiverView, messages: Seq<Seq<u8>>)
    requires
        !receiver.closed,
    ensures
        receiver.after_all(message_events(messages)).inbox == receiver.inbox
            + message_deliveries(messages),
        !receiver.after_all(message_events(messages)).closed,
    decreases messages.len(),
{
    let events = message_events(messages);
    if messages.len() == 0 {
        assert(receiver.inbox + message_deliveries(messages) =~= receiver.inbox);
    } else {
        let init = messages.drop_last();
        lemma_messages_arrive_in_order(receiver, init);
        assert(events.drop_last() =~= message_events(init));
        assert(events.last() == ChannelEvent::Message(messages.last()));
        assert(receiver.after_all(events).inbox =~= receiver.inbox + message_deliveries(
            messages,
        ));
    }
}

/// What is received is what arrived: the first receive after a message
/// arrives on an empty open inbox hands out that message's bytes.
pub proof fn lemma_recv_hands_out_what_arrived(
    receiver: ReceiverView,
    bytes: Seq<u8>,
    step: Step<Result<Vec<u8>, ChannelError>>,
)
    requires
        !receiver.closed,
        receiver.inbox.len() == 0,
        receiver.after(ChannelEvent::Message(bytes)).answers(step),
    ensures
        step matches Step::Ready(Ok(buf)) && buf@ == bytes,
{
}

/// An error is the last thing a channel delivers: it closes the inbox
/// behind it, nothing that happens later is queued, and once the inbox has
/// been emptied every receive answers that the channel is closed instead
/// of waiting.
pub proof fn lemma_nothing_arrives_after_the_end(
    receiver: ReceiverView,
    text: Seq<char>,
    later: Seq<ChannelEvent>,
)
    requires
        !receiver.closed,
    ensures
        receiver.after(ChannelEvent::Error(text)).inbox == receiver.inbox.push(Err(text)),
        receiver.after(ChannelEvent::Error(text)).after_all(later) == receiver.after(
            ChannelEvent::Error(text),
        ),
        receiver.after(ChannelEvent::Close).inbox == receiver.inbox,
        receiver.after(ChannelEvent::Close).after_all(later) == receiver.after(
            ChannelEvent::Close,
        ),
    decreases later.len(),
{
    if later.len() > 0 {
        lemma_nothing_arrives_after_the_end(receiver, text, later.drop_last());
    }
}

} // verus!
