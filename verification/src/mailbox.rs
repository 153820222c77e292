//! A first-in first-out queue between an event source and a consumer: it may
//! be bounded, and it can be closed, after which it only drains.

use std::collections::VecDeque;
use vstd::prelude::*;
use crate::sync_util::{event_listen, event_new, event_notify_all, Step};

verus! {

/// What a mailbox holds, as a mathematical value.
pub struct MailboxView<T> {
    /// The queued items, oldest first.
    pub items: Seq<T>,
    /// Whether the mailbox has been closed.
    pub closed: bool,
    /// The most items it may hold, or `None` where it is unbounded.
    pub capacity: Option<nat>,
}

impl<T> MailboxView<T> {
    /// Whether the mailbox holds as many items as it may.
    pub open spec fn is_full(self) -> bool {
        self.capacity matches Some(c) && self.items.len() >= c
    }

    /// Whether a send is admitted: the mailbox is open and has room.
    pub open spec fn admits(self) -> bool {
        !self.closed && !self.is_full()
    }

    /// The mailbox with `item` added at the back.
    pub open spec fn with(self, item: T) -> Self {
        MailboxView { items: self.items.push(item), ..self }
    }

    /// The mailbox after a send: `item` joins at the back where it is
    /// admitted, and nothing changes where it is not.
    pub open spec fn after_send(self, item: T) -> Self {
        if self.admits() {
            self.with(item)
        } else {
            self
        }
    }

    /// The mailbox without its oldest item (itself, where it is empty).
    pub open spec fn after_recv(self) -> Self {
        if self.items.len() > 0 {
            MailboxView { items: self.items.skip(1), ..self }
        } else {
            self
        }
    }

    /// The mailbox, closed. Queued items stay.
    pub open spec fn after_close(self) -> Self {
        MailboxView { closed: true, ..self }
    }

    /// The mailbox after a run of sends, each as `after_send` has it.
    pub open spec fn after_sends(self, items: Seq<T>) -> Self
        decreases items.len(),
    {
        if items.len() == 0 {
            self
        } else {
            self.after_sends(items.drop_last()).after_send(items.last())
        }
    }

    /// Whether nothing will ever come out again: closed and empty.
    pub open spec fn is_drained(self) -> bool {
        self.closed && self.items.len() == 0
    }

    /// Whether the bound is kept.
    pub open spec fn within_capacity(self) -> bool {
        self.capacity matches Some(c) ==> 0 < c && self.items.len() <= c
    }
}

/// Why an item was not admitted. The item comes back with the reason.
pub enum TrySendError<T> {
    /// The mailbox is open but holds as many items as it may.
    Full(T),
    /// The mailbox is closed.
    Closed(T),
}

impl<T> TrySendError<T> {
    /// The item that was not admitted.
    pub open spec fn item(self) -> T {
        match self {
            TrySendError::Full(t) => t,
            TrySendError::Closed(t) => t,
        }
    }

    /// The item that was not admitted.
    pub fn into_inner(self) -> (t: T)
        ensures
            t == self.item(),
    {
        match self {
            TrySendError::Full(t) => t,
            TrySendError::Closed(t) => t,
        }
    }
}

/// Why no item came out.
#[derive(Clone, Copy, Debug, PartialEq, Eq, Structural)]
pub enum TryRecvError {
    /// The mailbox is open and empty: an item may still arrive.
    Empty,
    /// The mailbox is closed and empty: nothing will arrive.
    Closed,
}

/// The outcome of a send that may have to wait for room.
pub enum SendStep<T> {
    /// The item was queued.
    Sent,
    /// The mailbox is closed; the item comes back.
    Closed(T),
    /// The mailbox is full; the item comes back with a listener that is
    /// woken when the mailbox changes.
    Full(T, event_listener::EventListener<()>),
}

/// A queue of items with an optional bound and a closed flag.
pub struct Mailbox<T> {
    items: VecDeque<T>,
    closed: bool,
    capacity: Option<usize>,
    event: event_listener::Event<()>,
}

impl<T> View for Mailbox<T> {
    type V = MailboxView<T>;

    closed spec fn view(&self) -> MailboxView<T> {
        MailboxView {
            items: self.items@,
            closed: self.closed,
            capacity: match self.capacity {
                Some(c) => Some(c as nat),
                None => None,
            },
        }
    }
}

impl<T> Mailbox<T> {
    /// An open, empty mailbox without a bound.
    pub fn unbounded() -> (m: Self)
        ensures
            m@ == (MailboxView::<T> { items: Seq::empty(), closed: false, capacity: None }),
    {
        Mailbox { items: VecDeque::new(), closed: false, capacity: None, event: event_new() }
    }

    /// An open, empty mailbox that holds at most `capacity` items.
    pub fn bounded(capacity: usize) -> (m: Self)
        requires
            capacity > 0,
        ensures
            m@ == (MailboxView::<T> {
                items: Seq::empty(),
                closed: false,
                capacity: Some(capacity as nat),
            }),
    {
        Mailbox {
            items: VecDeque::new(),
            closed: false,
            capacity: Some(capacity),
            event: event_new(),
        }
    }

    /// An open, empty mailbox that holds at most `capacity` items, or `None`
    /// where `capacity` is zero: such a mailbox could admit nothing.
    pub fn try_bounded(capacity: usize) -> (m: Option<Self>)
        ensures
            m is Some <==> capacity > 0,
            m matches Some(b) ==> b@ == (MailboxView::<T> {
                items: Seq::empty(),
                closed: false,
                capacity: Some(capacity as nat),
            }),
    {
        if capacity > 0 {
            Some(Self::bounded(capacity))
        } else {
            None
        }
    }

    /// The number of queued items.
    pub fn len(&self) -> (n: usize)
        ensures
            n == self@.items.len(),
    {
        self.items.len()
    }

    /// Whether no item is queued.
    pub fn is_empty(&self) -> (r: bool)
        ensures
            r == (self@.items.len() == 0),
    {
        self.items.len() == 0
    }

    /// Whether the mailbox holds as many items as it may.
    pub fn is_full(&self) -> (r: bool)
        ensures
            r == self@.is_full(),
    {
        match self.capacity {
            Some(c) => self.items.len() >= c,
            None => false,
        }
    }

    /// Whether the mailbox has been closed.
    pub fn is_closed(&self) -> (r: bool)
        ensures
            r == self@.closed,
    {
        self.closed
    }

    /// The most items the mailbox may hold, or `None` where it is unbounded.
    pub fn capacity(&self) -> (c: Option<usize>)
        ensures
            c is Some == self@.capacity is Some,
            c matches Some(n) ==> self@.capacity == Some(n as nat),
    {
        self.capacity
    }

    /// A listener that is woken when the mailbox next changes.
    pub fn listen(&self) -> event_listener::EventListener<()> {
        event_listen(&self.event)
    }

    /// Queues `item` at the back if the mailbox is open and has room. A
    /// closed mailbox refuses with `Closed`, whether or not it is full; an
    /// open full one with `Full`. A refused item comes back and the mailbox
    /// is unchanged.
    pub fn try_send(&mut self, item: T) -> (r: Result<(), TrySendError<T>>)
        ensures
            final(self)@ == old(self)@.after_send(item),
            r is Ok <==> old(self)@.admits(),
            r matches Err(e) ==> e.item() == item && (e is Closed <==> old(self)@.closed),
    {
        if self.closed {
            return Err(TrySendError::Closed(item));
        }
        if self.is_full() {
            return Err(TrySendError::Full(item));
        }
        self.items.push_back(item);
        event_notify_all(&self.event);
        Ok(())
    }

    /// Takes the oldest item out. A closed mailbox still hands out what was
    /// queued before it was closed; once empty it answers `Closed`, while an
    /// open empty one answers `Empty`.
    pub fn try_recv(&mut self) -> (r: Result<T, TryRecvError>)
        ensures
            final(self)@ == old(self)@.after_recv(),
            r is Ok <==> old(self)@.items.len() > 0,
            r matches Ok(item) ==> item == old(self)@.items[0],
            r matches Err(e) ==> (e is Closed <==> old(self)@.closed),
    {
        match self.items.pop_front() {
            Some(item) => {
                event_notify_all(&self.event);
                Ok(item)
            },
            None => {
                if self.closed {
                    Err(TryRecvError::Closed)
                } else {
                    Err(TryRecvError::Empty)
                }
            },
        }
    }

    /// Closes the mailbox. Returns whether this call closed it, that is
    /// whether it was open before. Queued items stay.
    pub fn close(&mut self) -> (newly: bool)
        ensures
            final(self)@ == old(self)@.after_close(),
            newly == !old(self)@.closed,
    {
        let newly = !self.closed;
        self.closed = true;
        event_notify_all(&self.event);
        newly
    }

    /// Sends, or says what to wait for: as `try_send`, but a full mailbox
    /// hands back a listener with the item, registered before this call
    /// returned.
    pub fn send(&mut self, item: T) -> (step: SendStep<T>)
        ensures
            final(self)@ == old(self)@.after_send(item),
            step is Sent <==> old(self)@.admits(),
            step is Closed <==> old(self)@.closed,
            step matches SendStep::Closed(t) ==> t == item,
            step matches SendStep::Full(t, _) ==> t == item,
    {
        match self.try_send(item) {
            Ok(()) => SendStep::Sent,
            Err(TrySendError::Closed(t)) => SendStep::Closed(t),
            Err(TrySendError::Full(t)) => {
                let listener = event_listen(&self.event);
                SendStep::Full(t, listener)
            },
        }
    }

    /// Receives, or says what to wait for: the oldest item where there is
    /// one, `None` where the mailbox is closed and empty, and otherwise a
    /// listener registered before this call returned.
    pub fn recv(&mut self) -> (step: Step<Option<T>>)
        ensures
            final(self)@ == old(self)@.after_recv(),
            step is Pending <==> old(self)@.items.len() == 0 && !old(self)@.closed,
            old(self)@.items.len() > 0 ==> step.value() == Some(Some(old(self)@.items[0])),
            old(self)@.is_drained() ==> step.value() == Some(None::<T>),
    {
        match self.try_recv() {
            Ok(item) => Step::Ready(Some(item)),
            Err(TryRecvError::Closed) => Step::Ready(None),
            Err(TryRecvError::Empty) => {
                let listener = event_listen(&self.event);
                Step::Pending(listener)
            },
        }
    }
}

/// A mailbox that starts within its bound stays within it: no send, receive
/// or close takes it past its capacity.
pub proof fn lemma_bound_is_kept<T>(m: MailboxView<T>, item: T)
    requires
        m.within_capacity(),
    ensures
        m.after_send(item).within_capacity(),
        m.after_recv().within_capacity(),
        m.after_close().within_capacity(),
{
}

/// A full mailbox admits nothing until an item has been taken out, and
/// then admits exactly one more: with a bound of `n`, item `n + 1` waits
/// for the first receive.
pub proof fn lemma_full_mailbox_blocks_until_recv<T>(m: MailboxView<T>, item: T)
    requires
        m.within_capacity(),
        !m.closed,
        m.is_full(),
    ensures
        !m.admits(),
        m.after_send(item) == m,
        m.after_recv().admits(),
        m.after_recv().after_send(item).items == m.items.skip(1).push(item),
        m.after_recv().after_send(item).is_full(),
{
}

/// With a bound of `n`, the first `n` items sent to an empty open mailbox are
/// admitted in their order and item `n + 1` is not: it stays out for as
/// long as nothing is taken out, and gets in behind the others as soon as
/// the oldest has been taken out.
pub proof fn lemma_backlog_bound<T>(m: MailboxView<T>, items: Seq<T>, n: nat)
    requires
        m.items.len() == 0,
        !m.closed,
        m.capacity == Some(n),
        0 < n,
        items.len() == n + 1,
    ensures
        m.after_sends(items.take(n as int)).items == items.take(n as int),
        m.after_sends(items).items == items.take(n as int),
        !m.after_sends(items.take(n as int)).admits(),
        m.after_sends(items.take(n as int)).after_recv().after_send(items[n as int]).items
            == items.skip(1),
{
    lemma_sends_fill_in_order(m, items.take(n as int));
    assert(items.drop_last() =~= items.take(n as int));
    assert(m.items + items.take(n as int) =~= items.take(n as int));
    assert(items.take(n as int).skip(1).push(items[n as int]) =~= items.skip(1));
}

/// Items that all fit are all admitted, in their order.
pub proof fn lemma_sends_fill_in_order<T>(m: MailboxView<T>, items: Seq<T>)
    requires
        !m.closed,
        m.capacity matches Some(c) ==> m.items.len() + items.len() <= c,
    ensures
        m.after_sends(items).items == m.items + items,
        m.after_sends(items).closed == m.closed,
        m.after_sends(items).capacity == m.capacity,
    decreases items.len(),
{
    if items.len() == 0 {
        assert(m.items + items =~= m.items);
    } else {
        lemma_sends_fill_in_order(m, items.drop_last());
        assert(m.after_sends(items).items =~= m.items + items);
    }
}

/// Items come out in the order in which they went in: what is sent to an
/// open mailbox with room comes out after everything queued before it.
pub proof fn lemma_first_in_first_out<T>(m: MailboxView<T>, item: T)
    requires
        m.admits(),
    ensures
        m.after_send(item).items.len() == m.items.len() + 1,
        m.after_send(item).items.last() == item,
        forall|i: int| 0 <= i < m.items.len() ==> m.after_send(item).items[i] == m.items[i],
{
}

/// Closing is final and loses nothing: a closed mailbox admits no item, stays
/// closed through every operation, and still holds what was queued.
pub proof fn lemma_close_is_final<T>(m: MailboxView<T>, item: T)
    ensures
        m.after_close().closed,
        m.after_close().items == m.items,
        !m.after_close().admits(),
        m.after_close().after_send(item) == m.after_close(),
        m.after_close().after_recv().closed,
        m.after_close().after_close() == m.after_close(),
{
}

} // verus!
