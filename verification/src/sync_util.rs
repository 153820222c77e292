//! A latch that is set once and stays set, and the type of a wait.

use vstd::prelude::*;

verus! {

/// Makes `event_listener::Event` known as a type of which nothing is seen.
#[verifier::external_type_specification]
#[verifier::external_body]
#[verifier::reject_recursive_types(T)]
pub struct ExEvent<T>(event_listener::Event<T>);

/// Makes `event_listener::EventListener` known as a type of which nothing
/// is seen.
#[verifier::external_type_specification]
#[verifier::external_body]
#[verifier::reject_recursive_types(T)]
pub struct ExEventListener<T>(event_listener::EventListener<T>);

/// A fresh event with no listeners.
///
/// Trusted: calls `event_listener::Event::new`; nothing is claimed of the event.
#[verifier::external_body]
pub(crate) fn event_new() -> event_listener::Event<()> {
    event_listener::Event::new()
}

/// Registers a listener that the next notification of `event` wakes.
///
/// Trusted: calls `event_listener::Event::listen`; nothing is claimed of the listener.
#[verifier::external_body]
pub(crate) fn event_listen(event: &event_listener::Event<()>) -> event_listener::EventListener<()> {
    event.listen()
}

/// Wakes every listener registered on `event` so far.
///
/// Trusted: calls `event_listener::Event::notify` with `usize::MAX`; nothing is
/// claimed of the number of listeners woken.
#[verifier::external_body]
pub(crate) fn event_notify_all(event: &event_listener::Event<()>) {
    event.notify(usize::MAX);
}

/// The outcome of asking for something that may not have happened yet.
pub enum Step<T> {
    /// It has happened; this is its value.
    Ready(T),
    /// It has not happened yet: wait for the listener, then ask again.
    Pending(event_listener::EventListener<()>),
}

impl<T> Step<T> {
    /// The value, where there is one.
    pub open spec fn value(self) -> Option<T> {
        match self {
            Step::Ready(v) => Some(v),
            Step::Pending(_) => None,
        }
    }

    /// Whether the value is there.
    pub fn is_ready(&self) -> (r: bool)
        ensures
            r == (self is Ready),
    {
        match self {
            Step::Ready(_) => true,
            Step::Pending(_) => false,
        }
    }

    /// The value, where there is one; the listener is dropped.
    pub fn ready(self) -> (r: Option<T>)
        ensures
            r == self.value(),
    {
        match self {
            Step::Ready(v) => Some(v),
            Step::Pending(_) => None,
        }
    }
}

/// A one-shot latch: once notified it stays notified, and everyone who waits
/// on it, before or after, gets through.
pub struct PermanentNotify {
    notified: bool,
    event: event_listener::Event<()>,
}

impl PermanentNotify {
    /// Whether the latch has been set.
    pub closed spec fn is_notified(&self) -> bool {
        self.notified
    }

    /// A latch that has not been set.
    pub fn new() -> (latch: Self)
        ensures
            !latch.is_notified(),
    {
        PermanentNotify { notified: false, event: event_new() }
    }

    /// Whether the latch has been set.
    pub fn get(&self) -> (r: bool)
        ensures
            r == self.is_notified(),
    {
        self.notified
    }

    /// Asks to get through the latch: ready exactly when it has been set.
    /// When it has not, the listener returned was registered before this call
    /// returned, so a later `notify` wakes it.
    pub fn notified(&self) -> (step: Step<()>)
        ensures
            step is Ready <==> self.is_notified(),
    {
        if self.notified {
            Step::Ready(())
        } else {
            Step::Pending(event_listen(&self.event))
        }
    }

    /// A listener that the next `notify` wakes, whatever the latch's state.
    pub fn listen(&self) -> event_listener::EventListener<()> {
        event_listen(&self.event)
    }

    /// Sets the latch and wakes everyone waiting on it.
    pub fn notify(&mut self)
        ensures
            final(self).is_notified(),
    {
        self.notified = true;
        event_notify_all(&self.event);
    }
}

} // verus!
