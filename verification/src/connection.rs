//! The facade of one connection: the events of the transport become a latch
//! and three queues that the user of the connection asks in turn.

use vstd::prelude::*;
use vstd::string::StringExecFns;
use crate::channel::{Channel, ChannelView};
use crate::facade::{Error, IceGatheringState, PeerConnectionState};
use crate::mailbox::Mailbox;
use crate::sync_util::{PermanentNotify, Step};

verus! {

/// An event of the transport on one connection. `D` is the transport's
/// handle of a data channel.
pub enum ConnectionEvent<D> {
    /// A candidate was found, or, with `None`, there will be no more.
    IceCandidate(Option<Seq<char>>),
    /// The gathering of candidates entered a state.
    IceGatheringStateChange(IceGatheringState),
    /// The connection entered a state.
    ConnectionStateChange(PeerConnectionState),
    /// The peer created a data channel.
    DataChannel(D),
}

/// A connection's facade as a mathematical value.
pub struct ConnectionView<D> {
    /// The candidates found and not handed out, oldest first.
    pub ice_candidates: Seq<Seq<char>>,
    /// Whether there will be no more candidates.
    pub ice_candidates_closed: bool,
    /// Whether every candidate has been gathered. Once true, always true.
    pub gathered: bool,
    /// The states entered and not handed out, oldest first.
    pub states: Seq<PeerConnectionState>,
    /// The channels that the peer created and that were not accepted,
    /// oldest first.
    pub data_channels: Seq<D>,
    /// Whether the connection has been closed: no state and no channel
    /// will follow.
    pub closed: bool,
}

impl<D> ConnectionView<D> {
    /// A facade on which nothing has happened yet.
    pub open spec fn fresh() -> Self {
        ConnectionView {
            ice_candidates: Seq::empty(),
            ice_candidates_closed: false,
            gathered: false,
            states: Seq::empty(),
            data_channels: Seq::empty(),
            closed: false,
        }
    }

    /// The facade after an event.
    ///
    /// A candidate joins its queue unless the queue has ended; the end of
    /// candidates ends it. Gathering that completes sets the latch. A state
    /// joins its queue unless the connection has closed, and the state
    /// `Closed` closes the connection behind it. A channel joins its queue
    /// unless the connection has closed.
    pub open spec fn after(self, event: ConnectionEvent<D>) -> Self {
        match event {
            ConnectionEvent::IceCandidate(Some(cand)) => if self.ice_candidates_closed {
                self
            } else {
                ConnectionView { ice_candidates: self.ice_candidates.push(cand), ..self }
            },
            ConnectionEvent::IceCandidate(None) => ConnectionView {
                ice_candidates_closed: true,
                ..self
            },
            ConnectionEvent::IceGatheringStateChange(state) => ConnectionView {
                gathered: self.gathered || state == IceGatheringState::Complete,
                ..self
            },
            ConnectionEvent::ConnectionStateChange(state) => if self.closed {
                self
            } else {
                ConnectionView {
                    states: self.states.push(state),
                    closed: state == PeerConnectionState::Closed,
                    ..self
                }
            },
            ConnectionEvent::DataChannel(dc) => if self.closed {
                self
            } else {
                ConnectionView { data_channels: self.data_channels.push(dc), ..self }
            },
        }
    }

    /// The facade after a run of events.
    pub open spec fn after_all(self, events: Seq<ConnectionEvent<D>>) -> Self
        decreases events.len(),
    {
        if events.len() == 0 {
            self
        } else {
            self.after_all(events.drop_last()).after(events.last())
        }
    }
}

/// One connection: the transport's handle of it, and what its events have
/// left for the user. `P` is the transport's handle of the connection and
/// `D` its handle of a data channel.
pub struct Connection<P, D> {
    pc: P,
    ice_candidates: Mailbox<String>,
    ice_candidates_gathered_notify: PermanentNotify,
    peer_connection_states: Mailbox<PeerConnectionState>,
    data_channels: Mailbox<D>,
}

impl<P, D> View for Connection<P, D> {
    type V = ConnectionView<D>;

    closed spec fn view(&self) -> ConnectionView<D> {
        ConnectionView {
            ice_candidates: Seq::new(
                self.ice_candidates@.items.len(),
                |i: int| self.ice_candidates@.items[i]@,
            ),
            ice_candidates_closed: self.ice_candidates@.closed,
            gathered: self.ice_candidates_gathered_notify.is_notified(),
            states: self.peer_connection_states@.items,
            data_channels: self.data_channels@.items,
            closed: self.peer_connection_states@.closed,
        }
    }
}

impl<P, D> Connection<P, D> {
    /// Whether the queues are as a connection keeps them: without a bound,
    /// and the two that end with the connection closed together.
    pub closed spec fn wf(&self) -> bool {
        &&& self.ice_candidates@.capacity is None
        &&& self.peer_connection_states@.capacity is None
        &&& self.data_channels@.capacity is None
        &&& self.data_channels@.closed == self.peer_connection_states@.closed
    }

    /// The transport's handle of the connection.
    pub closed spec fn handle(&self) -> P {
        self.pc
    }

    fn wrap(pc: P) -> (conn: Self)
        ensures
            conn.wf(),
            conn@ == ConnectionView::<D>::fresh(),
            conn.handle() == pc,
    {
        let conn = Connection {
            pc,
            ice_candidates: Mailbox::unbounded(),
            ice_candidates_gathered_notify: PermanentNotify::new(),
            peer_connection_states: Mailbox::unbounded(),
            data_channels: Mailbox::unbounded(),
        };
        assert(conn@.ice_candidates =~= Seq::empty());
        conn
    }

    /// Starts a connection on the transport's handle `pc`. Until it is
    /// built, the connection only takes data channels.
    pub fn builder(pc: P) -> (builder: ConnectionBuilder<Connection<P, D>>)
        ensures
            builder.connection().wf(),
            builder.connection()@ == ConnectionView::<D>::fresh(),
            builder.connection().handle() == pc,
    {
        ConnectionBuilder(Self::wrap(pc))
    }

    /// The transport's handle of the connection.
    pub fn pc(&self) -> (pc: &P)
        ensures
            *pc == self.handle(),
    {
        &self.pc
    }

    /// A candidate was found, or, with `None`, there will be no more.
    pub fn on_ice_candidate(&mut self, cand: Option<&str>)
        requires
            old(self).wf(),
        ensures
            final(self).wf(),
            final(self).handle() == old(self).handle(),
            final(self)@ == old(self)@.after(
                ConnectionEvent::IceCandidate(
                    match cand {
                        Some(c) => Some(c@),
                        None => None,
                    },
                ),
            ),
    {
        match cand {
            Some(c) => {
                let _ = self.ice_candidates.try_send(String::from_str(c));
                proof {
                    if !old(self)@.ice_candidates_closed {
                        assert(self@.ice_candidates =~= old(self)@.ice_candidates.push(c@));
                    } else {
                        assert(self@.ice_candidates =~= old(self)@.ice_candidates);
                    }
                }
            },
            None => {
                let _ = self.ice_candidates.close();
                assert(self@.ice_candidates =~= old(self)@.ice_candidates);
            },
        }
    }

    /// The gathering of candidates entered `state`. Completion sets the
    /// latch and wakes whoever waits for it.
    pub fn on_ice_gathering_state_change(&mut self, state: IceGatheringState)
        requires
            old(self).wf(),
        ensures
            final(self).wf(),
            final(self).handle() == old(self).handle(),
            final(self)@ == old(self)@.after(ConnectionEvent::IceGatheringStateChange(state)),
    {
        match state {
            IceGatheringState::Complete => {
                self.ice_candidates_gathered_notify.notify();
            },
            _ => {},
        }
    }

    /// The connection entered `state`.
    pub fn on_connection_state_change(&mut self, state: PeerConnectionState)
        requires
            old(self).wf(),
        ensures
            final(self).wf(),
            final(self).handle() == old(self).handle(),
            final(self)@ == old(self)@.after(ConnectionEvent::ConnectionStateChange(state)),
    {
        let _ = self.peer_connection_states.try_send(state);
        match state {
            PeerConnectionState::Closed => {
                let _ = self.peer_connection_states.close();
                let _ = self.data_channels.close();
            },
            _ => {},
        }
    }

    /// The peer created the data channel `dc`.
    pub fn on_data_channel(&mut self, dc: D)
        requires
            old(self).wf(),
        ensures
            final(self).wf(),
            final(self).handle() == old(self).handle(),
            final(self)@ == old(self)@.after(ConnectionEvent::DataChannel(dc)),
    {
        let _ = self.data_channels.try_send(dc);
    }

    /// The oldest candidate not handed out yet; `None` once there will be
    /// no more and all have been handed out; else what to wait for.
    pub fn next_ice_candidate(&mut self) -> (step: Step<Option<String>>)
        requires
            old(self).wf(),
        ensures
            final(self).wf(),
            final(self).handle() == old(self).handle(),
            final(self)@ == (ConnectionView {
                ice_candidates: if old(self)@.ice_candidates.len() > 0 {
                    old(self)@.ice_candidates.skip(1)
                } else {
                    old(self)@.ice_candidates
                },
                ..old(self)@
            }),
            if old(self)@.ice_candidates.len() > 0 {
                step matches Step::Ready(Some(cand)) && cand@ == old(self)@.ice_candidates[0]
            } else if old(self)@.ice_candidates_closed {
                step matches Step::Ready(None)
            } else {
                step is Pending
            },
    {
        let step = self.ice_candidates.recv();
        proof {
            if old(self)@.ice_candidates.len() > 0 {
                assert(self@.ice_candidates =~= old(self)@.ice_candidates.skip(1));
            } else {
                assert(self@.ice_candidates =~= old(self)@.ice_candidates);
            }
        }
        step
    }

    /// Asks whether every candidate has been gathered: ready exactly when
    /// gathering has completed, at whatever time before this call.
    pub fn ice_candidates_gathered(&self) -> (step: Step<()>)
        ensures
            step is Ready <==> self@.gathered,
    {
        self.ice_candidates_gathered_notify.notified()
    }

    /// The oldest state not handed out yet; `None` once the connection has
    /// closed and every state has been handed out; else what to wait for.
    pub fn next_connection_state(&mut self) -> (step: Step<Option<PeerConnectionState>>)
        requires
            old(self).wf(),
        ensures
            final(self).wf(),
            final(self).handle() == old(self).handle(),
            final(self)@ == (ConnectionView {
                states: if old(self)@.states.len() > 0 {
                    old(self)@.states.skip(1)
                } else {
                    old(self)@.states
                },
                ..old(self)@
            }),
            if old(self)@.states.len() > 0 {
                step.value() == Some(Some(old(self)@.states[0]))
            } else if old(self)@.closed {
                step.value() == Some(None::<PeerConnectionState>)
            } else {
                step is Pending
            },
    {
        self.peer_connection_states.recv()
    }

    /// The bridge of the oldest channel that the peer created and that was
    /// not accepted yet. Such a channel is open already. `None` once the
    /// connection has closed and every channel has been accepted; else
    /// what to wait for.
    pub fn accept_channel(&mut self) -> (step: Step<Option<Channel<D>>>)
        requires
            old(self).wf(),
        ensures
            final(self).wf(),
            final(self).handle() == old(self).handle(),
            final(self)@ == (ConnectionView {
                data_channels: if old(self)@.data_channels.len() > 0 {
                    old(self)@.data_channels.skip(1)
                } else {
                    old(self)@.data_channels
                },
                ..old(self)@
            }),
            if old(self)@.data_channels.len() > 0 {
                step matches Step::Ready(Some(channel)) && channel.wf() && channel@
                    == ChannelView::fresh(true) && channel.sender.handle()
                    == old(self)@.data_channels[0]
            } else if old(self)@.closed {
                step matches Step::Ready(None)
            } else {
                step is Pending
            },
    {
        match self.data_channels.recv() {
            Step::Ready(Some(dc)) => Step::Ready(Some(Channel::wrap(dc, true))),
            Step::Ready(None) => Step::Ready(None),
            Step::Pending(listener) => Step::Pending(listener),
        }
    }
}

/// A connection before negotiation begins. In this phase it only takes
/// data channels, so that a channel which both sides create themselves
/// exists before the remote description is applied. `C` is the connection
/// that is being built.
pub struct ConnectionBuilder<C>(C);

impl<C> ConnectionBuilder<C> {
    /// The connection that is being built.
    pub closed spec fn connection(&self) -> C {
        self.0
    }

    /// Begins the building phase of `connection`.
    pub fn new(connection: C) -> (builder: Self)
        ensures
            builder.connection() == connection,
    {
        ConnectionBuilder(connection)
    }

    /// The connection that is being built, to create channels on.
    pub fn get(&self) -> (c: &C)
        ensures
            *c == self.connection(),
    {
        &self.0
    }

    /// The bridge of a data channel that was just created on this
    /// connection; `created` is what the transport answered. The channel is
    /// not open yet: its bridge waits for the transport to open it.
    pub fn create_data_channel<D>(&self, created: Result<D, Error>) -> (r: Result<
        Channel<D>,
        Error,
    >)
        ensures
            match created {
                Ok(dc) => r matches Ok(channel) && channel.wf() && channel@ == ChannelView::fresh(
                    false,
                ) && channel.sender.handle() == dc,
                Err(e) => r matches Err(f) && f == e,
            },
    {
        match created {
            Ok(dc) => Ok(Channel::wrap(dc, false)),
            Err(e) => Err(e),
        }
    }

    /// Ends the building phase: negotiation may begin on the connection.
    pub fn build(self) -> (conn: C)
        ensures
            conn == self.connection(),
    {
        self.0
    }
}

/// Once every candidate has been gathered, the latch stays set: whoever
/// asks later, after whatever else has happened, gets through at once.
pub proof fn lemma_gathering_latch_is_permanent<D>(
    conn: ConnectionView<D>,
    events: Seq<ConnectionEvent<D>>,
)
    requires
        conn.gathered,
    ensures
        conn.after_all(events).gathered,
    decreases events.len(),
{
    if events.len() > 0 {
        lemma_gathering_latch_is_permanent(conn, events.drop_last());
    }
}

/// A closed connection stays closed and takes nothing more: no state and
/// no channel joins its queues, so a user who has emptied them is told so
/// instead of waiting for ever.
pub proof fn lemma_closed_connection_takes_nothing<D>(
    conn: ConnectionView<D>,
    events: Seq<ConnectionEvent<D>>,
)
    requires
        conn.closed,
    ensures
        conn.after_all(events).closed,
        conn.after_all(events).states == conn.states,
        conn.after_all(events).data_channels == conn.data_channels,
    decreases events.len(),
{
    if events.len() > 0 {
        lemma_closed_connection_takes_nothing(conn, events.drop_last());
    }
}

/// The events that a run of state changes makes.
pub open spec fn state_events<D>(states: Seq<PeerConnectionState>) -> Seq<ConnectionEvent<D>> {
    Seq::new(states.len(), |i: int| ConnectionEvent::ConnectionStateChange(states[i]))
}

/// States are handed out in the order in which the connection entered
/// them: after a run of state changes none of which closes the connection,
/// the queue holds what it held, followed by exactly those states in that
/// order.
pub proof fn lemma_states_arrive_in_order<D>(
    conn: ConnectionView<D>,
    states: Seq<PeerConnectionState>,
)
    requires
        !conn.closed,
        forall|i: int| 0 <= i < states.len() ==> states[i] != PeerConnectionState::Closed,
    ensures
        conn.after_all(state_events(states)).states == conn.states + states,
        !conn.after_all(state_events(states)).closed,
    decreases states.len(),
{
    let events = state_events::<D>(states);
    if states.len() == 0 {
        assert(conn.states + states =~= conn.states);
    } else {
        let init = states.drop_last();
        lemma_states_arrive_in_order(conn, init);
        assert(events.drop_last() =~= state_events::<D>(init));
        assert(events.last() == ConnectionEvent::<D>::ConnectionStateChange(states.last()));
        assert(conn.after_all(events).states =~= conn.states + states);
    }
}

/// The state `Closed` is the last state a connection reports.
pub proof fn lemma_closed_is_the_last_state<D>(
    conn: ConnectionView<D>,
    events: Seq<ConnectionEvent<D>>,
)
    requires
        !conn.closed,
    ensures
        conn.after(ConnectionEvent::ConnectionStateChange(PeerConnectionState::Closed)).after_all(
            events,
        ).states == conn.states.push(PeerConnectionState::Closed),
{
    lemma_closed_connection_takes_nothing(
        conn.after(ConnectionEvent::ConnectionStateChange(PeerConnectionState::Closed)),
        events,
    );
}

} // verus!
