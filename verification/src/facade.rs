//! The data model shared by every transport: descriptions, states, options
//! and the opaque transport error.

use vstd::prelude::*;
use crate::libdatachannel;

verus! {

/// The role of a session description in the offer/answer exchange.
#[derive(Clone, Copy, Debug, PartialEq, Eq, Structural)]
pub enum SdpType {
    /// The first proposal of a negotiation.
    Offer,
    /// The definitive choice that ends a negotiation.
    Answer,
    /// A provisional answer.
    Pranswer,
    /// A return to the previous stable state.
    Rollback,
}

/// One side's session description: its role and its SDP text.
#[derive(Debug)]
pub struct Description {
    /// The role of the description.
    pub type_: SdpType,
    /// The SDP text, handed on as it is.
    pub sdp: String,
}

impl Clone for Description {
    fn clone(&self) -> (r: Self)
        ensures
            r == *self,
    {
        Description { type_: self.type_, sdp: self.sdp.clone() }
    }
}

/// The settings of a data channel.
pub struct DataChannelOptions {
    /// Whether messages arrive in the order in which they were sent.
    pub ordered: bool,
    /// How long a message may be retried for, in milliseconds.
    pub max_packet_life_time: Option<u16>,
    /// How often a message may be sent again.
    pub max_retransmits: Option<u16>,
    /// The name of the sub-protocol, or the empty string.
    pub protocol: String,
    /// Whether both sides create the channel themselves, under an agreed id.
    pub negotiated: bool,
    /// The id of the channel, or `None` to let the transport choose.
    pub id: Option<u16>,
}

impl Default for DataChannelOptions {
    fn default() -> (o: Self)
        ensures
            o.ordered,
            o.max_packet_life_time is None,
            o.max_retransmits is None,
            o.protocol@.len() == 0,
            !o.negotiated,
            o.id is None,
    {
        DataChannelOptions {
            ordered: true,
            max_packet_life_time: None,
            max_retransmits: None,
            protocol: String::new(),
            negotiated: false,
            id: None,
        }
    }
}

/// The state of a peer connection.
#[derive(Clone, Copy, Debug, PartialEq, Eq, Structural)]
pub enum PeerConnectionState {
    New,
    Connecting,
    Connected,
    Disconnected,
    Failed,
    /// The connection is closed, and stays so.
    Closed,
}

/// How far the gathering of candidates has come.
#[derive(Clone, Copy, Debug, PartialEq, Eq, Structural)]
pub enum IceGatheringState {
    New,
    Gathering,
    /// Every candidate has been found.
    Complete,
}

/// Which candidates may be used.
#[derive(Clone, Copy, Debug, PartialEq, Eq, Structural)]
pub enum IceTransportPolicy {
    /// Every candidate.
    All,
    /// Relayed candidates only.
    Relay,
}

impl Default for IceTransportPolicy {
    fn default() -> (r: Self)
        ensures
            r == IceTransportPolicy::All,
    {
        IceTransportPolicy::All
    }
}

/// A STUN or TURN server that may be used to find candidates.
#[derive(Debug)]
pub struct IceServer {
    /// The URLs under which the server is reached.
    pub urls: Vec<String>,
    /// The user name, for a TURN server.
    pub username: Option<String>,
    /// The credential, for a TURN server.
    pub credential: Option<String>,
}

/// An ICE server as a mathematical value.
pub struct IceServerView {
    pub urls: Seq<Seq<char>>,
    pub username: Option<Seq<char>>,
    pub credential: Option<Seq<char>>,
}

impl View for IceServer {
    type V = IceServerView;

    open spec fn view(&self) -> IceServerView {
        IceServerView {
            urls: Seq::new(self.urls@.len(), |i: int| self.urls@[i]@),
            username: match self.username {
                Some(u) => Some(u@),
                None => None,
            },
            credential: match self.credential {
                Some(c) => Some(c@),
                None => None,
            },
        }
    }
}

impl Clone for IceServer {
    fn clone(&self) -> (r: Self)
        ensures
            r@ == self@,
    {
        let mut urls: Vec<String> = Vec::new();
        let mut i: usize = 0;
        while i < self.urls.len()
            invariant
                i <= self.urls@.len(),
                urls@.len() == i,
                forall|j: int| 0 <= j < i ==> urls@[j]@ == self.urls@[j]@,
            decreases self.urls.len() - i,
        {
            urls.push(self.urls[i].clone());
            i += 1;
        }
        let username = match &self.username {
            Some(u) => Some(u.clone()),
            None => None,
        };
        let credential = match &self.credential {
            Some(c) => Some(c.clone()),
            None => None,
        };
        let r = IceServer { urls, username, credential };
        assert(r@.urls =~= self@.urls);
        r
    }
}

/// The settings of a new connection.
pub struct Configuration {
    /// The servers that may be used to find candidates. With none, only
    /// local peers can be reached.
    pub ice_servers: Vec<IceServer>,
    /// Which candidates may be used.
    pub ice_transport_policy: IceTransportPolicy,
    /// What only the native transport is told; its list of servers is
    /// filled from `ice_servers` when the connection is created.
    pub sys: libdatachannel::Configuration,
}

impl Default for Configuration {
    fn default() -> (c: Self)
        ensures
            c.ice_servers@.len() == 0,
            c.ice_transport_policy == IceTransportPolicy::All,
            c.sys.is_default(),
    {
        Configuration {
            ice_servers: Vec::new(),
            ice_transport_policy: IceTransportPolicy::All,
            sys: libdatachannel::Configuration::default(),
        }
    }
}

/// What only a native transport can be told.
pub trait ConfigurationExt {
    /// Binds the connection to a local address, given in text form, and to
    /// a range of ports.
    fn set_bind(&mut self, addr: String, port_range_begin: u16, port_range_end: u16);

    /// Chooses whether connections share one UDP port.
    fn set_enable_ice_udp_mux(&mut self, value: bool);
}

impl ConfigurationExt for Configuration {
    fn set_bind(&mut self, addr: String, port_range_begin: u16, port_range_end: u16)
        ensures
            *final(self) == (Configuration {
                sys: libdatachannel::Configuration {
                    bind_address: Some(addr),
                    port_range_begin,
                    port_range_end,
                    ..old(self).sys
                },
                ..*old(self)
            }),
    {
        self.sys.bind_address = Some(addr);
        self.sys.port_range_begin = port_range_begin;
        self.sys.port_range_end = port_range_end;
    }

    fn set_enable_ice_udp_mux(&mut self, value: bool)
        ensures
            *final(self) == (Configuration {
                sys: libdatachannel::Configuration {
                    enable_ice_udp_mux: value,
                    ..old(self).sys
                },
                ..*old(self)
            }),
    {
        self.sys.enable_ice_udp_mux = value;
    }
}

/// A failure of the transport. What failed is known only as text.
#[derive(Debug)]
pub struct Error {
    message: String,
}

impl View for Error {
    type V = Seq<char>;

    closed spec fn view(&self) -> Seq<char> {
        self.message@
    }
}

impl Error {
    /// An error that carries `message`.
    pub fn new(message: String) -> (e: Self)
        ensures
            e@ == message@,
    {
        Error { message }
    }

    /// The text of the error.
    pub fn message(&self) -> (m: &String)
        ensures
            m@ == self@,
    {
        &self.message
    }
}

impl Clone for Error {
    fn clone(&self) -> (r: Self)
        ensures
            r@ == self@,
    {
        Error { message: self.message.clone() }
    }
}

} // verus!
