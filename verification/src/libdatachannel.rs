//! The plain data and the pure rules of the native transport binding.

use vstd::prelude::*;
use vstd::string::StringExecFns;
use crate::text::str_eq;

verus! {

/// A failure reported by the native transport, by its negative return code.
#[derive(Clone, Copy, Debug, PartialEq, Eq, Structural)]
pub enum Error {
    /// An argument was not accepted (code -1).
    Invalid,
    /// The call failed at run time (code -2).
    Failure,
    /// The element asked for is not available (code -3).
    NotAvail,
    /// The buffer handed in was too small (code -4).
    TooSmall,
}

/// The error that a return code stands for, if it stands for one.
pub open spec fn error_of_code(code: int) -> Option<Error> {
    if code == -1 {
        Some(Error::Invalid)
    } else if code == -2 {
        Some(Error::Failure)
    } else if code == -3 {
        Some(Error::NotAvail)
    } else if code == -4 {
        Some(Error::TooSmall)
    } else {
        None
    }
}

/// What a return code of the native transport means: a non-negative code is
/// the call's value, a negative one the error it stands for, and a negative
/// code that stands for no known error is a run-time failure.
pub open spec fn checked(r: i32) -> Result<i32, Error> {
    if r >= 0 {
        Ok(r)
    } else {
        match error_of_code(r as int) {
            Some(e) => Err(e),
            None => Err(Error::Failure),
        }
    }
}

impl Error {
    /// The return code that stands for this error.
    pub open spec fn spec_code(self) -> int {
        match self {
            Error::Invalid => -1,
            Error::Failure => -2,
            Error::NotAvail => -3,
            Error::TooSmall => -4,
        }
    }

    /// The return code that stands for this error.
    pub fn code(&self) -> (c: i32)
        ensures
            c == self.spec_code(),
            error_of_code(c as int) == Some(*self),
    {
        match self {
            Error::Invalid => -1,
            Error::Failure => -2,
            Error::NotAvail => -3,
            Error::TooSmall => -4,
        }
    }

    /// The words that describe this error.
    pub open spec fn spec_message(self) -> Seq<char> {
        match self {
            Error::Invalid => "invalid argument"@,
            Error::Failure => "runtime error"@,
            Error::NotAvail => "element not available"@,
            Error::TooSmall => "buffer too small"@,
        }
    }

    /// The words that describe this error.
    pub fn message(&self) -> (m: String)
        ensures
            m@ == self.spec_message(),
    {
        match self {
            Error::Invalid => String::from_str("invalid argument"),
            Error::Failure => String::from_str("runtime error"),
            Error::NotAvail => String::from_str("element not available"),
            Error::TooSmall => String::from_str("buffer too small"),
        }
    }

    /// The error that `code` stands for, or `None` where it stands for none.
    pub fn from_i32(code: i32) -> (e: Option<Error>)
        ensures
            e == error_of_code(code as int),
    {
        if code == -1 {
            Some(Error::Invalid)
        } else if code == -2 {
            Some(Error::Failure)
        } else if code == -3 {
            Some(Error::NotAvail)
        } else if code == -4 {
            Some(Error::TooSmall)
        } else {
            None
        }
    }
}

/// Splits a return code of the native transport into value and error.
pub fn check_error(r: i32) -> (res: Result<i32, Error>)
    ensures
        res == checked(r),
        res is Ok <==> r >= 0,
{
    if r < 0 {
        return Err(
            match Error::from_i32(r) {
                Some(e) => e,
                None => Error::Failure,
            },
        );
    }
    Ok(r)
}

/// Each error stands for exactly one return code, that code is negative, and
/// checking it gives the error back.
pub proof fn lemma_error_codes_round_trip(e: Error)
    ensures
        -4 <= e.spec_code() <= -1,
        error_of_code(e.spec_code()) == Some(e),
        checked(e.spec_code() as i32) == Err::<i32, Error>(e),
{
}

/// Which kind of certificate the transport makes for itself.
#[derive(Clone, Copy, Debug, PartialEq, Eq, Structural)]
pub enum CertificateType {
    /// Whatever the transport prefers.
    Default,
    /// An ECDSA certificate.
    ECDSA,
    /// An RSA certificate.
    RSA,
}

impl Default for CertificateType {
    fn default() -> (r: Self)
        ensures
            r == CertificateType::Default,
    {
        CertificateType::Default
    }
}

/// Which candidates the transport may use.
#[derive(Clone, Copy, Debug, PartialEq, Eq, Structural)]
pub enum TransportPolicy {
    /// Every candidate.
    All,
    /// Relayed candidates only.
    Relay,
}

impl Default for TransportPolicy {
    fn default() -> (r: Self)
        ensures
            r == TransportPolicy::All,
    {
        TransportPolicy::All
    }
}

/// The role of a session description in the offer/answer exchange.
#[derive(Clone, Copy, Debug, PartialEq, Eq, Structural)]
pub enum SdpType {
    Offer,
    Answer,
    Pranswer,
    Rollback,
}

/// The text was not the name of a description type.
#[derive(Clone, Copy, Debug, PartialEq, Eq, Structural)]
pub struct SdpTypeParseError;

impl SdpTypeParseError {
    /// The words that describe this error.
    pub fn message(&self) -> (m: String)
        ensures
            m@ == "unknown description type"@,
    {
        String::from_str("unknown description type")
    }
}

/// The description type that a name stands for, if it stands for one.
pub open spec fn sdp_type_of_name(name: Seq<char>) -> Option<SdpType> {
    if name == "offer"@ {
        Some(SdpType::Offer)
    } else if name == "answer"@ {
        Some(SdpType::Answer)
    } else if name == "pranswer"@ {
        Some(SdpType::Pranswer)
    } else if name == "rollback"@ {
        Some(SdpType::Rollback)
    } else {
        None
    }
}

impl SdpType {
    /// The name of this description type on the wire.
    pub open spec fn name(self) -> Seq<char> {
        match self {
            SdpType::Offer => "offer"@,
            SdpType::Answer => "answer"@,
            SdpType::Pranswer => "pranswer"@,
            SdpType::Rollback => "rollback"@,
        }
    }

    /// The description type named by `s`: one of `offer`, `answer`,
    /// `pranswer` and `rollback`, in lower case. Any other text is an error.
    pub fn from_str(s: &str) -> (r: Result<SdpType, SdpTypeParseError>)
        ensures
            r is Ok <==> sdp_type_of_name(s@) is Some,
            r matches Ok(t) ==> sdp_type_of_name(s@) == Some(t),
    {
        if str_eq(s, "offer") {
            Ok(SdpType::Offer)
        } else if str_eq(s, "answer") {
            Ok(SdpType::Answer)
        } else if str_eq(s, "pranswer") {
            Ok(SdpType::Pranswer)
        } else if str_eq(s, "rollback") {
            Ok(SdpType::Rollback)
        } else {
            Err(SdpTypeParseError)
        }
    }

    /// The name of this description type on the wire.
    pub fn as_str(&self) -> (s: &'static str)
        ensures
            s@ == self.name(),
    {
        match self {
            SdpType::Offer => "offer",
            SdpType::Answer => "answer",
            SdpType::Pranswer => "pranswer",
            SdpType::Rollback => "rollback",
        }
    }
}

/// Reading the name of a description type gives the type back.
pub proof fn lemma_sdp_type_name_round_trip(t: SdpType)
    ensures
        sdp_type_of_name(t.name()) == Some(t),
{
    reveal_strlit("offer");
    reveal_strlit("answer");
    reveal_strlit("pranswer");
    reveal_strlit("rollback");
    assert("offer"@.len() == 5 && "answer"@.len() == 6);
    assert("pranswer"@.len() == 8 && "rollback"@.len() == 8);
    assert("pranswer"@[0] == 'p' && "rollback"@[0] == 'r');
}

/// A session description: its role and its SDP text.
#[derive(Debug)]
pub struct Description {
    pub type_: SdpType,
    pub sdp: String,
}

/// What the native transport is told when a connection is created.
pub struct Configuration {
    /// The ICE servers, each as one URL with its credentials inside.
    pub ice_servers: Vec<String>,
    pub proxy_server: Option<String>,
    /// The local address to bind to, in text form.
    pub bind_address: Option<String>,
    pub certificate_type: CertificateType,
    pub ice_transport_policy: TransportPolicy,
    pub enable_ice_tcp: bool,
    pub enable_ice_udp_mux: bool,
    pub disable_auto_negotiation: bool,
    pub force_media_transport: bool,
    pub port_range_begin: u16,
    pub port_range_end: u16,
    pub mtu: i32,
    pub max_message_size: i32,
}

impl Configuration {
    /// Whether every setting has its initial value.
    pub open spec fn is_default(&self) -> bool {
        &&& self.ice_servers@.len() == 0
        &&& self.proxy_server is None
        &&& self.bind_address is None
        &&& self.certificate_type == CertificateType::Default
        &&& self.ice_transport_policy == TransportPolicy::All
        &&& !self.enable_ice_tcp
        &&& !self.enable_ice_udp_mux
        &&& !self.disable_auto_negotiation
        &&& !self.force_media_transport
        &&& self.port_range_begin == 0
        &&& self.port_range_end == 0
        &&& self.mtu == 0
        &&& self.max_message_size == 0
    }
}

impl Default for Configuration {
    fn default() -> (c: Self)
        ensures
            c.is_default(),
    {
        Configuration {
            ice_servers: Vec::new(),
            proxy_server: None,
            bind_address: None,
            certificate_type: CertificateType::Default,
            ice_transport_policy: TransportPolicy::All,
            enable_ice_tcp: false,
            enable_ice_udp_mux: false,
            disable_auto_negotiation: false,
            force_media_transport: false,
            port_range_begin: 0,
            port_range_end: 0,
            mtu: 0,
            max_message_size: 0,
        }
    }
}

/// The state of a peer connection, as the native transport reports it.
#[derive(Clone, Copy, Debug, PartialEq, Eq, Structural)]
pub enum State {
    Connecting,
    Connected,
    Disconnected,
    Failed,
    Closed,
}

/// How far candidate gathering has come, as the native transport reports it.
#[derive(Clone, Copy, Debug, PartialEq, Eq, Structural)]
pub enum GatheringState {
    New,
    InProgress,
    Complete,
}

/// How hard the transport tries to deliver the messages of a data channel.
#[derive(Clone, Copy, Debug, PartialEq, Eq, Structural)]
pub struct Reliability {
    /// Messages may arrive out of order.
    pub unordered: bool,
    /// Messages may be given up on.
    pub unreliable: bool,
    /// How long a message may be retried for, in milliseconds.
    pub max_packet_life_time: u32,
    /// How often a message may be sent again.
    pub max_retransmits: u32,
}

impl Default for Reliability {
    fn default() -> (r: Self)
        ensures
            r == (Reliability {
                unordered: false,
                unreliable: false,
                max_packet_life_time: 0,
                max_retransmits: 0,
            }),
    {
        Reliability {
            unordered: false,
            unreliable: false,
            max_packet_life_time: 0,
            max_retransmits: 0,
        }
    }
}

/// The settings of a data channel, as the native transport takes them.
pub struct DataChannelOptions {
    pub reliability: Reliability,
    pub protocol: String,
    pub negotiated: bool,
    /// The stream to use, or `None` to let the transport choose.
    pub stream: Option<u16>,
}

impl Default for DataChannelOptions {
    fn default() -> (o: Self)
        ensures
            o.reliability == (Reliability {
                unordered: false,
                unreliable: false,
                max_packet_life_time: 0,
                max_retransmits: 0,
            }),
            o.protocol@.len() == 0,
            !o.negotiated,
            o.stream is None,
    {
        DataChannelOptions {
            reliability: Reliability::default(),
            protocol: String::new(),
            negotiated: false,
            stream: None,
        }
    }
}

} // verus!
