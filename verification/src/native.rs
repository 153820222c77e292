//! The rules by which the shared data model is handed to the native
//! transport and read back from it.

use vstd::prelude::*;
use vstd::string::{StrSliceExecFns, StringExecFns};
use vstd::utf8::encode_utf8;
use crate::facade;
use crate::facade::{IceServer, IceServerView};
use crate::libdatachannel;

verus! {

/// The native transport's name for a description type.
pub open spec fn native_sdp_type(t: facade::SdpType) -> libdatachannel::SdpType {
    match t {
        facade::SdpType::Offer => libdatachannel::SdpType::Offer,
        facade::SdpType::Answer => libdatachannel::SdpType::Answer,
        facade::SdpType::Pranswer => libdatachannel::SdpType::Pranswer,
        facade::SdpType::Rollback => libdatachannel::SdpType::Rollback,
    }
}

/// The description type that the native transport's name stands for.
pub open spec fn facade_sdp_type(t: libdatachannel::SdpType) -> facade::SdpType {
    match t {
        libdatachannel::SdpType::Offer => facade::SdpType::Offer,
        libdatachannel::SdpType::Answer => facade::SdpType::Answer,
        libdatachannel::SdpType::Pranswer => facade::SdpType::Pranswer,
        libdatachannel::SdpType::Rollback => facade::SdpType::Rollback,
    }
}

/// The transport error that a native error becomes: it carries the native
/// error's words.
pub fn error(value: libdatachannel::Error) -> (r: facade::Error)
    ensures
        r@ == value.spec_message(),
{
    facade::Error::new(value.message())
}

impl From<facade::SdpType> for libdatachannel::SdpType {
    fn from(value: facade::SdpType) -> (r: Self) {
        match value {
            facade::SdpType::Offer => libdatachannel::SdpType::Offer,
            facade::SdpType::Answer => libdatachannel::SdpType::Answer,
            facade::SdpType::Pranswer => libdatachannel::SdpType::Pranswer,
            facade::SdpType::Rollback => libdatachannel::SdpType::Rollback,
        }
    }
}

impl vstd::std_specs::convert::FromSpecImpl<facade::SdpType> for libdatachannel::SdpType {
    open spec fn obeys_from_spec() -> bool {
        true
    }

    open spec fn from_spec(v: facade::SdpType) -> Self {
        native_sdp_type(v)
    }
}

impl From<libdatachannel::SdpType> for facade::SdpType {
    fn from(value: libdatachannel::SdpType) -> (r: Self) {
        match value {
            libdatachannel::SdpType::Offer => facade::SdpType::Offer,
            libdatachannel::SdpType::Answer => facade::SdpType::Answer,
            libdatachannel::SdpType::Pranswer => facade::SdpType::Pranswer,
            libdatachannel::SdpType::Rollback => facade::SdpType::Rollback,
        }
    }
}

impl vstd::std_specs::convert::FromSpecImpl<libdatachannel::SdpType> for facade::SdpType {
    open spec fn obeys_from_spec() -> bool {
        true
    }

    open spec fn from_spec(v: libdatachannel::SdpType) -> Self {
        facade_sdp_type(v)
    }
}

impl From<facade::Description> for libdatachannel::Description {
    fn from(value: facade::Description) -> (r: Self) {
        libdatachannel::Description {
            type_: libdatachannel::SdpType::from(value.type_),
            sdp: value.sdp,
        }
    }
}

impl vstd::std_specs::convert::FromSpecImpl<facade::Description> for libdatachannel::Description {
    open spec fn obeys_from_spec() -> bool {
        true
    }

    open spec fn from_spec(v: facade::Description) -> Self {
        libdatachannel::Description {
            type_: native_sdp_type(v.type_),
            sdp: v.sdp,
        }
    }
}

impl From<libdatachannel::Description> for facade::Description {
    fn from(value: libdatachannel::Description) -> (r: Self) {
        facade::Description { type_: facade::SdpType::from(value.type_), sdp: value.sdp }
    }
}

impl vstd::std_specs::convert::FromSpecImpl<libdatachannel::Description> for facade::Description {
    open spec fn obeys_from_spec() -> bool {
        true
    }

    open spec fn from_spec(v: libdatachannel::Description) -> Self {
        facade::Description { type_: facade_sdp_type(v.type_), sdp: v.sdp }
    }
}

impl From<libdatachannel::GatheringState> for facade::IceGatheringState {
    fn from(value: libdatachannel::GatheringState) -> (r: Self) {
        match value {
            libdatachannel::GatheringState::New => facade::IceGatheringState::New,
            libdatachannel::GatheringState::InProgress => facade::IceGatheringState::Gathering,
            libdatachannel::GatheringState::Complete => facade::IceGatheringState::Complete,
        }
    }
}

impl vstd::std_specs::convert::FromSpecImpl<libdatachannel::GatheringState> for facade::IceGatheringState {
    open spec fn obeys_from_spec() -> bool {
        true
    }

    open spec fn from_spec(v: libdatachannel::GatheringState) -> Self {
        match v {
            libdatachannel::GatheringState::New => facade::IceGatheringState::New,
            libdatachannel::GatheringState::InProgress => facade::IceGatheringState::Gathering,
            libdatachannel::GatheringState::Complete => facade::IceGatheringState::Complete,
        }
    }
}

impl From<libdatachannel::State> for facade::PeerConnectionState {
    fn from(value: libdatachannel::State) -> (r: Self) {
        match value {
            libdatachannel::State::Connecting => facade::PeerConnectionState::Connecting,
            libdatachannel::State::Connected => facade::PeerConnectionState::Connected,
            libdatachannel::State::Disconnected => facade::PeerConnectionState::Disconnected,
            libdatachannel::State::Failed => facade::PeerConnectionState::Failed,
            libdatachannel::State::Closed => facade::PeerConnectionState::Closed,
        }
    }
}

impl vstd::std_specs::convert::FromSpecImpl<libdatachannel::State> for facade::PeerConnectionState {
    open spec fn obeys_from_spec() -> bool {
        true
    }

    open spec fn from_spec(v: libdatachannel::State) -> Self {
        match v {
            libdatachannel::State::Connecting => facade::PeerConnectionState::Connecting,
            libdatachannel::State::Connected => facade::PeerConnectionState::Connected,
            libdatachannel::State::Disconnected => facade::PeerConnectionState::Disconnected,
            libdatachannel::State::Failed => facade::PeerConnectionState::Failed,
            libdatachannel::State::Closed => facade::PeerConnectionState::Closed,
        }
    }
}

/// A description type keeps its role on the way to the native transport
/// and back.
pub proof fn lemma_sdp_type_round_trip(t: facade::SdpType, n: libdatachannel::SdpType)
    ensures
        facade_sdp_type(native_sdp_type(t)) == t,
        native_sdp_type(facade_sdp_type(n)) == n,
{
}

/// Whether a byte stands for itself in a percent-encoded text: the ASCII
/// letters and digits, and `-`, `.`, `_` and `~`.
pub open spec fn is_unreserved(b: u8) -> bool {
    ||| 0x30 <= b <= 0x39
    ||| 0x41 <= b <= 0x5a
    ||| 0x61 <= b <= 0x7a
    ||| b == 0x2d
    ||| b == 0x2e
    ||| b == 0x5f
    ||| b == 0x7e
}

/// The upper-case hexadecimal digit of a number below sixteen.
pub open spec fn hex_digit(n: int) -> char {
    if n < 10 {
        ((0x30 + n) as u8) as char
    } else {
        ((0x41 + n - 10) as u8) as char
    }
}

/// One byte, percent-encoded: itself where it is unreserved, else `%` and
/// its two hexadecimal digits.
pub open spec fn percent_encoded_byte(b: u8) -> Seq<char> {
    if is_unreserved(b) {
        seq![b as char]
    } else {
        seq!['%', hex_digit(b as int / 16), hex_digit(b as int % 16)]
    }
}

/// A byte string, percent-encoded byte by byte.
pub open spec fn percent_encoded(bytes: Seq<u8>) -> Seq<char>
    decreases bytes.len(),
{
    if bytes.len() == 0 {
        Seq::empty()
    } else {
        percent_encoded(bytes.drop_last()) + percent_encoded_byte(bytes.last())
    }
}

/// The percent-encoding of a text's UTF-8 bytes.
///
/// Trusted: calls `urlencoding::encode`, which encodes every byte of the
/// text except ASCII letters, digits, `-`, `.`, `_` and `~` as `%` and two
/// upper-case hexadecimal digits, and leaves those as they are.
#[verifier::external_body]
pub(crate) fn urlencode(data: &str) -> (r: String)
    ensures
        r@ == percent_encoded(encode_utf8(data@)),
{
    urlencoding::encode(data).into_owned()
}

/// The number of characters before the first `:` of a text; the length of
/// the text where it has none.
pub open spec fn scheme_len(url: Seq<char>) -> nat
    decreases url.len(),
{
    if url.len() == 0 || url[0] == ':' {
        0
    } else {
        1 + scheme_len(url.skip(1))
    }
}

/// The URL under which the native transport is given an ICE server: with a
/// user name and a credential, both go percent-encoded between the scheme
/// and the rest, as `scheme:user:credential@rest`; without both, or where
/// the URL has no `:`, the URL stays as it is.
pub open spec fn native_ice_url(
    url: Seq<char>,
    username: Option<Seq<char>>,
    credential: Option<Seq<char>>,
) -> Seq<char> {
    let mid = scheme_len(url) as int;
    if mid < url.len() && username is Some && credential is Some {
        url.take(mid) + seq![':'] + percent_encoded(encode_utf8(username->0)) + seq![':']
            + percent_encoded(encode_utf8(credential->0)) + seq!['@'] + url.skip(mid + 1)
    } else {
        url
    }
}

/// The URLs of one server, each as the native transport takes it.
pub open spec fn native_urls(server: IceServerView) -> Seq<Seq<char>> {
    Seq::new(
        server.urls.len(),
        |i: int| native_ice_url(server.urls[i], server.username, server.credential),
    )
}

/// The URLs of all servers, in the order of the servers and of their URLs.
pub open spec fn all_native_urls(servers: Seq<IceServerView>) -> Seq<Seq<char>>
    decreases servers.len(),
{
    if servers.len() == 0 {
        Seq::empty()
    } else {
        all_native_urls(servers.drop_last()) + native_urls(servers.last())
    }
}

/// The texts of a list of strings.
pub open spec fn texts(strings: Seq<String>) -> Seq<Seq<char>> {
    Seq::new(strings.len(), |i: int| strings[i]@)
}

/// The values of a list of servers.
pub open spec fn server_views(servers: Seq<IceServer>) -> Seq<IceServerView> {
    Seq::new(servers.len(), |i: int| servers[i]@)
}

proof fn lemma_scheme_len(url: Seq<char>, i: int)
    requires
        0 <= i <= url.len(),
        forall|j: int| 0 <= j < i ==> url[j] != ':',
        i == url.len() || url[i] == ':',
    ensures
        scheme_len(url) == i,
    decreases url.len(),
{
    if url.len() == 0 || url[0] == ':' {
    } else {
        lemma_scheme_len(url.skip(1), i - 1);
    }
}

/// The URL under which the native transport is given an ICE server.
pub fn ice_url(url: &String, username: &Option<String>, credential: &Option<String>) -> (r: String)
    ensures
        r@ == native_ice_url(
            url@,
            match username {
                Some(u) => Some(u@),
                None => None,
            },
            match credential {
                Some(c) => Some(c@),
                None => None,
            },
        ),
{
    let s = url.as_str();
    let n = s.unicode_len();
    let mut mid: usize = 0;
    let mut found = false;
    while mid < n && !found
        invariant
            mid <= n,
            n == s@.len(),
            forall|j: int| 0 <= j < mid ==> s@[j] != ':',
            found ==> mid < n && s@[mid as int] == ':',
        decreases n - mid + if found { 0int } else { 1int },
    {
        if s.get_char(mid) == ':' {
            found = true;
        } else {
            mid += 1;
        }
    }
    proof {
        lemma_scheme_len(s@, mid as int);
    }
    if !found {
        return url.clone();
    }
    match (username, credential) {
        (Some(u), Some(c)) => {
            proof {
                reveal_strlit(":");
                reveal_strlit("@");
            }
            let proto = s.substring_char(0, mid);
            let rest = s.substring_char(mid + 1, n);
            let mut out = String::from_str(proto);
            out.append(":");
            out.append(urlencode(u.as_str()).as_str());
            out.append(":");
            out.append(urlencode(c.as_str()).as_str());
            out.append("@");
            out.append(rest);
            assert(":"@ =~= seq![':']);
            assert("@"@ =~= seq!['@']);
            out
        },
        _ => url.clone(),
    }
}

/// Adds the URLs of one server, each as the native transport takes it, to
/// the end of `out`.
fn push_ice_server_urls(server: &IceServer, out: &mut Vec<String>)
    ensures
        texts(final(out)@) == texts(old(out)@) + native_urls(server@),
{
    let ghost before = out@;
    let mut i: usize = 0;
    while i < server.urls.len()
        invariant
            i <= server.urls@.len(),
            out@.len() == before.len() + i,
            forall|j: int| 0 <= j < before.len() ==> out@[j] == before[j],
            forall|j: int|
                0 <= j < i ==> (#[trigger] out@[before.len() + j])@ == native_urls(server@)[j],
        decreases server.urls.len() - i,
    {
        let u = ice_url(&server.urls[i], &server.username, &server.credential);
        out.push(u);
        i += 1;
    }
    assert(texts(out@) =~= texts(before) + native_urls(server@)) by {
        assert forall|k: int| 0 <= k < out@.len() implies texts(out@)[k] == (texts(before)
            + native_urls(server@))[k] by {
            if k >= before.len() {
                assert(out@[before.len() + (k - before.len())]@ == native_urls(server@)[k
                    - before.len()]);
            }
        }
    }
}

/// The URLs of all servers, each as the native transport takes it, in the
/// order of the servers and of their URLs.
pub fn ice_server_urls(servers: &Vec<IceServer>) -> (out: Vec<String>)
    ensures
        texts(out@) == all_native_urls(server_views(servers@)),
{
    let mut out: Vec<String> = Vec::new();
    let mut i: usize = 0;
    assert(server_views(servers@).take(0) =~= Seq::<IceServerView>::empty());
    assert(texts(out@) =~= Seq::<Seq<char>>::empty());
    while i < servers.len()
        invariant
            i <= servers@.len(),
            texts(out@) == all_native_urls(server_views(servers@).take(i as int)),
        decreases servers.len() - i,
    {
        push_ice_server_urls(&servers[i], &mut out);
        proof {
            let all = server_views(servers@);
            assert(all.take(i + 1).drop_last() =~= all.take(i as int));
            assert(all.take(i + 1).last() == servers@[i as int]@);
        }
        i += 1;
    }
    assert(server_views(servers@).take(i as int) =~= server_views(servers@));
    out
}

/// What the native transport is told for a connection with these settings:
/// its servers are those of `config`, with their credentials written into
/// their URLs, its policy is that of `config`, and the rest stays as the
/// platform settings have it.
pub fn configuration(config: facade::Configuration) -> (native: libdatachannel::Configuration)
    ensures
        texts(native.ice_servers@) == all_native_urls(server_views(config.ice_servers@)),
        native.ice_transport_policy == match config.ice_transport_policy {
            facade::IceTransportPolicy::All => libdatachannel::TransportPolicy::All,
            facade::IceTransportPolicy::Relay => libdatachannel::TransportPolicy::Relay,
        },
        native.proxy_server == config.sys.proxy_server,
        native.bind_address == config.sys.bind_address,
        native.certificate_type == config.sys.certificate_type,
        native.enable_ice_tcp == config.sys.enable_ice_tcp,
        native.enable_ice_udp_mux == config.sys.enable_ice_udp_mux,
        native.disable_auto_negotiation == config.sys.disable_auto_negotiation,
        native.force_media_transport == config.sys.force_media_transport,
        native.port_range_begin == config.sys.port_range_begin,
        native.port_range_end == config.sys.port_range_end,
        native.mtu == config.sys.mtu,
        native.max_message_size == config.sys.max_message_size,
{
    let urls = ice_server_urls(&config.ice_servers);
    let policy = match config.ice_transport_policy {
        facade::IceTransportPolicy::All => libdatachannel::TransportPolicy::All,
        facade::IceTransportPolicy::Relay => libdatachannel::TransportPolicy::Relay,
    };
    let sys = config.sys;
    libdatachannel::Configuration {
        ice_servers: urls,
        proxy_server: sys.proxy_server,
        bind_address: sys.bind_address,
        certificate_type: sys.certificate_type,
        ice_transport_policy: policy,
        enable_ice_tcp: sys.enable_ice_tcp,
        enable_ice_udp_mux: sys.enable_ice_udp_mux,
        disable_auto_negotiation: sys.disable_auto_negotiation,
        force_media_transport: sys.force_media_transport,
        port_range_begin: sys.port_range_begin,
        port_range_end: sys.port_range_end,
        mtu: sys.mtu,
        max_message_size: sys.max_message_size,
    }
}

/// The settings of a data channel as the native transport takes them: the
/// channel is unordered where it is not ordered, unreliable where either
/// limit is set, and a limit that is not set is zero.
pub fn data_channel_options(options: facade::DataChannelOptions) -> (native:
    libdatachannel::DataChannelOptions)
    ensures
        native.reliability.unordered == !options.ordered,
        native.reliability.unreliable == (options.max_packet_life_time is Some
            || options.max_retransmits is Some),
        native.reliability.max_packet_life_time == match options.max_packet_life_time {
            Some(t) => t as u32,
            None => 0u32,
        },
        native.reliability.max_retransmits == match options.max_retransmits {
            Some(n) => n as u32,
            None => 0u32,
        },
        native.protocol == options.protocol,
        native.negotiated == options.negotiated,
        native.stream == options.id,
{
    let max_packet_life_time: u32 = match options.max_packet_life_time {
        Some(t) => t as u32,
        None => 0,
    };
    let max_retransmits: u32 = match options.max_retransmits {
        Some(n) => n as u32,
        None => 0,
    };
    libdatachannel::DataChannelOptions {
        reliability: libdatachannel::Reliability {
            unordered: !options.ordered,
            unreliable: options.max_packet_life_time.is_some()
                || options.max_retransmits.is_some(),
            max_packet_life_time,
            max_retransmits,
        },
        protocol: options.protocol,
        negotiated: options.negotiated,
        stream: options.id,
    }
}

/// What to do about a request to set the local description.
#[derive(Clone, Copy, Debug, PartialEq, Eq, Structural)]
pub enum LocalDescriptionPlan {
    /// Nothing: the connection already has a local answer.
    Skip,
    /// Ask the transport to make and set a description of this type.
    Apply(libdatachannel::SdpType),
}

/// Whether a request to set a local description of this type looks at the
/// current local description first. Only a request for an answer does.
pub fn reads_local_description(type_: facade::SdpType) -> (r: bool)
    ensures
        r == (type_ == facade::SdpType::Answer),
{
    match type_ {
        facade::SdpType::Answer => true,
        _ => false,
    }
}

/// The decision on a request to set the local description. `current` is the
/// local description as it was just read, or `None` where it was not read.
///
/// A request for an answer on a connection that already has a local answer
/// does nothing. A request for an answer whose reading of the current
/// description failed fails with that error. Every other request goes to
/// the transport.
pub open spec fn local_description_plan(
    type_: facade::SdpType,
    current: Option<Result<Option<facade::Description>, facade::Error>>,
) -> Result<LocalDescriptionPlan, facade::Error> {
    if type_ != facade::SdpType::Answer {
        Ok(LocalDescriptionPlan::Apply(native_sdp_type(type_)))
    } else {
        match current {
            Some(Err(e)) => Err(e),
            Some(Ok(Some(d))) => if d.type_ == facade::SdpType::Answer {
                Ok(LocalDescriptionPlan::Skip)
            } else {
                Ok(LocalDescriptionPlan::Apply(libdatachannel::SdpType::Answer))
            },
            _ => Ok(LocalDescriptionPlan::Apply(libdatachannel::SdpType::Answer)),
        }
    }
}

/// Decides a request to set the local description, as
/// `local_description_plan` says.
pub fn set_local_description(
    type_: facade::SdpType,
    current: Option<Result<Option<facade::Description>, facade::Error>>,
) -> (plan: Result<LocalDescriptionPlan, facade::Error>)
    ensures
        plan == local_description_plan(type_, current),
{
    if reads_local_description(type_) {
        match current {
            Some(Err(e)) => {
                return Err(e);
            },
            Some(Ok(Some(d))) => {
                if reads_local_description(d.type_) {
                    return Ok(LocalDescriptionPlan::Skip);
                }
            },
            _ => {},
        }
    }
    Ok(LocalDescriptionPlan::Apply(libdatachannel::SdpType::from(type_)))
}

/// Asking for an answer when a local answer already exists changes nothing
/// and never fails, however often it is asked: whatever answer is there,
/// the decision is to skip, so the transport is not called and the answer
/// is still there for the next request.
pub proof fn lemma_answer_is_idempotent(existing: facade::Description)
    requires
        existing.type_ == facade::SdpType::Answer,
    ensures
        local_description_plan(facade::SdpType::Answer, Some(Ok(Some(existing)))) == Ok::<
            LocalDescriptionPlan,
            facade::Error,
        >(LocalDescriptionPlan::Skip),
{
}

/// A description as it was read from the native transport: one that is not
/// available is no description and no error; every other error stays one.
pub fn local_description(
    native: Result<libdatachannel::Description, libdatachannel::Error>,
) -> (r: Result<Option<facade::Description>, facade::Error>)
    ensures
        match native {
            Ok(d) => r matches Ok(Some(f)) && f.type_ == facade_sdp_type(d.type_) && f.sdp
                == d.sdp,
            Err(libdatachannel::Error::NotAvail) => r matches Ok(None),
            Err(e) => r matches Err(f) && f@ == e.spec_message(),
        },
{
    match native {
        Ok(d) => Ok(Some(facade::Description::from(d))),
        Err(libdatachannel::Error::NotAvail) => Ok(None),
        Err(e) => Err(error(e)),
    }
}

/// The candidate text that the native transport is given: the candidate,
/// or the empty text for the end of candidates.
pub fn add_ice_candidate<'a>(cand: Option<&'a str>) -> (native: &'a str)
    ensures
        native@ == match cand {
            Some(c) => c@,
            None => Seq::<char>::empty(),
        },
{
    match cand {
        Some(c) => c,
        None => {
            proof {
                reveal_strlit("");
            }
            ""
        },
    }
}

/// The candidate that a text from the native transport stands for: the
/// empty text marks the end of candidates.
pub fn ice_candidate<'a>(native: &'a str) -> (cand: Option<&'a str>)
    ensures
        cand is None <==> native@.len() == 0,
        cand matches Some(c) ==> c@ == native@,
{
    if native.is_empty() {
        None
    } else {
        Some(native)
    }
}

} // verus!
