//! The inbound side: each request becomes a pending handshake in a bounded
//! accept queue, and the request is answered once the handshake has been
//! finished or given up.

use vstd::prelude::*;
use vstd::utf8::{decode_utf8, encode_utf8, valid_utf8};
use crate::facade;
use crate::facade::{ConfigurationExt, Description, IceServer, SdpType};
use crate::http;
use crate::libdatachannel;
use crate::http::{all_visible, visible_text, Header, RequestHeader, Response};
use crate::mailbox::{Mailbox, MailboxView, SendStep};
use crate::sync_util::Step;
use crate::text::{str_eq, string_from_utf8};

verus! {

/// The number of pending handshakes that a server queues unless told
/// otherwise.
pub const DEFAULT_BACKLOG: usize = 128;

/// The largest offer, in bytes, that a server takes unless told otherwise.
pub const DEFAULT_MAX_BODY_SIZE: u64 = 8192;

/// Why a handshake could not be finished.
#[derive(Debug)]
pub enum Error {
    /// The transport refused a description.
    Dachannel(facade::Error),
    /// The body of the request could not be read.
    Axum(String),
    /// The offer was not UTF-8 text.
    MalformedBody,
    /// The request is gone: nobody waits for the answer any more.
    Closed,
}

/// A pending handshake: a request whose offer waits to be admitted. `C` is
/// the connection that was created for it.
///
/// A pending handshake is used up exactly once: it is finished, which
/// answers the request with the local answer, or it is rejected, which
/// answers it with a refusal.
pub struct Connecting<C> {
    headers: Vec<RequestHeader>,
    remote_addr: String,
    connection: C,
}

/// Whether two header names are the same: header names do not tell upper
/// from lower case in the ASCII letters.
pub open spec fn same_name(a: Seq<u8>, b: Seq<u8>) -> bool {
    a.len() == b.len() && forall|i: int| 0 <= i < a.len() ==> lower(a[i]) == lower(b[i])
}

/// A byte in lower case, where it is an upper-case ASCII letter.
pub open spec fn lower(b: u8) -> u8 {
    if 0x41 <= b <= 0x5a {
        (b + 0x20) as u8
    } else {
        b
    }
}

/// Whether `i` is the place of the first header of the name `key`.
pub open spec fn first_named(headers: Seq<RequestHeader>, key: Seq<char>, i: int) -> bool {
    &&& 0 <= i < headers.len()
    &&& same_name(encode_utf8(headers[i].name@), encode_utf8(key))
    &&& forall|j: int|
        0 <= j < i ==> !same_name(encode_utf8(#[trigger] headers[j].name@), encode_utf8(key))
}

fn to_lower(b: u8) -> (l: u8)
    ensures
        l == lower(b),
{
    if 0x41 <= b && b <= 0x5a {
        b + 0x20
    } else {
        b
    }
}

fn name_eq(a: &str, b: &str) -> (r: bool)
    ensures
        r == same_name(encode_utf8(a@), encode_utf8(b@)),
{
    let x = a.as_bytes();
    let y = b.as_bytes();
    if x.len() != y.len() {
        return false;
    }
    let mut i: usize = 0;
    while i < x.len()
        invariant
            i <= x.len(),
            x.len() == y.len(),
            x@ == encode_utf8(a@),
            y@ == encode_utf8(b@),
            forall|j: int| 0 <= j < i ==> lower(x@[j]) == lower(y@[j]),
        decreases x.len() - i,
    {
        if to_lower(x[i]) != to_lower(y[i]) {
            return false;
        }
        i += 1;
    }
    true
}

impl<C> Connecting<C> {
    /// The headers of the request, in order.
    pub closed spec fn spec_headers(&self) -> Seq<RequestHeader> {
        self.headers@
    }

    /// The address that the request came from, as text.
    pub closed spec fn spec_remote_addr(&self) -> Seq<char> {
        self.remote_addr@
    }

    /// The connection that was created for the request.
    pub closed spec fn spec_connection(&self) -> C {
        self.connection
    }

    /// The pending handshake of a request with these headers from this
    /// address, on a connection made for it.
    pub fn new(headers: Vec<RequestHeader>, remote_addr: String, connection: C) -> (pending: Self)
        ensures
            pending.spec_headers() == headers@,
            pending.spec_remote_addr() == remote_addr@,
            pending.spec_connection() == connection,
    {
        Connecting { headers, remote_addr, connection }
    }

    /// The connection. Data channels that both sides create themselves are
    /// created on it now, before the handshake is finished.
    pub fn connection(&self) -> (c: &C)
        ensures
            *c == self.spec_connection(),
    {
        &self.connection
    }

    /// The headers of the request, in order.
    pub fn headers(&self) -> (h: &Vec<RequestHeader>)
        ensures
            h@ == self.spec_headers(),
    {
        &self.headers
    }

    /// The value of the first header of the name `key`, whatever the case
    /// of its ASCII letters, as text. `None` where the request has no such
    /// header, and where the value of the first one has a byte that is no
    /// visible ASCII character, space or tab.
    pub fn header(&self, key: &str) -> (value: Option<String>)
        ensures
            match value {
                Some(v) => exists|i: int|
                    first_named(self.spec_headers(), key@, i) && all_visible(
                        self.spec_headers()[i].value@,
                    ) && encode_utf8(v@) == self.spec_headers()[i].value@,
                None => forall|i: int|
                    first_named(self.spec_headers(), key@, i) ==> !all_visible(
                        self.spec_headers()[i].value@,
                    ),
            },
    {
        let mut i: usize = 0;
        while i < self.headers.len()
            invariant
                i <= self.headers@.len(),
                forall|j: int|
                    0 <= j < i ==> !same_name(
                        encode_utf8(#[trigger] self.headers@[j].name@),
                        encode_utf8(key@),
                    ),
            decreases self.headers.len() - i,
        {
            if name_eq(self.headers[i].name.as_str(), key) {
                assert(first_named(self.spec_headers(), key@, i as int));
                assert forall|k: int| first_named(self.spec_headers(), key@, k) implies k
                    == i by {
                    if k < i {
                        assert(!same_name(
                            encode_utf8(self.headers@[k].name@),
                            encode_utf8(key@),
                        ));
                    } else if k > i {
                        assert(!same_name(
                            encode_utf8(self.headers@[i as int].name@),
                            encode_utf8(key@),
                        ));
                    }
                }
                return visible_text(&self.headers[i].value);
            }
            i += 1;
        }
        None
    }

    /// The address that the request came from, as text. It need not be
    /// the address that the data channel will come from.
    pub fn remote_addr(&self) -> (addr: &String)
        ensures
            addr@ == self.spec_remote_addr(),
    {
        &self.remote_addr
    }

    /// Begins to finish the handshake. The first thing to do is to read
    /// the body of the request and hand it to the first step.
    pub fn finish(self) -> (finishing: Finishing<C>)
        ensures
            finishing.spec_state() == FinishState::ReadingBody,
            finishing.spec_connection() == self.spec_connection(),
    {
        Finishing { state: FinishState::ReadingBody, connection: self.connection }
    }

    /// Gives the handshake up without finishing it. What comes back is the
    /// connection, to be disposed of, and what goes into the response slot:
    /// the refusal.
    pub fn reject(self) -> (r: (C, Option<String>))
        ensures
            r.0 == self.spec_connection(),
            r.1 is None,
    {
        (self.connection, None)
    }
}

/// Where the finishing of a handshake stands.
#[derive(Clone, Copy, Debug, PartialEq, Eq, Structural)]
pub enum FinishState {
    /// The body of the request is being read.
    ReadingBody,
    /// The transport is applying the offer.
    SettingRemoteDescription,
    /// The transport is making the local answer.
    SettingLocalDescription,
    /// The answer exists; candidates are still being gathered.
    Gathering,
    /// Every candidate is in; the answer is being read.
    ReadingAnswer,
    /// The handshake is finished and the request answered.
    Done,
    /// The handshake failed and the request was refused.
    Failed,
}

/// What happened since the last step of a finishing.
pub enum FinishEvent {
    /// The body of the request, or why it could not be read.
    Body(Result<Vec<u8>, String>),
    /// The transport has applied the offer, or failed to.
    RemoteDescriptionSet(Result<(), facade::Error>),
    /// The transport has set the local answer, or failed to.
    LocalDescriptionSet(Result<(), facade::Error>),
    /// Every candidate has been gathered.
    IceCandidatesGathered,
    /// The local description as it was read from the transport.
    LocalDescription(Result<Option<Description>, facade::Error>),
}

/// What to do next in a finishing.
pub enum FinishAction {
    /// Ask the transport to apply this description of the peer.
    SetRemoteDescription(Description),
    /// Ask the transport to make and set a local description of this type.
    SetLocalDescription(SdpType),
    /// Wait until every candidate has been gathered.
    AwaitIceCandidatesGathered,
    /// Read the local description from the transport.
    ReadLocalDescription,
    /// The finishing is over. `slot` goes into the response slot: the
    /// answer, or `None` as the refusal. `outcome` goes to the caller.
    Resolve { slot: Option<String>, outcome: Result<(), Error> },
    /// The event was not the one this state waits for: keep waiting.
    Ignore,
}

/// Whether an event is the one that a state waits for.
pub open spec fn finish_awaited(state: FinishState, event: FinishEvent) -> bool {
    match state {
        FinishState::ReadingBody => event is Body,
        FinishState::SettingRemoteDescription => event is RemoteDescriptionSet,
        FinishState::SettingLocalDescription => event is LocalDescriptionSet,
        FinishState::Gathering => event is IceCandidatesGathered,
        FinishState::ReadingAnswer => event is LocalDescription,
        FinishState::Done => false,
        FinishState::Failed => false,
    }
}

/// Whether an awaited event lets the finishing go on.
pub open spec fn finish_succeeds(event: FinishEvent) -> bool {
    match event {
        FinishEvent::Body(r) => r matches Ok(body) && valid_utf8(body@),
        FinishEvent::RemoteDescriptionSet(r) => r is Ok,
        FinishEvent::LocalDescriptionSet(r) => r is Ok,
        FinishEvent::IceCandidatesGathered => true,
        FinishEvent::LocalDescription(r) => r is Ok,
    }
}

/// The state that follows a state in a finishing that goes well.
pub open spec fn finish_successor(state: FinishState) -> FinishState {
    match state {
        FinishState::ReadingBody => FinishState::SettingRemoteDescription,
        FinishState::SettingRemoteDescription => FinishState::SettingLocalDescription,
        FinishState::SettingLocalDescription => FinishState::Gathering,
        FinishState::Gathering => FinishState::ReadingAnswer,
        FinishState::ReadingAnswer => FinishState::Done,
        FinishState::Done => FinishState::Done,
        FinishState::Failed => FinishState::Failed,
    }
}

/// The state after an event: an event that is not awaited changes nothing,
/// an awaited one that succeeds leads to the next state, and an awaited
/// one that fails ends the finishing.
pub open spec fn finish_next_state(state: FinishState, event: FinishEvent) -> FinishState {
    if !finish_awaited(state, event) {
        state
    } else if finish_succeeds(event) {
        finish_successor(state)
    } else {
        FinishState::Failed
    }
}

/// Whether `action` is what a finishing does on an event in a state.
pub open spec fn finish_acts(state: FinishState, event: FinishEvent, action: FinishAction) -> bool {
    if !finish_awaited(state, event) {
        action is Ignore
    } else {
        match event {
            FinishEvent::Body(Ok(body)) => if valid_utf8(body@) {
                action matches FinishAction::SetRemoteDescription(offer) && offer.type_
                    == SdpType::Offer && offer.sdp@ == decode_utf8(body@)
            } else {
                action matches FinishAction::Resolve { slot: None, outcome: Err(Error::MalformedBody) }
            },
            FinishEvent::Body(Err(text)) => action matches FinishAction::Resolve {
                slot: None,
                outcome: Err(Error::Axum(t)),
            } && t == text,
            FinishEvent::RemoteDescriptionSet(Ok(_)) => action
                matches FinishAction::SetLocalDescription(SdpType::Answer),
            FinishEvent::RemoteDescriptionSet(Err(e)) => action matches FinishAction::Resolve {
                slot: None,
                outcome: Err(Error::Dachannel(f)),
            } && f == e,
            FinishEvent::LocalDescriptionSet(Ok(_)) => action is AwaitIceCandidatesGathered,
            FinishEvent::LocalDescriptionSet(Err(e)) => action matches FinishAction::Resolve {
                slot: None,
                outcome: Err(Error::Dachannel(f)),
            } && f == e,
            FinishEvent::IceCandidatesGathered => action is ReadLocalDescription,
            FinishEvent::LocalDescription(Ok(Some(answer))) => action
                matches FinishAction::Resolve { slot: Some(text), outcome: Ok(_) } && text
                == answer.sdp,
            FinishEvent::LocalDescription(Ok(None)) => action matches FinishAction::Resolve {
                slot: Some(text),
                outcome: Ok(_),
            } && text@.len() == 0,
            FinishEvent::LocalDescription(Err(e)) => action matches FinishAction::Resolve {
                slot: None,
                outcome: Err(Error::Dachannel(f)),
            } && f == e,
        }
    }
}

/// A handshake that is being finished.
pub struct Finishing<C> {
    state: FinishState,
    connection: C,
}

impl<C> Finishing<C> {
    /// Where the finishing stands.
    pub closed spec fn spec_state(&self) -> FinishState {
        self.state
    }

    /// The connection of the handshake.
    pub closed spec fn spec_connection(&self) -> C {
        self.connection
    }

    /// Where the finishing stands.
    pub fn state(&self) -> (s: FinishState)
        ensures
            s == self.spec_state(),
    {
        self.state
    }

    /// The connection of the handshake.
    pub fn connection(&self) -> (c: &C)
        ensures
            *c == self.spec_connection(),
    {
        &self.connection
    }

    /// Takes the finishing one step on: given what happened, says what to
    /// do next. The offer is applied exactly as the body of the request
    /// decodes, and the answer goes into the response slot exactly as the
    /// transport gave it. Every failure refuses the request.
    pub fn step(&mut self, event: FinishEvent) -> (action: FinishAction)
        ensures
            final(self).spec_state() == finish_next_state(old(self).spec_state(), event),
            final(self).spec_connection() == old(self).spec_connection(),
            finish_acts(old(self).spec_state(), event, action),
    {
        match (self.state, event) {
            (FinishState::ReadingBody, FinishEvent::Body(r)) => {
                match r {
                    Ok(body) => match string_from_utf8(body) {
                        Some(sdp) => {
                            self.state = FinishState::SettingRemoteDescription;
                            FinishAction::SetRemoteDescription(
                                Description { type_: SdpType::Offer, sdp },
                            )
                        },
                        None => self.fail(Error::MalformedBody),
                    },
                    Err(text) => self.fail(Error::Axum(text)),
                }
            },
            (FinishState::SettingRemoteDescription, FinishEvent::RemoteDescriptionSet(r)) => {
                match r {
                    Ok(_) => {
                        self.state = FinishState::SettingLocalDescription;
                        FinishAction::SetLocalDescription(SdpType::Answer)
                    },
                    Err(e) => self.fail(Error::Dachannel(e)),
                }
            },
            (FinishState::SettingLocalDescription, FinishEvent::LocalDescriptionSet(r)) => {
                match r {
                    Ok(_) => {
                        self.state = FinishState::Gathering;
                        FinishAction::AwaitIceCandidatesGathered
                    },
                    Err(e) => self.fail(Error::Dachannel(e)),
                }
            },
            (FinishState::Gathering, FinishEvent::IceCandidatesGathered) => {
                self.state = FinishState::ReadingAnswer;
                FinishAction::ReadLocalDescription
            },
            (FinishState::ReadingAnswer, FinishEvent::LocalDescription(r)) => {
                match r {
                    Ok(Some(answer)) => {
                        self.state = FinishState::Done;
                        FinishAction::Resolve { slot: Some(answer.sdp), outcome: Ok(()) }
                    },
                    Ok(None) => {
                        self.state = FinishState::Done;
                        FinishAction::Resolve { slot: Some(String::new()), outcome: Ok(()) }
                    },
                    Err(e) => self.fail(Error::Dachannel(e)),
                }
            },
            _ => FinishAction::Ignore,
        }
    }

    fn fail(&mut self, error: Error) -> (action: FinishAction)
        ensures
            final(self).state == FinishState::Failed,
            final(self).connection == old(self).connection,
            action == (FinishAction::Resolve { slot: None, outcome: Err(error) }),
    {
        self.state = FinishState::Failed;
        FinishAction::Resolve { slot: None, outcome: Err(error) }
    }

    /// Gives the finishing up. What comes back is the connection, to be
    /// disposed of, and what is still to go into the response slot: the
    /// refusal where the finishing was not over, and nothing where it was,
    /// because the slot has been resolved already.
    pub fn reject(self) -> (r: (C, Option<Option<String>>))
        ensures
            r.0 == self.spec_connection(),
            r.1 == if finish_is_over(self.spec_state()) {
                None::<Option<String>>
            } else {
                Some(None::<String>)
            },
    {
        let pending = match self.state {
            FinishState::Done => None,
            FinishState::Failed => None,
            _ => Some(None),
        };
        (self.connection, pending)
    }

    /// The connection, for the caller to keep once the finishing is over.
    pub fn into_connection(self) -> (c: C)
        ensures
            c == self.spec_connection(),
    {
        self.connection
    }
}

/// What a finishing comes to once its answer has been handed to the
/// response slot: a finishing that went well has still failed where the
/// answer could not be delivered, because the request was gone.
pub fn settle(outcome: Result<(), Error>, delivered: bool) -> (r: Result<(), Error>)
    ensures
        r == match outcome {
            Ok(_) => if delivered {
                Ok::<(), Error>(())
            } else {
                Err::<(), Error>(Error::Closed)
            },
            Err(e) => Err::<(), Error>(e),
        },
{
    match outcome {
        Ok(_) => if delivered {
            Ok(())
        } else {
            Err(Error::Closed)
        },
        Err(e) => Err(e),
    }
}

/// Where the answering of one request stands.
#[derive(Clone, Copy, Debug, PartialEq, Eq, Structural)]
pub enum OfferState {
    /// The request has arrived; nothing has been looked at.
    Received,
    /// The request is acceptable; its connection is being created.
    CreatingConnection,
    /// The pending handshake waits for room in the accept queue.
    Queued,
    /// The pending handshake is in the accept queue or with the consumer;
    /// the response slot is empty.
    AwaitingAnswer,
    /// The request has been answered.
    Responded,
}

/// What happened since the last step of an answering.
pub enum OfferEvent {
    /// The head of the request: its method, and the most bytes its body
    /// may have, or `None` where that is not known.
    Request { method: String, body_size: Option<u64> },
    /// The connection for the request was created, or could not be.
    ConnectionCreated(Result<(), facade::Error>),
    /// The pending handshake went into the accept queue.
    Admitted,
    /// The pending handshake did not get into the accept queue: the queue
    /// is closed, or no room came up in time.
    NotAdmitted,
    /// The response slot was filled: with the answer, or with `None` as
    /// the refusal.
    Answer(Option<String>),
}

/// What to do next in an answering.
pub enum OfferAction {
    /// Create a connection for the request.
    CreateConnection,
    /// Put the pending handshake into the accept queue, waiting for room
    /// where there is none.
    Enqueue,
    /// Wait for the response slot to be filled.
    AwaitAnswer,
    /// Answer the request with this response.
    Respond(Response),
    /// The event was not the one this state waits for: keep waiting.
    Ignore,
}

/// Whether an event is the one that a state waits for.
pub open spec fn offer_awaited(state: OfferState, event: OfferEvent) -> bool {
    match state {
        OfferState::Received => event is Request,
        OfferState::CreatingConnection => event is ConnectionCreated,
        OfferState::Queued => event is Admitted || event is NotAdmitted,
        OfferState::AwaitingAnswer => event is Answer,
        OfferState::Responded => false,
    }
}

/// Whether the body of a request is too large: it may have more bytes than
/// `limit`, or nothing is known of its size.
pub open spec fn too_large(body_size: Option<u64>, limit: u64) -> bool {
    match body_size {
        Some(n) => n > limit,
        None => true,
    }
}

/// The status with which an awaited event ends the answering, or `None`
/// where the answering goes on.
pub open spec fn offer_status(event: OfferEvent, limit: u64) -> Option<u16> {
    match event {
        OfferEvent::Request { method, body_size } => if method@ != "POST"@ {
            Some(http::METHOD_NOT_ALLOWED)
        } else if too_large(body_size, limit) {
            Some(http::PAYLOAD_TOO_LARGE)
        } else {
            None
        },
        OfferEvent::ConnectionCreated(Ok(_)) => None,
        OfferEvent::ConnectionCreated(Err(_)) => Some(http::INTERNAL_SERVER_ERROR),
        OfferEvent::Admitted => None,
        OfferEvent::NotAdmitted => Some(http::SERVICE_UNAVAILABLE),
        OfferEvent::Answer(Some(_)) => Some(http::OK),
        OfferEvent::Answer(None) => Some(http::FORBIDDEN),
    }
}

/// The state after an event: an event that is not awaited changes nothing,
/// one that ends the answering leads to `Responded`, and any other to the
/// next state.
pub open spec fn offer_next_state(state: OfferState, event: OfferEvent, limit: u64) -> OfferState {
    if !offer_awaited(state, event) {
        state
    } else if offer_status(event, limit) is Some {
        OfferState::Responded
    } else {
        match state {
            OfferState::Received => OfferState::CreatingConnection,
            OfferState::CreatingConnection => OfferState::Queued,
            OfferState::Queued => OfferState::AwaitingAnswer,
            OfferState::AwaitingAnswer => OfferState::Responded,
            OfferState::Responded => OfferState::Responded,
        }
    }
}

/// The state after a run of events.
pub open spec fn offer_state_after(state: OfferState, events: Seq<OfferEvent>, limit: u64) -> OfferState
    decreases events.len(),
{
    if events.len() == 0 {
        state
    } else {
        offer_next_state(offer_state_after(state, events.drop_last(), limit), events.last(), limit)
    }
}

/// Whether `response` is the one that carries the answer: status 200, the
/// answer as its body, and the two headers that let pages of any origin
/// post an offer.
pub open spec fn is_answer(response: Response, answer: Seq<char>) -> bool {
    &&& response.status == http::OK
    &&& response.body@ == answer
    &&& response.headers@.len() == 2
    &&& response.headers@[0].name@ == "access-control-allow-origin"@
    &&& response.headers@[0].value@ == "*"@
    &&& response.headers@[1].name@ == "access-control-allow-methods"@
    &&& response.headers@[1].value@ == "POST"@
}

/// Whether `response` is the one that only states `status`.
pub open spec fn is_refusal(response: Response, status: u16) -> bool {
    &&& response.status == status
    &&& response.body@ == Response::reason_body(status)
    &&& response.headers@.len() == 0
}

/// Whether `action` is what an answering does on an event in a state.
pub open spec fn offer_acts(
    state: OfferState,
    event: OfferEvent,
    limit: u64,
    action: OfferAction,
) -> bool {
    if !offer_awaited(state, event) {
        action is Ignore
    } else {
        match offer_status(event, limit) {
            Some(status) => action matches OfferAction::Respond(response) && match event {
                OfferEvent::Answer(Some(answer)) => is_answer(response, answer@),
                _ => is_refusal(response, status),
            },
            None => match state {
                OfferState::Received => action is CreateConnection,
                OfferState::CreatingConnection => action is Enqueue,
                _ => action is AwaitAnswer,
            },
        }
    }
}

/// The response that carries `answer`.
pub fn answer_response(answer: String) -> (response: Response)
    ensures
        is_answer(response, answer@),
{
    let mut headers: Vec<Header> = Vec::new();
    headers.push(Header::new("access-control-allow-origin", "*"));
    headers.push(Header::new("access-control-allow-methods", "POST"));
    Response { status: http::OK, headers, body: answer }
}

/// Takes the answering of one request one step on: given where it stands
/// and what happened, where it stands now and what to do next. `limit` is
/// the largest body that is taken.
///
/// A request that is no POST is answered 405 and one whose body may exceed
/// `limit` 413, both before a connection is created. A connection that
/// cannot be created answers 500, a pending handshake that is not admitted
/// 503, a refusal in the response slot 403, and an answer there 200 with
/// the answer as the body.
pub fn offer(state: OfferState, event: OfferEvent, limit: u64) -> (r: (OfferState, OfferAction))
    ensures
        r.0 == offer_next_state(state, event, limit),
        offer_acts(state, event, limit, r.1),
{
    match (state, event) {
        (OfferState::Received, OfferEvent::Request { method, body_size }) => {
            if !str_eq(method.as_str(), "POST") {
                return refuse(http::METHOD_NOT_ALLOWED);
            }
            let too_large = match body_size {
                Some(n) => n > limit,
                None => true,
            };
            if too_large {
                return refuse(http::PAYLOAD_TOO_LARGE);
            }
            (OfferState::CreatingConnection, OfferAction::CreateConnection)
        },
        (OfferState::CreatingConnection, OfferEvent::ConnectionCreated(r)) => {
            match r {
                Ok(_) => (OfferState::Queued, OfferAction::Enqueue),
                Err(_) => refuse(http::INTERNAL_SERVER_ERROR),
            }
        },
        (OfferState::Queued, OfferEvent::Admitted) => (
            OfferState::AwaitingAnswer,
            OfferAction::AwaitAnswer,
        ),
        (OfferState::Queued, OfferEvent::NotAdmitted) => refuse(http::SERVICE_UNAVAILABLE),
        (OfferState::AwaitingAnswer, OfferEvent::Answer(slot)) => {
            match slot {
                Some(answer) => (
                    OfferState::Responded,
                    OfferAction::Respond(answer_response(answer)),
                ),
                None => refuse(http::FORBIDDEN),
            }
        },
        (s, _) => (s, OfferAction::Ignore),
    }
}

fn refuse(status: u16) -> (r: (OfferState, OfferAction))
    ensures
        r.0 == OfferState::Responded,
        r.1 matches OfferAction::Respond(response) && is_refusal(response, status),
{
    (OfferState::Responded, OfferAction::Respond(Response::status(status)))
}

/// The settings of a server.
pub struct ServeOptions {
    ice_servers: Vec<IceServer>,
    backlog: usize,
    max_body_size: u64,
}

impl ServeOptions {
    /// The ICE servers that the connections of the server are given.
    pub closed spec fn spec_ice_servers(&self) -> Seq<IceServer> {
        self.ice_servers@
    }

    /// The number of pending handshakes that the server queues.
    pub closed spec fn spec_backlog(&self) -> usize {
        self.backlog
    }

    /// The largest offer, in bytes, that the server takes.
    pub closed spec fn spec_max_body_size(&self) -> u64 {
        self.max_body_size
    }

    /// The settings of a server without ICE servers, with a backlog of
    /// 128 pending handshakes and offers of up to 8192 bytes.
    pub fn new() -> (options: Self)
        ensures
            options.spec_ice_servers().len() == 0,
            options.spec_backlog() == DEFAULT_BACKLOG,
            options.spec_max_body_size() == DEFAULT_MAX_BODY_SIZE,
    {
        ServeOptions {
            ice_servers: Vec::new(),
            backlog: DEFAULT_BACKLOG,
            max_body_size: DEFAULT_MAX_BODY_SIZE,
        }
    }

    /// Sets the ICE servers that the connections of the server are given.
    pub fn ice_servers(self, ice_servers: Vec<IceServer>) -> (options: Self)
        ensures
            options.spec_ice_servers() == ice_servers@,
            options.spec_backlog() == self.spec_backlog(),
            options.spec_max_body_size() == self.spec_max_body_size(),
    {
        ServeOptions { ice_servers, backlog: self.backlog, max_body_size: self.max_body_size }
    }

    /// Sets the number of pending handshakes that the server queues.
    pub fn backlog(self, backlog: usize) -> (options: Self)
        ensures
            options.spec_ice_servers() == self.spec_ice_servers(),
            options.spec_backlog() == backlog,
            options.spec_max_body_size() == self.spec_max_body_size(),
    {
        ServeOptions { ice_servers: self.ice_servers, backlog, max_body_size: self.max_body_size }
    }

    /// Sets the largest offer, in bytes, that the server takes.
    pub fn max_body_size(self, max_body_size: u64) -> (options: Self)
        ensures
            options.spec_ice_servers() == self.spec_ice_servers(),
            options.spec_backlog() == self.spec_backlog(),
            options.spec_max_body_size() == max_body_size,
    {
        ServeOptions { ice_servers: self.ice_servers, backlog: self.backlog, max_body_size }
    }

    /// A server with these settings and an empty accept queue. A backlog
    /// of nothing is left out: such a server could admit no handshake.
    pub fn serve<C>(self) -> (server: Server<C>)
        requires
            self.spec_backlog() > 0,
        ensures
            server@ == (MailboxView::<Connecting<C>> {
                items: Seq::empty(),
                closed: false,
                capacity: Some(self.spec_backlog() as nat),
            }),
            server.spec_ice_servers() == self.spec_ice_servers(),
            server.spec_max_body_size() == self.spec_max_body_size(),
    {
        Server {
            connecting: Mailbox::bounded(self.backlog),
            ice_servers: self.ice_servers,
            max_body_size: self.max_body_size,
        }
    }

    /// A server with these settings, or `None` where the backlog is
    /// nothing.
    pub fn try_serve<C>(self) -> (server: Option<Server<C>>)
        ensures
            server is Some <==> self.spec_backlog() > 0,
            server matches Some(s) ==> s@ == (MailboxView::<Connecting<C>> {
                items: Seq::empty(),
                closed: false,
                capacity: Some(self.spec_backlog() as nat),
            }) && s.spec_ice_servers() == self.spec_ice_servers() && s.spec_max_body_size()
                == self.spec_max_body_size(),
    {
        if self.backlog > 0 {
            Some(self.serve())
        } else {
            None
        }
    }
}

/// The accept queue of a server: the pending handshakes that were admitted
/// and not accepted yet, in the order in which their requests arrived.
pub struct Server<C> {
    connecting: Mailbox<Connecting<C>>,
    ice_servers: Vec<IceServer>,
    max_body_size: u64,
}

impl<C> View for Server<C> {
    type V = MailboxView<Connecting<C>>;

    closed spec fn view(&self) -> MailboxView<Connecting<C>> {
        self.connecting@
    }
}

impl<C> Server<C> {
    /// The ICE servers that the connections of the server are given.
    pub closed spec fn spec_ice_servers(&self) -> Seq<IceServer> {
        self.ice_servers@
    }

    /// The largest offer, in bytes, that the server takes.
    pub closed spec fn spec_max_body_size(&self) -> u64 {
        self.max_body_size
    }

    /// A server that queues up to `backlog` pending handshakes and is
    /// otherwise as `ServeOptions::new` has it. A backlog of nothing is
    /// left out.
    pub fn listen(backlog: usize) -> (server: Self)
        requires
            backlog > 0,
        ensures
            server@ == (MailboxView::<Connecting<C>> {
                items: Seq::empty(),
                closed: false,
                capacity: Some(backlog as nat),
            }),
            server.spec_ice_servers().len() == 0,
            server.spec_max_body_size() == DEFAULT_MAX_BODY_SIZE,
    {
        ServeOptions::new().backlog(backlog).serve()
    }

    /// The largest offer, in bytes, that the server takes.
    pub fn max_body_size(&self) -> (n: u64)
        ensures
            n == self.spec_max_body_size(),
    {
        self.max_body_size
    }

    /// The settings of the connection for a new request on a server that
    /// is bound to `addr` and `port`: the connection is bound to the same
    /// address and to that one port, shares it with the other connections,
    /// and is given the server's ICE servers.
    pub fn configuration(&self, addr: String, port: u16) -> (config: facade::Configuration)
        ensures
            config.ice_servers@.len() == self.spec_ice_servers().len(),
            forall|i: int|
                0 <= i < config.ice_servers@.len() ==> (#[trigger] config.ice_servers@[i])@
                    == self.spec_ice_servers()[i]@,
            config.ice_transport_policy == facade::IceTransportPolicy::All,
            config.sys.bind_address == Some(addr),
            config.sys.port_range_begin == port,
            config.sys.port_range_end == port,
            config.sys.enable_ice_udp_mux,
            config.sys.ice_servers@.len() == 0,
            config.sys.proxy_server is None,
            config.sys.certificate_type == libdatachannel::CertificateType::Default,
            config.sys.ice_transport_policy == libdatachannel::TransportPolicy::All,
            !config.sys.enable_ice_tcp,
            !config.sys.disable_auto_negotiation,
            !config.sys.force_media_transport,
            config.sys.mtu == 0,
            config.sys.max_message_size == 0,
    {
        let mut config = facade::Configuration::default();
        let mut servers: Vec<IceServer> = Vec::new();
        let mut i: usize = 0;
        while i < self.ice_servers.len()
            invariant
                i <= self.ice_servers@.len(),
                servers@.len() == i,
                forall|j: int| 0 <= j < i ==> (#[trigger] servers@[j])@ == self.ice_servers@[j]@,
            decreases self.ice_servers.len() - i,
        {
            servers.push(self.ice_servers[i].clone());
            i += 1;
        }
        config.ice_servers = servers;
        config.set_bind(addr, port, port);
        config.set_enable_ice_udp_mux(true);
        config
    }

    /// Puts a pending handshake into the accept queue if the queue is open
    /// and holds fewer than the backlog. Where it is full the handshake
    /// comes back with a listener: the request waits for room. Where it is
    /// closed the handshake comes back and the request is not admitted.
    pub fn enqueue(&mut self, pending: Connecting<C>) -> (step: SendStep<Connecting<C>>)
        ensures
            final(self)@ == old(self)@.after_send(pending),
            final(self).spec_ice_servers() == old(self).spec_ice_servers(),
            final(self).spec_max_body_size() == old(self).spec_max_body_size(),
            step is Sent <==> old(self)@.admits(),
            step is Closed <==> old(self)@.closed,
            step matches SendStep::Closed(p) ==> p == pending,
            step matches SendStep::Full(p, _) ==> p == pending,
    {
        self.connecting.send(pending)
    }

    /// The pending handshake that has waited longest; `None` once the
    /// server is closed and the queue empty; else what to wait for.
    pub fn accept(&mut self) -> (step: Step<Option<Connecting<C>>>)
        ensures
            final(self)@ == old(self)@.after_recv(),
            final(self).spec_ice_servers() == old(self).spec_ice_servers(),
            final(self).spec_max_body_size() == old(self).spec_max_body_size(),
            step is Pending <==> old(self)@.items.len() == 0 && !old(self)@.closed,
            old(self)@.items.len() > 0 ==> step.value() == Some(Some(old(self)@.items[0])),
            old(self)@.is_drained() ==> step.value() == Some(None::<Connecting<C>>),
    {
        self.connecting.recv()
    }

    /// Closes the accept queue: no request is admitted any more. What is
    /// queued can still be accepted.
    pub fn close(&mut self)
        ensures
            final(self)@ == old(self)@.after_close(),
            final(self).spec_ice_servers() == old(self).spec_ice_servers(),
            final(self).spec_max_body_size() == old(self).spec_max_body_size(),
    {
        let _ = self.connecting.close();
    }
}

/// An answering that is over stays over: a request is answered once.
pub proof fn lemma_responded_is_final(events: Seq<OfferEvent>, limit: u64)
    ensures
        offer_state_after(OfferState::Responded, events, limit) == OfferState::Responded,
    decreases events.len(),
{
    if events.len() > 0 {
        lemma_responded_is_final(events.drop_last(), limit);
    }
}

/// A pending handshake that is given up refuses its request: what
/// rejecting puts into the response slot is answered 403, with no header
/// and nothing of an answer.
pub proof fn lemma_rejection_is_forbidden(action: OfferAction, limit: u64)
    requires
        offer_acts(OfferState::AwaitingAnswer, OfferEvent::Answer(None), limit, action),
    ensures
        action matches OfferAction::Respond(response) && response.status == http::FORBIDDEN
            && response.headers@.len() == 0,
        offer_next_state(OfferState::AwaitingAnswer, OfferEvent::Answer(None), limit)
            == OfferState::Responded,
{
}

/// An offer whose body may exceed the limit is answered 413 at once, and
/// nothing is done for it afterwards: no connection is created for it and
/// no handshake queued, whatever happens later.
pub proof fn lemma_oversized_offer_is_refused(
    method: String,
    body_size: Option<u64>,
    limit: u64,
    action: OfferAction,
    later: Seq<OfferEvent>,
)
    requires
        method@ == "POST"@,
        too_large(body_size, limit),
        offer_acts(
            OfferState::Received,
            OfferEvent::Request { method, body_size },
            limit,
            action,
        ),
    ensures
        action matches OfferAction::Respond(response) && response.status
            == http::PAYLOAD_TOO_LARGE,
        offer_state_after(
            offer_next_state(
                OfferState::Received,
                OfferEvent::Request { method, body_size },
                limit,
            ),
            later,
            limit,
        ) == OfferState::Responded,
        forall|event: OfferEvent, next: OfferAction|
            offer_acts(OfferState::Responded, event, limit, next) ==> next is Ignore,
{
    lemma_responded_is_final(later, limit);
}

/// A connection is created only for a POST whose body is within the
/// limit.
pub proof fn lemma_connection_needs_a_small_post(
    state: OfferState,
    event: OfferEvent,
    limit: u64,
    action: OfferAction,
)
    requires
        offer_acts(state, event, limit, action),
        action is CreateConnection,
    ensures
        state is Received,
        event matches OfferEvent::Request { method, body_size } && method@ == "POST"@
            && !too_large(body_size, limit),
{
}

/// The state of a finishing after a run of events.
pub open spec fn finish_state_after(state: FinishState, events: Seq<FinishEvent>) -> FinishState
    decreases events.len(),
{
    if events.len() == 0 {
        state
    } else {
        finish_next_state(finish_state_after(state, events.drop_last()), events.last())
    }
}

/// Whether a finishing is over in a state.
pub open spec fn finish_is_over(state: FinishState) -> bool {
    state is Done || state is Failed
}

/// A finishing resolves the response slot exactly when it ends, and it
/// fills it with an answer exactly when it ends well: every failure is a
/// refusal.
pub proof fn lemma_slot_is_resolved_at_the_end(
    state: FinishState,
    event: FinishEvent,
    action: FinishAction,
)
    requires
        finish_acts(state, event, action),
    ensures
        action is Resolve <==> !finish_is_over(state) && finish_is_over(
            finish_next_state(state, event),
        ),
        action matches FinishAction::Resolve { slot, outcome } ==> (slot is Some <==> outcome
            is Ok) && (slot is Some <==> finish_next_state(state, event) is Done),
{
}

/// The response slot is written once: a finishing that is over stays
/// over, so of the steps of any run at most one ends it.
pub proof fn lemma_slot_is_single_write(events: Seq<FinishEvent>, i: int, j: int)
    requires
        0 <= i < j < events.len(),
        !finish_is_over(finish_state_after(FinishState::ReadingBody, events.take(i))),
        finish_is_over(finish_state_after(FinishState::ReadingBody, events.take(i + 1))),
    ensures
        finish_is_over(finish_state_after(FinishState::ReadingBody, events.take(j))),
        finish_state_after(FinishState::ReadingBody, events.take(j + 1)) == finish_state_after(
            FinishState::ReadingBody,
            events.take(j),
        ),
    decreases j - i,
{
    if j > i + 1 {
        lemma_slot_is_single_write(events, i, j - 1);
    }
    assert(events.take(j + 1).drop_last() =~= events.take(j));
    assert(events.take(j).drop_last() =~= events.take(j - 1));
}

} // verus!
