//! The outbound handshake: make an offer, wait until every candidate is in
//! it, post it, and apply the answer that comes back.

use vstd::prelude::*;
use vstd::utf8::{decode_utf8, valid_utf8};
use crate::facade;
use crate::facade::{Description, SdpType};
use crate::http::{is_success, spec_is_success, Header};
use crate::text::string_from_utf8;

verus! {

/// Why the HTTP exchange failed.
#[derive(Debug)]
pub enum RequestError {
    /// The server answered with a status that is no success.
    Status(u16),
    /// The request could not be sent or the response not be read.
    Transport(String),
}

/// Why the handshake failed.
#[derive(Debug)]
pub enum Error {
    /// The transport refused a description.
    Dachannel(facade::Error),
    /// The HTTP exchange failed.
    Reqwest(RequestError),
    /// The answer was not UTF-8 text.
    MalformedBody,
}

/// Where an outbound handshake stands.
#[derive(Clone, Copy, Debug, PartialEq, Eq, Structural)]
pub enum ConnectState {
    /// Nothing has been asked of the transport yet.
    Start,
    /// The transport is making the local offer.
    SettingLocalDescription,
    /// The offer exists; candidates are still being gathered.
    Gathering,
    /// Every candidate is in; the offer is being read.
    ReadingOffer,
    /// The offer has been posted; the response has not come.
    Posting,
    /// The response promises an answer; its body is being read.
    ReadingAnswer,
    /// The transport is applying the answer.
    SettingRemoteDescription,
    /// The handshake succeeded.
    Done,
    /// The handshake failed.
    Failed,
}

/// What happened since the last step.
pub enum ConnectEvent {
    /// The caller asks for the handshake to begin.
    Begin,
    /// The transport has set the local description, or failed to.
    LocalDescriptionSet(Result<(), facade::Error>),
    /// Every candidate has been gathered.
    IceCandidatesGathered,
    /// The local description as it was read from the transport.
    LocalDescription(Result<Option<Description>, facade::Error>),
    /// The status of the response, or why there is none.
    ResponseStatus(Result<u16, String>),
    /// The body of the response, or why it could not be read.
    ResponseBody(Result<Vec<u8>, String>),
    /// The transport has applied the answer, or failed to.
    RemoteDescriptionSet(Result<(), facade::Error>),
}

/// What to do next.
pub enum ConnectAction {
    /// Ask the transport to make and set a local description of this type.
    SetLocalDescription(SdpType),
    /// Wait until every candidate has been gathered.
    AwaitIceCandidatesGathered,
    /// Read the local description from the transport.
    ReadLocalDescription,
    /// Post `body` to `url` with `headers`.
    Post { url: String, headers: Vec<Header>, body: String },
    /// Read the body of the response.
    ReadResponseBody,
    /// Ask the transport to apply this description of the peer.
    SetRemoteDescription(Description),
    /// The handshake is over, with this outcome.
    Finish(Result<(), Error>),
    /// The event was not the one this state waits for: keep waiting.
    Ignore,
}

/// Whether an event is the one that a state waits for. A reading of the
/// local description that found none is not awaited: the offer is still to
/// be read.
pub open spec fn awaited(state: ConnectState, event: ConnectEvent) -> bool {
    match state {
        ConnectState::Start => event is Begin,
        ConnectState::SettingLocalDescription => event is LocalDescriptionSet,
        ConnectState::Gathering => event is IceCandidatesGathered,
        ConnectState::ReadingOffer => event matches ConnectEvent::LocalDescription(r) && !(r
            matches Ok(None)),
        ConnectState::Posting => event is ResponseStatus,
        ConnectState::ReadingAnswer => event is ResponseBody,
        ConnectState::SettingRemoteDescription => event is RemoteDescriptionSet,
        ConnectState::Done => false,
        ConnectState::Failed => false,
    }
}

/// Whether an awaited event brings good news, so that the handshake goes
/// on: the transport did what it was asked, there is an offer to post, the
/// status is a success, the body is UTF-8.
pub open spec fn succeeds(event: ConnectEvent) -> bool {
    match event {
        ConnectEvent::Begin => true,
        ConnectEvent::LocalDescriptionSet(r) => r is Ok,
        ConnectEvent::IceCandidatesGathered => true,
        ConnectEvent::LocalDescription(r) => r is Ok,
        ConnectEvent::ResponseStatus(r) => r matches Ok(status) && spec_is_success(status),
        ConnectEvent::ResponseBody(r) => r matches Ok(body) && valid_utf8(body@),
        ConnectEvent::RemoteDescriptionSet(r) => r is Ok,
    }
}

/// The state that follows a state in a handshake that goes well.
pub open spec fn successor(state: ConnectState) -> ConnectState {
    match state {
        ConnectState::Start => ConnectState::SettingLocalDescription,
        ConnectState::SettingLocalDescription => ConnectState::Gathering,
        ConnectState::Gathering => ConnectState::ReadingOffer,
        ConnectState::ReadingOffer => ConnectState::Posting,
        ConnectState::Posting => ConnectState::ReadingAnswer,
        ConnectState::ReadingAnswer => ConnectState::SettingRemoteDescription,
        ConnectState::SettingRemoteDescription => ConnectState::Done,
        ConnectState::Done => ConnectState::Done,
        ConnectState::Failed => ConnectState::Failed,
    }
}

/// The state after an event: an event that is not awaited changes nothing,
/// an awaited one that succeeds leads to the next state, and an awaited
/// one that fails ends the handshake at once, without another try.
pub open spec fn next_state(state: ConnectState, event: ConnectEvent) -> ConnectState {
    if !awaited(state, event) {
        state
    } else if succeeds(event) {
        successor(state)
    } else {
        ConnectState::Failed
    }
}

/// The state after a run of events.
pub open spec fn state_after(state: ConnectState, events: Seq<ConnectEvent>) -> ConnectState
    decreases events.len(),
{
    if events.len() == 0 {
        state
    } else {
        next_state(state_after(state, events.drop_last()), events.last())
    }
}

/// Whether `action` is what a handshake to `url` with `headers` does on an
/// event in a state.
pub open spec fn acts(
    state: ConnectState,
    event: ConnectEvent,
    url: Seq<char>,
    headers: Seq<Header>,
    action: ConnectAction,
) -> bool {
    if !awaited(state, event) {
        action is Ignore
    } else {
        match event {
            ConnectEvent::Begin => action matches ConnectAction::SetLocalDescription(
                SdpType::Offer,
            ),
            ConnectEvent::LocalDescriptionSet(Ok(_)) => action is AwaitIceCandidatesGathered,
            ConnectEvent::LocalDescriptionSet(Err(e)) => action matches ConnectAction::Finish(
                Err(Error::Dachannel(f)),
            ) && f == e,
            ConnectEvent::IceCandidatesGathered => action is ReadLocalDescription,
            ConnectEvent::LocalDescription(Ok(Some(offer))) => action matches ConnectAction::Post {
                url: u,
                headers: h,
                body,
            } && u@ == url && h@ == headers && body == offer.sdp,
            ConnectEvent::LocalDescription(Ok(None)) => action is Ignore,
            ConnectEvent::LocalDescription(Err(e)) => action matches ConnectAction::Finish(
                Err(Error::Dachannel(f)),
            ) && f == e,
            ConnectEvent::ResponseStatus(Ok(status)) => if spec_is_success(status) {
                action is ReadResponseBody
            } else {
                action matches ConnectAction::Finish(
                    Err(Error::Reqwest(RequestError::Status(s))),
                ) && s == status
            },
            ConnectEvent::ResponseStatus(Err(text)) => action matches ConnectAction::Finish(
                Err(Error::Reqwest(RequestError::Transport(t))),
            ) && t == text,
            ConnectEvent::ResponseBody(Ok(body)) => if valid_utf8(body@) {
                action matches ConnectAction::SetRemoteDescription(answer) && answer.type_
                    == SdpType::Answer && answer.sdp@ == decode_utf8(body@)
            } else {
                action matches ConnectAction::Finish(Err(Error::MalformedBody))
            },
            ConnectEvent::ResponseBody(Err(text)) => action matches ConnectAction::Finish(
                Err(Error::Reqwest(RequestError::Transport(t))),
            ) && t == text,
            ConnectEvent::RemoteDescriptionSet(Ok(_)) => action matches ConnectAction::Finish(
                Ok(_),
            ),
            ConnectEvent::RemoteDescriptionSet(Err(e)) => action matches ConnectAction::Finish(
                Err(Error::Dachannel(f)),
            ) && f == e,
        }
    }
}

/// One outbound handshake in progress.
pub struct Connect {
    state: ConnectState,
    url: String,
    headers: Vec<Header>,
}

impl Connect {
    /// Where the handshake stands.
    pub closed spec fn spec_state(&self) -> ConnectState {
        self.state
    }

    /// The URL that the offer is posted to.
    pub closed spec fn url(&self) -> Seq<char> {
        self.url@
    }

    /// The headers that go with the offer.
    pub closed spec fn headers(&self) -> Seq<Header> {
        self.headers@
    }

    /// Where the handshake stands.
    pub fn state(&self) -> (s: ConnectState)
        ensures
            s == self.spec_state(),
    {
        self.state
    }

    /// Whether the handshake is over, one way or the other.
    pub fn is_finished(&self) -> (r: bool)
        ensures
            r == (self.spec_state() is Done || self.spec_state() is Failed),
    {
        match self.state {
            ConnectState::Done => true,
            ConnectState::Failed => true,
            _ => false,
        }
    }

    /// Takes the handshake one step on: given what happened, says what to
    /// do next. A failure ends the handshake at once; nothing is tried
    /// again. The offer is posted exactly as the transport gave it, and the
    /// answer is applied exactly as the response's body decodes.
    pub fn step(&mut self, event: ConnectEvent) -> (action: ConnectAction)
        ensures
            final(self).spec_state() == next_state(old(self).spec_state(), event),
            final(self).url() == old(self).url(),
            final(self).headers() == old(self).headers(),
            acts(old(self).spec_state(), event, old(self).url(), old(self).headers(), action),
    {
        match (self.state, event) {
            (ConnectState::Start, ConnectEvent::Begin) => {
                self.state = ConnectState::SettingLocalDescription;
                ConnectAction::SetLocalDescription(SdpType::Offer)
            },
            (ConnectState::SettingLocalDescription, ConnectEvent::LocalDescriptionSet(r)) => {
                match r {
                    Ok(_) => {
                        self.state = ConnectState::Gathering;
                        ConnectAction::AwaitIceCandidatesGathered
                    },
                    Err(e) => self.fail(Error::Dachannel(e)),
                }
            },
            (ConnectState::Gathering, ConnectEvent::IceCandidatesGathered) => {
                self.state = ConnectState::ReadingOffer;
                ConnectAction::ReadLocalDescription
            },
            (ConnectState::ReadingOffer, ConnectEvent::LocalDescription(r)) => {
                match r {
                    Ok(Some(offer)) => {
                        self.state = ConnectState::Posting;
                        ConnectAction::Post {
                            url: self.url.clone(),
                            headers: clone_headers(&self.headers),
                            body: offer.sdp,
                        }
                    },
                    Ok(None) => ConnectAction::Ignore,
                    Err(e) => self.fail(Error::Dachannel(e)),
                }
            },
            (ConnectState::Posting, ConnectEvent::ResponseStatus(r)) => {
                match r {
                    Ok(status) => {
                        if is_success(status) {
                            self.state = ConnectState::ReadingAnswer;
                            ConnectAction::ReadResponseBody
                        } else {
                            self.fail(Error::Reqwest(RequestError::Status(status)))
                        }
                    },
                    Err(text) => self.fail(Error::Reqwest(RequestError::Transport(text))),
                }
            },
            (ConnectState::ReadingAnswer, ConnectEvent::ResponseBody(r)) => {
                match r {
                    Ok(body) => match string_from_utf8(body) {
                        Some(sdp) => {
                            self.state = ConnectState::SettingRemoteDescription;
                            ConnectAction::SetRemoteDescription(
                                Description { type_: SdpType::Answer, sdp },
                            )
                        },
                        None => self.fail(Error::MalformedBody),
                    },
                    Err(text) => self.fail(Error::Reqwest(RequestError::Transport(text))),
                }
            },
            (ConnectState::SettingRemoteDescription, ConnectEvent::RemoteDescriptionSet(r)) => {
                match r {
                    Ok(_) => {
                        self.state = ConnectState::Done;
                        ConnectAction::Finish(Ok(()))
                    },
                    Err(e) => self.fail(Error::Dachannel(e)),
                }
            },
            _ => ConnectAction::Ignore,
        }
    }

    fn fail(&mut self, error: Error) -> (action: ConnectAction)
        ensures
            final(self).state == ConnectState::Failed,
            final(self).url == old(self).url,
            final(self).headers == old(self).headers,
            action == ConnectAction::Finish(Err(error)),
    {
        self.state = ConnectState::Failed;
        ConnectAction::Finish(Err(error))
    }
}

/// A copy of a list of headers.
pub fn clone_headers(headers: &Vec<Header>) -> (copy: Vec<Header>)
    ensures
        copy@ == headers@,
{
    let mut copy: Vec<Header> = Vec::new();
    let mut i: usize = 0;
    while i < headers.len()
        invariant
            i <= headers@.len(),
            copy@ == headers@.take(i as int),
        decreases headers.len() - i,
    {
        copy.push(headers[i].clone());
        assert(headers@.take(i + 1) =~= headers@.take(i as int).push(headers@[i as int]));
        i += 1;
    }
    assert(headers@.take(i as int) =~= headers@);
    copy
}

/// Begins a handshake with the server at `url`. With an authorization, it
/// goes along as the `authorization` header of the request.
pub fn connect(url: &str, authorization: Option<String>) -> (handshake: Connect)
    ensures
        handshake.spec_state() == ConnectState::Start,
        handshake.url() == url@,
        match authorization {
            Some(value) => handshake.headers().len() == 1 && handshake.headers()[0].name@
                == "authorization"@ && handshake.headers()[0].value == value,
            None => handshake.headers().len() == 0,
        },
{
    let mut headers: Vec<Header> = Vec::new();
    match authorization {
        Some(value) => {
            headers.push(Header { name: "authorization".to_owned(), value });
        },
        None => {},
    }
    Connect { state: ConnectState::Start, url: url.to_owned(), headers }
}

/// The settings of an outbound handshake.
pub struct ConnectOptions {
    headers: Vec<Header>,
}

impl ConnectOptions {
    /// The headers that go with the offer, in the order in which they were
    /// added.
    pub closed spec fn headers(&self) -> Seq<Header> {
        self.headers@
    }

    /// Settings without any header.
    pub fn new() -> (options: Self)
        ensures
            options.headers().len() == 0,
    {
        ConnectOptions { headers: Vec::new() }
    }

    /// Adds a header. A header of a name that is there already is added
    /// beside it.
    pub fn header(self, key: String, value: String) -> (options: Self)
        ensures
            options.headers() == self.headers().push(Header { name: key, value }),
    {
        let mut headers = self.headers;
        headers.push(Header { name: key, value });
        ConnectOptions { headers }
    }

    /// Begins a handshake with the server at `url`, with these headers.
    pub fn connect(self, url: &str) -> (handshake: Connect)
        ensures
            handshake.spec_state() == ConnectState::Start,
            handshake.url() == url@,
            handshake.headers() == self.headers(),
    {
        Connect { state: ConnectState::Start, url: url.to_owned(), headers: self.headers }
    }
}

/// A handshake that is over stays over: no event moves it.
pub proof fn lemma_finished_is_final(state: ConnectState, events: Seq<ConnectEvent>)
    requires
        state is Done || state is Failed,
    ensures
        state_after(state, events) == state,
    decreases events.len(),
{
    if events.len() > 0 {
        lemma_finished_is_final(state, events.drop_last());
    }
}

/// The offer is posted only once every candidate is in it: a handshake
/// that has got as far as posting has seen the local description set and,
/// after that, the gathering of candidates completed.
pub proof fn lemma_offer_is_posted_after_gathering(events: Seq<ConnectEvent>)
    requires
        state_after(ConnectState::Start, events) is Posting,
    ensures
        exists|i: int, j: int|
            0 <= i < j < events.len() && (#[trigger] events[i]
                matches ConnectEvent::LocalDescriptionSet(Ok(_))) && (
            #[trigger] events[j] is IceCandidatesGathered),
{
    lemma_progress_has_a_cause(events);
}

/// The answer is applied only after a response with a success status and a
/// UTF-8 body: a handshake that asks the transport to apply an answer has
/// seen both.
pub proof fn lemma_answer_follows_a_success(events: Seq<ConnectEvent>)
    requires
        state_after(ConnectState::Start, events) is SettingRemoteDescription || state_after(
            ConnectState::Start,
            events,
        ) is Done,
    ensures
        exists|i: int, j: int|
            0 <= i < j < events.len() && (#[trigger] events[i] matches ConnectEvent::ResponseStatus(
                Ok(status),
            ) && spec_is_success(status)) && (#[trigger] events[j]
                matches ConnectEvent::ResponseBody(Ok(body)) && valid_utf8(body@)),
{
    lemma_progress_has_a_cause(events);
}

spec fn ranks(state: ConnectState) -> int {
    match state {
        ConnectState::Start => 0,
        ConnectState::SettingLocalDescription => 1,
        ConnectState::Gathering => 2,
        ConnectState::ReadingOffer => 3,
        ConnectState::Posting => 4,
        ConnectState::ReadingAnswer => 5,
        ConnectState::SettingRemoteDescription => 6,
        ConnectState::Done => 7,
        ConnectState::Failed => -1,
    }
}

spec fn set_then_gathered(events: Seq<ConnectEvent>) -> bool {
    exists|i: int, j: int|
        0 <= i < j < events.len() && (#[trigger] events[i] matches ConnectEvent::LocalDescriptionSet(
            Ok(_),
        )) && (#[trigger] events[j] is IceCandidatesGathered)
}

spec fn status_then_body(events: Seq<ConnectEvent>) -> bool {
    exists|i: int, j: int|
        0 <= i < j < events.len() && (#[trigger] events[i] matches ConnectEvent::ResponseStatus(
            Ok(status),
        ) && spec_is_success(status)) && (#[trigger] events[j] matches ConnectEvent::ResponseBody(
            Ok(body),
        ) && valid_utf8(body@))
}

spec fn has_set(events: Seq<ConnectEvent>) -> bool {
    exists|i: int|
        0 <= i < events.len() && (#[trigger] events[i] matches ConnectEvent::LocalDescriptionSet(
            Ok(_),
        ))
}

spec fn has_status(events: Seq<ConnectEvent>) -> bool {
    exists|i: int|
        0 <= i < events.len() && (#[trigger] events[i] matches ConnectEvent::ResponseStatus(
            Ok(status),
        ) && spec_is_success(status))
}

proof fn lemma_progress_has_a_cause(events: Seq<ConnectEvent>)
    ensures
        ranks(state_after(ConnectState::Start, events)) >= 2 ==> has_set(events),
        ranks(state_after(ConnectState::Start, events)) >= 3 ==> set_then_gathered(events),
        ranks(state_after(ConnectState::Start, events)) >= 5 ==> has_status(events),
        ranks(state_after(ConnectState::Start, events)) >= 6 ==> status_then_body(events),
    decreases events.len(),
{
    if events.len() > 0 {
        let init = events.drop_last();
        let last = events.len() - 1;
        lemma_progress_has_a_cause(init);
        let before = state_after(ConnectState::Start, init);
        let after = state_after(ConnectState::Start, events);
        assert(forall|i: int| 0 <= i < init.len() ==> init[i] == events[i]);
        if has_set(init) {
            let i = choose|i: int|
                0 <= i < init.len() && (#[trigger] init[i] matches ConnectEvent::LocalDescriptionSet(
                    Ok(_),
                ));
            assert(events[i] matches ConnectEvent::LocalDescriptionSet(Ok(_)));
            if ranks(after) >= 3 && !set_then_gathered(init) {
                assert(events[last] is IceCandidatesGathered);
                assert(0 <= i < last < events.len());
            }
        }
        if set_then_gathered(init) {
            let (i, j) = choose|i: int, j: int|
                0 <= i < j < init.len() && (#[trigger] init[i]
                    matches ConnectEvent::LocalDescriptionSet(Ok(_))) && (
                #[trigger] init[j] is IceCandidatesGathered);
            assert(events[i] matches ConnectEvent::LocalDescriptionSet(Ok(_)));
            assert(events[j] is IceCandidatesGathered);
        }
        if has_status(init) {
            let i = choose|i: int|
                0 <= i < init.len() && (#[trigger] init[i] matches ConnectEvent::ResponseStatus(
                    Ok(status),
                ) && spec_is_success(status));
            assert(events[i] matches ConnectEvent::ResponseStatus(Ok(status)) && spec_is_success(
                status,
            ));
            if ranks(after) >= 6 && !status_then_body(init) {
                assert(events[last] matches ConnectEvent::ResponseBody(Ok(body)) && valid_utf8(
                    body@,
                ));
                assert(0 <= i < last < events.len());
            }
        }
        if status_then_body(init) {
            let (i, j) = choose|i: int, j: int|
                0 <= i < j < init.len() && (#[trigger] init[i] matches ConnectEvent::ResponseStatus(
                    Ok(status),
                ) && spec_is_success(status)) && (#[trigger] init[j]
                    matches ConnectEvent::ResponseBody(Ok(body)) && valid_utf8(body@));
            assert(events[i] matches ConnectEvent::ResponseStatus(Ok(status)) && spec_is_success(
                status,
            ));
            assert(events[j] matches ConnectEvent::ResponseBody(Ok(body)) && valid_utf8(body@));
        }
        if ranks(after) >= 2 && !has_set(init) {
            assert(events[last] matches ConnectEvent::LocalDescriptionSet(Ok(_)));
        }
        if ranks(after) >= 5 && !has_status(init) {
            assert(events[last] matches ConnectEvent::ResponseStatus(Ok(status))
                && spec_is_success(status));
        }
    }
}

} // verus!
