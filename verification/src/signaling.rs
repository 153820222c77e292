//! What the two sides of a handshake have from each other: the offer and
//! the answer cross the HTTP exchange unchanged.

use vstd::prelude::*;
use vstd::utf8::{encode_utf8, encode_utf8_decode_utf8, encode_utf8_valid_utf8};
use crate::client::{acts, ConnectAction, ConnectEvent, ConnectState};
use crate::facade::{Description, SdpType};
use crate::http::Header;
use crate::server::{
    finish_acts, offer_acts, FinishAction, FinishEvent, FinishState, OfferAction, OfferEvent,
    OfferState,
};

verus! {

/// The offer that the server applies is the offer that the client made:
/// the client posts the text of its local description as it is, the body
/// of the request is that text in UTF-8, and the server applies what the
/// body decodes to, as an offer.
pub proof fn lemma_offer_crosses_unchanged(
    offer: Description,
    url: Seq<char>,
    headers: Seq<Header>,
    post: ConnectAction,
    wire: Vec<u8>,
    applied: FinishAction,
)
    requires
        acts(
            ConnectState::ReadingOffer,
            ConnectEvent::LocalDescription(Ok(Some(offer))),
            url,
            headers,
            post,
        ),
        post matches ConnectAction::Post { body, .. } ==> wire@ == encode_utf8(body@),
        finish_acts(FinishState::ReadingBody, FinishEvent::Body(Ok(wire)), applied),
    ensures
        post matches ConnectAction::Post { url: u, body, .. } && u@ == url && body@ == offer.sdp@,
        applied matches FinishAction::SetRemoteDescription(d) && d.type_ == SdpType::Offer
            && d.sdp@ == offer.sdp@,
{
    encode_utf8_valid_utf8(offer.sdp@);
    encode_utf8_decode_utf8(offer.sdp@);
}

/// The answer that the client applies is the answer that the server made:
/// the server puts the text of its local description into the response
/// slot as it is, the response is 200 with that text as its body, the
/// client takes a 200 for a success, and applies what the body decodes
/// to, as an answer.
pub proof fn lemma_answer_crosses_unchanged(
    answer: Description,
    resolve: FinishAction,
    limit: u64,
    respond: OfferAction,
    wire: Vec<u8>,
    url: Seq<char>,
    headers: Seq<Header>,
    on_status: ConnectAction,
    applied: ConnectAction,
)
    requires
        finish_acts(
            FinishState::ReadingAnswer,
            FinishEvent::LocalDescription(Ok(Some(answer))),
            resolve,
        ),
        resolve matches FinishAction::Resolve { slot, .. } ==> offer_acts(
            OfferState::AwaitingAnswer,
            OfferEvent::Answer(slot),
            limit,
            respond,
        ),
        respond matches OfferAction::Respond(response) ==> wire@ == encode_utf8(response.body@)
            && acts(
            ConnectState::Posting,
            ConnectEvent::ResponseStatus(Ok(response.status)),
            url,
            headers,
            on_status,
        ),
        acts(ConnectState::ReadingAnswer, ConnectEvent::ResponseBody(Ok(wire)), url, headers, applied),
    ensures
        resolve matches FinishAction::Resolve { slot: Some(text), outcome: Ok(_) } && text@
            == answer.sdp@,
        respond matches OfferAction::Respond(response) && response.status == 200
            && response.body@ == answer.sdp@,
        on_status is ReadResponseBody,
        applied matches ConnectAction::SetRemoteDescription(d) && d.type_ == SdpType::Answer
            && d.sdp@ == answer.sdp@,
{
    encode_utf8_valid_utf8(answer.sdp@);
    encode_utf8_decode_utf8(answer.sdp@);
}

} // verus!
