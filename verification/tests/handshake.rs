use dachannel::client;
use dachannel::client::{ConnectAction, ConnectEvent, ConnectOptions, ConnectState, RequestError};
use dachannel::facade::{Description, Error, SdpType};
use dachannel::http::{visible_text, RequestHeader};
use dachannel::server;
use dachannel::server::{
    offer, Connecting, FinishAction, FinishEvent, FinishState, OfferAction, OfferEvent,
    OfferState, ServeOptions, Server,
};
use dachannel::mailbox::SendStep;
use dachannel::sync_util::Step;

fn description(type_: SdpType, sdp: &str) -> Description {
    Description { type_, sdp: sdp.to_string() }
}

fn at_posting(handshake: &mut client::Connect) {
    assert!(matches!(
        handshake.step(ConnectEvent::Begin),
        ConnectAction::SetLocalDescription(SdpType::Offer)
    ));
    assert!(matches!(
        handshake.step(ConnectEvent::LocalDescriptionSet(Ok(()))),
        ConnectAction::AwaitIceCandidatesGathered
    ));
    assert!(matches!(
        handshake.step(ConnectEvent::IceCandidatesGathered),
        ConnectAction::ReadLocalDescription
    ));
    let offer = description(SdpType::Offer, "v=0 offer");
    match handshake.step(ConnectEvent::LocalDescription(Ok(Some(offer)))) {
        ConnectAction::Post { body, .. } => assert_eq!(body, "v=0 offer"),
        _ => panic!("the offer is posted"),
    }
    assert_eq!(handshake.state(), ConnectState::Posting);
}

#[test]
fn a_handshake_posts_the_offer_and_applies_the_answer() {
    let mut handshake = client::connect("http://127.0.0.1:8080", Some("Bearer t".to_string()));
    assert_eq!(handshake.state(), ConnectState::Start);
    handshake.step(ConnectEvent::Begin);
    handshake.step(ConnectEvent::LocalDescriptionSet(Ok(())));
    assert_eq!(handshake.state(), ConnectState::Gathering);
    // The offer is not read before every candidate is in.
    let early = description(SdpType::Offer, "early");
    assert!(matches!(
        handshake.step(ConnectEvent::LocalDescription(Ok(Some(early)))),
        ConnectAction::Ignore
    ));
    handshake.step(ConnectEvent::IceCandidatesGathered);
    let offer = description(SdpType::Offer, "v=0 offer");
    match handshake.step(ConnectEvent::LocalDescription(Ok(Some(offer)))) {
        ConnectAction::Post { url, headers, body } => {
            assert_eq!(url, "http://127.0.0.1:8080");
            assert_eq!(headers.len(), 1);
            assert_eq!(headers[0].name, "authorization");
            assert_eq!(headers[0].value, "Bearer t");
            assert_eq!(body, "v=0 offer");
        }
        _ => panic!("the offer is posted"),
    }
    assert!(matches!(
        handshake.step(ConnectEvent::ResponseStatus(Ok(200))),
        ConnectAction::ReadResponseBody
    ));
    match handshake.step(ConnectEvent::ResponseBody(Ok("v=0 answer é".as_bytes().to_vec()))) {
        ConnectAction::SetRemoteDescription(answer) => {
            assert_eq!(answer.type_, SdpType::Answer);
            assert_eq!(answer.sdp, "v=0 answer é");
        }
        _ => panic!("the answer is applied"),
    }
    assert!(!handshake.is_finished());
    assert!(matches!(
        handshake.step(ConnectEvent::RemoteDescriptionSet(Ok(()))),
        ConnectAction::Finish(Ok(()))
    ));
    assert_eq!(handshake.state(), ConnectState::Done);
    assert!(handshake.is_finished());
    assert!(matches!(handshake.step(ConnectEvent::Begin), ConnectAction::Ignore));
    assert_eq!(handshake.state(), ConnectState::Done);
}

#[test]
fn a_status_that_is_no_success_fails_at_once() {
    for status in [100u16, 199, 300, 301, 403, 404, 413, 500, 503, 999] {
        let mut handshake = client::connect("http://h", None);
        at_posting(&mut handshake);
        match handshake.step(ConnectEvent::ResponseStatus(Ok(status))) {
            ConnectAction::Finish(Err(client::Error::Reqwest(RequestError::Status(s)))) => {
                assert_eq!(s, status)
            }
            _ => panic!("status {} fails the handshake", status),
        }
        assert_eq!(handshake.state(), ConnectState::Failed);
        assert!(matches!(
            handshake.step(ConnectEvent::ResponseBody(Ok(vec![]))),
            ConnectAction::Ignore
        ));
    }
    for status in [200u16, 201, 204, 299] {
        let mut handshake = client::connect("http://h", None);
        at_posting(&mut handshake);
        assert!(matches!(
            handshake.step(ConnectEvent::ResponseStatus(Ok(status))),
            ConnectAction::ReadResponseBody
        ));
    }
}

#[test]
fn a_body_that_is_not_utf8_is_malformed() {
    let mut handshake = client::connect("http://h", None);
    at_posting(&mut handshake);
    handshake.step(ConnectEvent::ResponseStatus(Ok(200)));
    assert!(matches!(
        handshake.step(ConnectEvent::ResponseBody(Ok(vec![b'v', 0xff, 0xfe]))),
        ConnectAction::Finish(Err(client::Error::MalformedBody))
    ));
    assert_eq!(handshake.state(), ConnectState::Failed);
}

#[test]
fn only_well_formed_utf8_is_text() {
    let malformed: [&[u8]; 7] = [
        &[0x80],
        &[0xc0, 0x80],
        &[0xe0, 0x80, 0x80],
        &[0xed, 0xa0, 0x80],
        &[0xf4, 0x90, 0x80, 0x80],
        &[0xf5, 0x80, 0x80, 0x80],
        &[0xe2, 0x82],
    ];
    for body in malformed {
        let mut handshake = client::connect("http://h", None);
        at_posting(&mut handshake);
        handshake.step(ConnectEvent::ResponseStatus(Ok(200)));
        assert!(matches!(
            handshake.step(ConnectEvent::ResponseBody(Ok(body.to_vec()))),
            ConnectAction::Finish(Err(client::Error::MalformedBody))
        ));
        let mut finishing = Connecting::new(vec![], "a".to_string(), 0u8).finish();
        assert!(matches!(
            finishing.step(FinishEvent::Body(Ok(body.to_vec()))),
            FinishAction::Resolve { slot: None, outcome: Err(server::Error::MalformedBody) }
        ));
    }
    let well_formed: [&[u8]; 5] = [
        &[],
        &[0x00],
        &[0xc2, 0x80],
        &[0xed, 0x9f, 0xbf],
        &[0xf4, 0x8f, 0xbf, 0xbf],
    ];
    for body in well_formed {
        let mut handshake = client::connect("http://h", None);
        at_posting(&mut handshake);
        handshake.step(ConnectEvent::ResponseStatus(Ok(200)));
        match handshake.step(ConnectEvent::ResponseBody(Ok(body.to_vec()))) {
            ConnectAction::SetRemoteDescription(answer) => {
                assert_eq!(answer.sdp.as_bytes(), body)
            }
            _ => panic!("well-formed UTF-8 is applied"),
        }
    }
}

#[test]
fn errors_of_the_transport_and_of_the_request_end_the_handshake() {
    let mut handshake = client::connect("http://h", None);
    handshake.step(ConnectEvent::Begin);
    match handshake.step(ConnectEvent::LocalDescriptionSet(Err(Error::new("bad".to_string())))) {
        ConnectAction::Finish(Err(client::Error::Dachannel(e))) => {
            assert_eq!(e.message().as_str(), "bad")
        }
        _ => panic!("the transport's error ends the handshake"),
    }
    assert!(handshake.is_finished());

    let mut handshake = client::connect("http://h", None);
    at_posting(&mut handshake);
    match handshake.step(ConnectEvent::ResponseStatus(Err("refused".to_string()))) {
        ConnectAction::Finish(Err(client::Error::Reqwest(RequestError::Transport(t)))) => {
            assert_eq!(t, "refused")
        }
        _ => panic!("a request that cannot be sent ends the handshake"),
    }

    let mut handshake = client::connect("http://h", None);
    at_posting(&mut handshake);
    handshake.step(ConnectEvent::ResponseStatus(Ok(200)));
    assert!(matches!(
        handshake.step(ConnectEvent::ResponseBody(Err("cut".to_string()))),
        ConnectAction::Finish(Err(client::Error::Reqwest(RequestError::Transport(_))))
    ));

    let mut handshake = client::connect("http://h", None);
    at_posting(&mut handshake);
    handshake.step(ConnectEvent::ResponseStatus(Ok(200)));
    handshake.step(ConnectEvent::ResponseBody(Ok(b"a".to_vec())));
    assert!(matches!(
        handshake.step(ConnectEvent::RemoteDescriptionSet(Err(Error::new("no".to_string())))),
        ConnectAction::Finish(Err(client::Error::Dachannel(_)))
    ));
}

#[test]
fn options_carry_their_headers() {
    let options = ConnectOptions::new()
        .header("x-a".to_string(), "1".to_string())
        .header("x-a".to_string(), "2".to_string());
    let mut handshake = options.connect("http://h/offer");
    handshake.step(ConnectEvent::Begin);
    handshake.step(ConnectEvent::LocalDescriptionSet(Ok(())));
    handshake.step(ConnectEvent::IceCandidatesGathered);
    match handshake.step(ConnectEvent::LocalDescription(Ok(Some(description(SdpType::Offer, "o"))))) {
        ConnectAction::Post { url, headers, body } => {
            assert_eq!(url, "http://h/offer");
            assert_eq!(body, "o");
            assert_eq!(headers.len(), 2);
            assert_eq!((headers[0].name.as_str(), headers[0].value.as_str()), ("x-a", "1"));
            assert_eq!((headers[1].name.as_str(), headers[1].value.as_str()), ("x-a", "2"));
        }
        _ => panic!("the offer is posted"),
    }
}

fn request(method: &str, body_size: Option<u64>) -> OfferEvent {
    OfferEvent::Request { method: method.to_string(), body_size }
}

fn respond(r: (OfferState, OfferAction)) -> dachannel::http::Response {
    assert_eq!(r.0, OfferState::Responded);
    match r.1 {
        OfferAction::Respond(response) => response,
        _ => panic!("the request is answered"),
    }
}

#[test]
fn an_oversized_offer_is_refused_before_anything_is_done() {
    let r = respond(offer(OfferState::Received, request("POST", Some(8193)), 8192));
    assert_eq!(r.status, 413);
    assert_eq!(r.body, "Payload Too Large");
    assert!(r.headers.is_empty());
    let r = respond(offer(OfferState::Received, request("POST", None), 8192));
    assert_eq!(r.status, 413);
    let r = respond(offer(OfferState::Received, request("POST", Some(u64::MAX)), u64::MAX - 1));
    assert_eq!(r.status, 413);
    let r = respond(offer(OfferState::Received, request("POST", Some(1)), 0));
    assert_eq!(r.status, 413);

    let (state, action) = offer(OfferState::Received, request("POST", Some(8192)), 8192);
    assert_eq!(state, OfferState::CreatingConnection);
    assert!(matches!(action, OfferAction::CreateConnection));
    let (state, action) = offer(OfferState::Received, request("POST", Some(0)), 0);
    assert_eq!(state, OfferState::CreatingConnection);
    assert!(matches!(action, OfferAction::CreateConnection));

    // Once refused, nothing moves the request on.
    let (state, action) = offer(OfferState::Responded, OfferEvent::ConnectionCreated(Ok(())), 8192);
    assert_eq!(state, OfferState::Responded);
    assert!(matches!(action, OfferAction::Ignore));
    let (state, action) = offer(OfferState::Responded, OfferEvent::Admitted, 8192);
    assert_eq!(state, OfferState::Responded);
    assert!(matches!(action, OfferAction::Ignore));
}

#[test]
fn only_a_post_is_taken() {
    for method in ["GET", "PUT", "post", "OPTIONS", ""] {
        let r = respond(offer(OfferState::Received, request(method, Some(10)), 8192));
        assert_eq!(r.status, 405);
        assert_eq!(r.body, "Method Not Allowed");
    }
    // The method is looked at before the size.
    let r = respond(offer(OfferState::Received, request("GET", Some(100_000)), 8192));
    assert_eq!(r.status, 405);
}

#[test]
fn each_failure_has_its_status() {
    let failed = OfferEvent::ConnectionCreated(Err(Error::new("no".to_string())));
    let r = respond(offer(OfferState::CreatingConnection, failed, 8192));
    assert_eq!(r.status, 500);
    assert_eq!(r.body, "Internal Server Error");

    let (state, action) =
        offer(OfferState::CreatingConnection, OfferEvent::ConnectionCreated(Ok(())), 8192);
    assert_eq!(state, OfferState::Queued);
    assert!(matches!(action, OfferAction::Enqueue));

    let r = respond(offer(OfferState::Queued, OfferEvent::NotAdmitted, 8192));
    assert_eq!(r.status, 503);
    assert_eq!(r.body, "Service Unavailable");

    let (state, action) = offer(OfferState::Queued, OfferEvent::Admitted, 8192);
    assert_eq!(state, OfferState::AwaitingAnswer);
    assert!(matches!(action, OfferAction::AwaitAnswer));

    // An answer cannot come before the handshake is admitted.
    let (state, action) = offer(OfferState::Queued, OfferEvent::Answer(None), 8192);
    assert_eq!(state, OfferState::Queued);
    assert!(matches!(action, OfferAction::Ignore));
}

#[test]
fn a_rejected_handshake_is_answered_forbidden() {
    let pending: Connecting<u32> = Connecting::new(vec![], "10.0.0.1:9".to_string(), 1);
    let (connection, slot) = pending.reject();
    assert_eq!(connection, 1);
    assert_eq!(slot, None);
    let r = respond(offer(OfferState::AwaitingAnswer, OfferEvent::Answer(slot), 8192));
    assert_eq!(r.status, 403);
    assert_eq!(r.body, "Forbidden");
    assert!(r.headers.is_empty());
}

#[test]
fn a_finished_handshake_is_answered_with_the_answer() {
    let headers = vec![
        RequestHeader::new("Authorization", b"Bearer abc"),
        RequestHeader::new("x-n", b"1"),
        RequestHeader::new("x-bin", &[0xff, 0x00]),
        RequestHeader::new("X-BIN", b"text"),
        RequestHeader::new("x-tab", b"a\tb ~"),
        RequestHeader::new("x-del", &[0x7f]),
    ];
    let pending: Connecting<&str> = Connecting::new(headers, "10.0.0.1:9".to_string(), "conn");
    assert_eq!(pending.remote_addr(), "10.0.0.1:9");
    assert_eq!(*pending.connection(), "conn");
    assert_eq!(pending.headers().len(), 6);
    assert_eq!(pending.header("authorization"), Some("Bearer abc".to_string()));
    assert_eq!(pending.header("AUTHORIZATION"), Some("Bearer abc".to_string()));
    assert_eq!(pending.header("X-N"), Some("1".to_string()));
    assert_eq!(pending.header("x-m"), None);
    assert_eq!(pending.header(""), None);
    // Only the first header of a name counts, also where it is no text.
    assert_eq!(pending.header("x-bin"), None);
    assert_eq!(pending.header("x-tab"), Some("a\tb ~".to_string()));
    assert_eq!(pending.header("x-del"), None);
    assert_eq!(visible_text(&vec![]), Some(String::new()));
    assert_eq!(visible_text(&vec![31]), None);
    assert_eq!(visible_text(&vec![32, 126]), Some(" ~".to_string()));

    let mut finishing = pending.finish();
    assert_eq!(finishing.state(), FinishState::ReadingBody);
    match finishing.step(FinishEvent::Body(Ok(b"v=0 offer".to_vec()))) {
        FinishAction::SetRemoteDescription(offer) => {
            assert_eq!(offer.type_, SdpType::Offer);
            assert_eq!(offer.sdp, "v=0 offer");
        }
        _ => panic!("the offer is applied"),
    }
    assert!(matches!(finishing.step(FinishEvent::IceCandidatesGathered), FinishAction::Ignore));
    assert!(matches!(
        finishing.step(FinishEvent::RemoteDescriptionSet(Ok(()))),
        FinishAction::SetLocalDescription(SdpType::Answer)
    ));
    assert!(matches!(
        finishing.step(FinishEvent::LocalDescriptionSet(Ok(()))),
        FinishAction::AwaitIceCandidatesGathered
    ));
    assert!(matches!(
        finishing.step(FinishEvent::IceCandidatesGathered),
        FinishAction::ReadLocalDescription
    ));
    let answer = description(SdpType::Answer, "v=0 answer");
    let slot = match finishing.step(FinishEvent::LocalDescription(Ok(Some(answer)))) {
        FinishAction::Resolve { slot, outcome: Ok(()) } => slot,
        _ => panic!("the slot is filled"),
    };
    assert_eq!(slot, Some("v=0 answer".to_string()));
    assert_eq!(finishing.state(), FinishState::Done);
    assert!(matches!(
        finishing.step(FinishEvent::LocalDescription(Ok(None))),
        FinishAction::Ignore
    ));
    assert_eq!(*finishing.connection(), "conn");
    assert_eq!(finishing.into_connection(), "conn");

    let r = respond(offer(OfferState::AwaitingAnswer, OfferEvent::Answer(slot), 8192));
    assert_eq!(r.status, 200);
    assert_eq!(r.body, "v=0 answer");
    assert_eq!(r.headers.len(), 2);
    assert_eq!(r.headers[0].name, "access-control-allow-origin");
    assert_eq!(r.headers[0].value, "*");
    assert_eq!(r.headers[1].name, "access-control-allow-methods");
    assert_eq!(r.headers[1].value, "POST");
}

#[test]
fn a_failed_finishing_refuses_the_request() {
    let mut finishing = Connecting::new(vec![], "a".to_string(), 0u8).finish();
    assert!(matches!(
        finishing.step(FinishEvent::Body(Ok(vec![0xc3, 0x28]))),
        FinishAction::Resolve { slot: None, outcome: Err(server::Error::MalformedBody) }
    ));
    assert_eq!(finishing.state(), FinishState::Failed);
    assert!(matches!(
        finishing.step(FinishEvent::Body(Ok(b"ok".to_vec()))),
        FinishAction::Ignore
    ));

    let mut finishing = Connecting::new(vec![], "a".to_string(), 0u8).finish();
    assert!(matches!(
        finishing.step(FinishEvent::Body(Err("cut".to_string()))),
        FinishAction::Resolve { slot: None, outcome: Err(server::Error::Axum(_)) }
    ));

    let mut finishing = Connecting::new(vec![], "a".to_string(), 0u8).finish();
    finishing.step(FinishEvent::Body(Ok(b"o".to_vec())));
    assert!(matches!(
        finishing.step(FinishEvent::RemoteDescriptionSet(Err(Error::new("bad".to_string())))),
        FinishAction::Resolve { slot: None, outcome: Err(server::Error::Dachannel(_)) }
    ));

    let mut finishing = Connecting::new(vec![], "a".to_string(), 0u8).finish();
    finishing.step(FinishEvent::Body(Ok(b"o".to_vec())));
    finishing.step(FinishEvent::RemoteDescriptionSet(Ok(())));
    finishing.step(FinishEvent::LocalDescriptionSet(Ok(())));
    finishing.step(FinishEvent::IceCandidatesGathered);
    match finishing.step(FinishEvent::LocalDescription(Ok(None))) {
        FinishAction::Resolve { slot, outcome: Ok(()) } => assert_eq!(slot, Some(String::new())),
        _ => panic!("an answer that is not there is an empty answer"),
    }
}

#[test]
fn a_finishing_that_is_given_up_refuses_the_request_once() {
    let mut finishing = Connecting::new(vec![], "a".to_string(), 7u8).finish();
    finishing.step(FinishEvent::Body(Ok(b"o".to_vec())));
    finishing.step(FinishEvent::RemoteDescriptionSet(Ok(())));
    assert_eq!(finishing.reject(), (7, Some(None)));

    let fresh = Connecting::new(vec![], "a".to_string(), 7u8).finish();
    assert_eq!(fresh.reject(), (7, Some(None)));

    let mut failed = Connecting::new(vec![], "a".to_string(), 7u8).finish();
    failed.step(FinishEvent::Body(Ok(vec![0xff])));
    assert_eq!(failed.reject(), (7, None));

    let mut done = Connecting::new(vec![], "a".to_string(), 7u8).finish();
    done.step(FinishEvent::Body(Ok(b"o".to_vec())));
    done.step(FinishEvent::RemoteDescriptionSet(Ok(())));
    done.step(FinishEvent::LocalDescriptionSet(Ok(())));
    done.step(FinishEvent::IceCandidatesGathered);
    done.step(FinishEvent::LocalDescription(Ok(Some(description(SdpType::Answer, "a")))));
    assert_eq!(done.reject(), (7, None));
}

#[test]
fn an_answer_that_cannot_be_delivered_fails_the_finishing() {
    assert!(matches!(server::settle(Ok(()), true), Ok(())));
    assert!(matches!(server::settle(Ok(()), false), Err(server::Error::Closed)));
    assert!(matches!(
        server::settle(Err(server::Error::MalformedBody), true),
        Err(server::Error::MalformedBody)
    ));
    assert!(matches!(
        server::settle(Err(server::Error::MalformedBody), false),
        Err(server::Error::MalformedBody)
    ));
}

#[test]
fn a_handshake_waits_for_an_offer_to_read() {
    let mut handshake = client::connect("http://h", None);
    handshake.step(ConnectEvent::Begin);
    handshake.step(ConnectEvent::LocalDescriptionSet(Ok(())));
    handshake.step(ConnectEvent::IceCandidatesGathered);
    assert!(matches!(
        handshake.step(ConnectEvent::LocalDescription(Ok(None))),
        ConnectAction::Ignore
    ));
    assert_eq!(handshake.state(), ConnectState::ReadingOffer);
    assert!(matches!(
        handshake.step(ConnectEvent::LocalDescription(Ok(Some(description(SdpType::Offer, "o"))))),
        ConnectAction::Post { .. }
    ));
}

#[test]
fn the_backlog_bounds_the_accept_queue() {
    let mut server: Server<u32> = Server::listen(2);
    assert_eq!(server.max_body_size(), 8192);
    assert!(matches!(server.accept(), Step::Pending(_)));
    for i in 0..2 {
        let pending = Connecting::new(vec![], "a".to_string(), i);
        assert!(matches!(server.enqueue(pending), SendStep::Sent));
    }
    let third = Connecting::new(vec![], "a".to_string(), 2);
    let third = match server.enqueue(third) {
        SendStep::Full(pending, _) => pending,
        _ => panic!("the third handshake waits"),
    };
    let third = match server.enqueue(third) {
        SendStep::Full(pending, _) => pending,
        _ => panic!("the third handshake still waits"),
    };
    match server.accept() {
        Step::Ready(Some(first)) => assert_eq!(*first.connection(), 0),
        _ => panic!("the first handshake is accepted first"),
    }
    assert!(matches!(server.enqueue(third), SendStep::Sent));
    let fourth = Connecting::new(vec![], "a".to_string(), 3);
    assert!(matches!(server.enqueue(fourth), SendStep::Full(_, _)));
    match server.accept() {
        Step::Ready(Some(second)) => assert_eq!(*second.connection(), 1),
        _ => panic!("arrival order is kept"),
    }
    match server.accept() {
        Step::Ready(Some(third)) => assert_eq!(*third.connection(), 2),
        _ => panic!("arrival order is kept"),
    }
    assert!(matches!(server.accept(), Step::Pending(_)));
}

#[test]
fn a_closed_server_admits_nothing() {
    let mut server: Server<u32> =
        ServeOptions::new().backlog(1).max_body_size(4096).serve();
    assert_eq!(server.max_body_size(), 4096);
    assert!(matches!(server.enqueue(Connecting::new(vec![], "a".to_string(), 0)), SendStep::Sent));
    server.close();
    let refused = Connecting::new(vec![], "a".to_string(), 1);
    assert!(matches!(server.enqueue(refused), SendStep::Closed(_)));
    assert!(matches!(server.accept(), Step::Ready(Some(_))));
    assert!(matches!(server.accept(), Step::Ready(None)));
    assert!(ServeOptions::new().backlog(0).try_serve::<u32>().is_none());
    assert!(ServeOptions::new().try_serve::<u32>().is_some());
}

#[test]
fn a_connection_of_the_server_is_bound_to_its_address() {
    let ice = dachannel::facade::IceServer {
        urls: vec!["stun:stun.example.org".to_string()],
        username: None,
        credential: None,
    };
    let server: Server<u32> = ServeOptions::new().ice_servers(vec![ice]).serve();
    let config = server.configuration("0.0.0.0".to_string(), 8080);
    assert_eq!(config.ice_servers.len(), 1);
    assert_eq!(config.ice_servers[0].urls, vec!["stun:stun.example.org"]);
    assert_eq!(config.sys.bind_address, Some("0.0.0.0".to_string()));
    assert_eq!(config.sys.port_range_begin, 8080);
    assert_eq!(config.sys.port_range_end, 8080);
    assert!(config.sys.enable_ice_udp_mux);
}
