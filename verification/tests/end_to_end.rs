use dachannel::channel::{Channel, Sending};
use dachannel::client;
use dachannel::client::{ConnectAction, ConnectEvent, ConnectOptions, ConnectState};
use dachannel::connection::{Connection, ConnectionBuilder};
use dachannel::facade::{Description, IceGatheringState, PeerConnectionState, SdpType};
use dachannel::http::{RequestHeader, Response};
use dachannel::mailbox::SendStep;
use dachannel::server::{
    offer, Connecting, FinishAction, FinishEvent, OfferAction, OfferEvent, OfferState,
    ServeOptions, Server,
};
use dachannel::sync_util::Step;

/// A transport that lives in the test: it makes descriptions from a fixed
/// text and remembers what it was given.
struct Peer {
    name: &'static str,
    local: Option<Description>,
    remote: Option<Description>,
}

impl Peer {
    fn new(name: &'static str) -> Self {
        Peer { name, local: None, remote: None }
    }

    fn set_local_description(&mut self, type_: SdpType) {
        self.local = Some(Description { type_, sdp: format!("v=0 {} é", self.name) });
    }
}

type Conn = Connection<Peer, u16>;

/// Runs the server side of one request up to the point where the pending
/// handshake sits in the accept queue.
fn receive(server: &mut Server<ConnectionBuilder<Conn>>, headers: &[RequestHeader], body: &[u8]) {
    let limit = server.max_body_size();
    let request =
        OfferEvent::Request { method: "POST".to_string(), body_size: Some(body.len() as u64) };
    let (at, action) = offer(OfferState::Received, request, limit);
    assert!(matches!(action, OfferAction::CreateConnection));
    let config = server.configuration("127.0.0.1".to_string(), 0);
    assert!(config.sys.enable_ice_udp_mux);
    let builder: ConnectionBuilder<Conn> = Connection::builder(Peer::new("answerer"));
    let (at, action) = offer(at, OfferEvent::ConnectionCreated(Ok(())), limit);
    assert!(matches!(action, OfferAction::Enqueue));
    let headers = headers.iter().map(|h| RequestHeader::new(&h.name, &h.value)).collect();
    let pending = Connecting::new(headers, "127.0.0.1:50000".to_string(), builder);
    assert!(matches!(server.enqueue(pending), SendStep::Sent));
    let (at, action) = offer(at, OfferEvent::Admitted, limit);
    assert!(matches!(action, OfferAction::AwaitAnswer));
    assert_eq!(at, OfferState::AwaitingAnswer);
}

/// Finishes a pending handshake against the test's transport and hands
/// back what went into the response slot, the connection and its channel.
fn finish(
    pending: Connecting<ConnectionBuilder<Conn>>,
    body: Vec<u8>,
) -> (Option<String>, Conn, Channel<u16>) {
    let channel = pending.connection().create_data_channel(Ok(1u16)).unwrap();
    let mut finishing = pending.finish();
    let mut peer = Peer::new("answerer");
    let mut event = FinishEvent::Body(Ok(body));
    loop {
        event = match finishing.step(event) {
            FinishAction::SetRemoteDescription(description) => {
                peer.remote = Some(description);
                FinishEvent::RemoteDescriptionSet(Ok(()))
            }
            FinishAction::SetLocalDescription(type_) => {
                peer.set_local_description(type_);
                FinishEvent::LocalDescriptionSet(Ok(()))
            }
            FinishAction::AwaitIceCandidatesGathered => FinishEvent::IceCandidatesGathered,
            FinishAction::ReadLocalDescription => {
                FinishEvent::LocalDescription(Ok(peer.local.clone()))
            }
            FinishAction::Resolve { slot, outcome } => {
                outcome.unwrap();
                assert_eq!(peer.remote.as_ref().unwrap().type_, SdpType::Offer);
                assert_eq!(peer.remote.as_ref().unwrap().sdp, "v=0 offerer é");
                assert_eq!(peer.local.as_ref().unwrap().type_, SdpType::Answer);
                return (slot, finishing.into_connection().build(), channel);
            }
            FinishAction::Ignore => panic!("each event answers the action before it"),
        };
    }
}

/// Drives a whole handshake, both sides, and the first message.
fn handshake(mut connect: client::Connect, mut server: Server<ConnectionBuilder<Conn>>) {
    let mut conn: Conn = Connection::builder(Peer::new("offerer")).build();
    let builder = ConnectionBuilder::new(());
    let mut dc = builder.create_data_channel(Ok(1u16)).unwrap();
    let mut peer = Peer::new("offerer");
    let mut response: Option<Response> = None;
    let mut served: Option<(Conn, Channel<u16>)> = None;

    let mut event = ConnectEvent::Begin;
    loop {
        event = match connect.step(event) {
            ConnectAction::SetLocalDescription(type_) => {
                assert_eq!(type_, SdpType::Offer);
                peer.set_local_description(type_);
                conn.on_ice_gathering_state_change(IceGatheringState::Gathering);
                ConnectEvent::LocalDescriptionSet(Ok(()))
            }
            ConnectAction::AwaitIceCandidatesGathered => {
                assert!(matches!(conn.ice_candidates_gathered(), Step::Pending(_)));
                conn.on_ice_gathering_state_change(IceGatheringState::Complete);
                assert!(conn.ice_candidates_gathered().is_ready());
                ConnectEvent::IceCandidatesGathered
            }
            ConnectAction::ReadLocalDescription => {
                ConnectEvent::LocalDescription(Ok(peer.local.clone()))
            }
            ConnectAction::Post { url, headers, body } => {
                assert!(url.starts_with("http://127.0.0.1:"));
                let headers: Vec<RequestHeader> = headers
                    .iter()
                    .map(|h| RequestHeader::new(&h.name, h.value.as_bytes()))
                    .collect();
                let wire = body.into_bytes();
                receive(&mut server, &headers, &wire);
                let pending = match server.accept() {
                    Step::Ready(Some(pending)) => pending,
                    _ => panic!("the handshake is in the accept queue"),
                };
                assert_eq!(pending.headers().len(), headers.len());
                let (slot, connection, channel) = finish(pending, wire);
                served = Some((connection, channel));
                let limit = server.max_body_size();
                match offer(OfferState::AwaitingAnswer, OfferEvent::Answer(slot), limit) {
                    (OfferState::Responded, OfferAction::Respond(r)) => {
                        let status = r.status;
                        response = Some(r);
                        ConnectEvent::ResponseStatus(Ok(status))
                    }
                    _ => panic!("the request is answered"),
                }
            }
            ConnectAction::ReadResponseBody => {
                ConnectEvent::ResponseBody(Ok(response.take().unwrap().body.into_bytes()))
            }
            ConnectAction::SetRemoteDescription(description) => {
                assert_eq!(description.type_, SdpType::Answer);
                assert_eq!(description.sdp, "v=0 answerer é");
                peer.remote = Some(description);
                ConnectEvent::RemoteDescriptionSet(Ok(()))
            }
            ConnectAction::Finish(outcome) => {
                outcome.unwrap();
                break;
            }
            ConnectAction::Ignore => panic!("each event answers the action before it"),
        };
    }
    assert_eq!(connect.state(), ConnectState::Done);

    let (mut server_conn, mut server_dc) = served.unwrap();
    // The channel was agreed on beforehand; a message sent before it opens
    // waits, and goes out once it has opened.
    assert!(matches!(dc.send(b"hello world"), Ok(Sending::Wait(_, _))));
    conn.on_connection_state_change(PeerConnectionState::Connected);
    server_conn.on_connection_state_change(PeerConnectionState::Connected);
    dc.on_open();
    server_dc.on_open();
    let sent = match dc.send(b"hello world") {
        Ok(Sending::Transmit(bytes)) => bytes.to_vec(),
        _ => panic!("an open channel transmits"),
    };
    server_dc.on_message(&sent);
    match server_dc.recv() {
        Step::Ready(Ok(buf)) => assert_eq!(buf, b"hello world"),
        _ => panic!("the message is there"),
    }
    assert_eq!(
        server_conn.next_connection_state().ready(),
        Some(Some(PeerConnectionState::Connected))
    );
}

#[test]
fn client_test_connect() {
    let server = Server::listen(128);
    handshake(client::connect("http://127.0.0.1:8080", None), server);
}

#[test]
fn lib_test_connect() {
    let server = ServeOptions::new().serve();
    let options = ConnectOptions::new().header("authorization".to_string(), "t".to_string());
    handshake(options.connect("http://127.0.0.1:8080"), server);
}
