use dachannel::facade;
use dachannel::facade::ConfigurationExt;
use dachannel::libdatachannel;
use dachannel::native;
use dachannel::native::LocalDescriptionPlan::{Apply, Skip};

#[test]
fn return_codes_split_into_value_and_error() {
    assert_eq!(libdatachannel::check_error(0), Ok(0));
    assert_eq!(libdatachannel::check_error(17), Ok(17));
    assert_eq!(libdatachannel::check_error(i32::MAX), Ok(i32::MAX));
    assert_eq!(libdatachannel::check_error(-1), Err(libdatachannel::Error::Invalid));
    assert_eq!(libdatachannel::check_error(-2), Err(libdatachannel::Error::Failure));
    assert_eq!(libdatachannel::check_error(-3), Err(libdatachannel::Error::NotAvail));
    assert_eq!(libdatachannel::check_error(-4), Err(libdatachannel::Error::TooSmall));
    assert_eq!(libdatachannel::check_error(-5), Err(libdatachannel::Error::Failure));
    assert_eq!(libdatachannel::check_error(i32::MIN), Err(libdatachannel::Error::Failure));
}

#[test]
fn error_codes_round_trip() {
    for e in [
        libdatachannel::Error::Invalid,
        libdatachannel::Error::Failure,
        libdatachannel::Error::NotAvail,
        libdatachannel::Error::TooSmall,
    ] {
        assert_eq!(libdatachannel::Error::from_i32(e.code()), Some(e));
    }
    assert_eq!(libdatachannel::Error::from_i32(0), None);
    assert_eq!(libdatachannel::Error::from_i32(-5), None);
    assert_eq!(libdatachannel::Error::NotAvail.message(), "element not available");
}

#[test]
fn description_types_have_wire_names() {
    assert_eq!(libdatachannel::SdpType::from_str("offer"), Ok(libdatachannel::SdpType::Offer));
    assert_eq!(libdatachannel::SdpType::from_str("answer"), Ok(libdatachannel::SdpType::Answer));
    assert_eq!(libdatachannel::SdpType::from_str("pranswer"), Ok(libdatachannel::SdpType::Pranswer));
    assert_eq!(libdatachannel::SdpType::from_str("rollback"), Ok(libdatachannel::SdpType::Rollback));
    assert_eq!(
        libdatachannel::SdpType::from_str("Offer"),
        Err(libdatachannel::SdpTypeParseError)
    );
    assert_eq!(libdatachannel::SdpType::from_str(""), Err(libdatachannel::SdpTypeParseError));
    for t in [
        libdatachannel::SdpType::Offer,
        libdatachannel::SdpType::Answer,
        libdatachannel::SdpType::Pranswer,
        libdatachannel::SdpType::Rollback,
    ] {
        assert_eq!(libdatachannel::SdpType::from_str(t.as_str()), Ok(t));
    }
    assert_eq!(libdatachannel::SdpTypeParseError.message(), "unknown description type");
}

#[test]
fn credentials_are_written_into_ice_urls() {
    let url = "turn:turn.example.org:3478".to_string();
    let user = Some("user name".to_string());
    let cred = Some("p@ss:w/rd~".to_string());
    assert_eq!(
        native::ice_url(&url, &user, &cred),
        "turn:user%20name:p%40ss%3Aw%2Frd~@turn.example.org:3478"
    );
    assert_eq!(native::ice_url(&url, &user, &None), "turn:turn.example.org:3478");
    assert_eq!(native::ice_url(&url, &None, &cred), "turn:turn.example.org:3478");
    assert_eq!(native::ice_url(&"nocolon".to_string(), &user, &cred), "nocolon");
    assert_eq!(native::ice_url(&":rest".to_string(), &user, &cred), ":user%20name:p%40ss%3Aw%2Frd~@rest");
    assert_eq!(
        native::ice_url(&"stun:h".to_string(), &Some("é".to_string()), &Some("".to_string())),
        "stun:%C3%A9:@h"
    );
}

#[test]
fn every_byte_but_the_unreserved_is_percent_encoded() {
    let url = "turn:host".to_string();
    let empty = Some(String::new());
    for code in 0u32..=0x7f {
        let c = char::from_u32(code).unwrap();
        let unreserved = c.is_ascii_alphanumeric() || c == '-' || c == '.' || c == '_' || c == '~';
        let encoded = if unreserved { c.to_string() } else { format!("%{:02X}", code) };
        assert_eq!(
            native::ice_url(&url, &Some(c.to_string()), &empty),
            format!("turn:{}:@host", encoded)
        );
        assert_eq!(
            native::ice_url(&url, &empty, &Some(c.to_string())),
            format!("turn::{}@host", encoded)
        );
    }
    // Characters beyond ASCII are encoded byte by byte, in UTF-8.
    assert_eq!(
        native::ice_url(&url, &Some("\u{7ff}\u{800}\u{10ffff}".to_string()), &empty),
        "turn:%DF%BF%E0%A0%80%F4%8F%BF%BF:@host"
    );
    // Only the first colon parts the scheme from the rest.
    assert_eq!(
        native::ice_url(&"a:b:c".to_string(), &Some("u".to_string()), &Some("p".to_string())),
        "a:u:p@b:c"
    );
    assert_eq!(
        native::ice_url(&"é:x".to_string(), &Some("u".to_string()), &Some("p".to_string())),
        "é:u:p@x"
    );
    assert_eq!(
        native::ice_url(&"turn:".to_string(), &Some("u".to_string()), &Some("p".to_string())),
        "turn:u:p@"
    );
}

#[test]
fn servers_become_one_list_of_urls() {
    let servers = vec![
        facade::IceServer {
            urls: vec!["stun:a".to_string(), "stun:b".to_string()],
            username: None,
            credential: None,
        },
        facade::IceServer { urls: vec![], username: None, credential: None },
        facade::IceServer {
            urls: vec!["turn:c".to_string()],
            username: Some("u".to_string()),
            credential: Some("c d".to_string()),
        },
    ];
    assert_eq!(native::ice_server_urls(&servers), vec!["stun:a", "stun:b", "turn:u:c%20d@c"]);

    let mut config = facade::Configuration::default();
    config.ice_servers = servers;
    config.ice_transport_policy = facade::IceTransportPolicy::Relay;
    config.set_bind("127.0.0.1".to_string(), 4000, 4001);
    config.set_enable_ice_udp_mux(true);
    let native = native::configuration(config);
    assert_eq!(native.ice_servers, vec!["stun:a", "stun:b", "turn:u:c%20d@c"]);
    assert_eq!(native.ice_transport_policy, libdatachannel::TransportPolicy::Relay);
    assert_eq!(native.bind_address, Some("127.0.0.1".to_string()));
    assert_eq!(native.port_range_begin, 4000);
    assert_eq!(native.port_range_end, 4001);
    assert!(native.enable_ice_udp_mux);
    assert!(!native.enable_ice_tcp);
}

#[test]
fn channel_options_map_to_the_native_ones() {
    let d = native::data_channel_options(facade::DataChannelOptions::default());
    assert_eq!(d.reliability, libdatachannel::Reliability::default());
    assert_eq!(d.protocol, "");
    assert!(!d.negotiated);
    assert_eq!(d.stream, None);

    let o = facade::DataChannelOptions {
        ordered: false,
        max_packet_life_time: Some(250),
        max_retransmits: None,
        protocol: "chat".to_string(),
        negotiated: true,
        id: Some(1),
    };
    let n = native::data_channel_options(o);
    assert_eq!(
        n.reliability,
        libdatachannel::Reliability {
            unordered: true,
            unreliable: true,
            max_packet_life_time: 250,
            max_retransmits: 0,
        }
    );
    assert_eq!(n.protocol, "chat");
    assert!(n.negotiated);
    assert_eq!(n.stream, Some(1));

    let o = facade::DataChannelOptions {
        max_retransmits: Some(u16::MAX),
        ..facade::DataChannelOptions::default()
    };
    let n = native::data_channel_options(o);
    assert!(!n.reliability.unordered);
    assert!(n.reliability.unreliable);
    assert_eq!(n.reliability.max_retransmits, 65535);
}

fn answer(sdp: &str) -> facade::Description {
    facade::Description { type_: facade::SdpType::Answer, sdp: sdp.to_string() }
}

#[test]
fn a_second_answer_is_skipped() {
    let plan = native::set_local_description(facade::SdpType::Answer, Some(Ok(Some(answer("v=0")))));
    assert_eq!(plan.unwrap(), Skip);
    let plan = native::set_local_description(facade::SdpType::Answer, Some(Ok(Some(answer("v=0")))));
    assert_eq!(plan.unwrap(), Skip);

    let plan = native::set_local_description(facade::SdpType::Answer, Some(Ok(None)));
    assert_eq!(plan.unwrap(), Apply(libdatachannel::SdpType::Answer));
    let offer = facade::Description { type_: facade::SdpType::Offer, sdp: "v=0".to_string() };
    let plan = native::set_local_description(facade::SdpType::Answer, Some(Ok(Some(offer))));
    assert_eq!(plan.unwrap(), Apply(libdatachannel::SdpType::Answer));
    let plan = native::set_local_description(facade::SdpType::Answer, None);
    assert_eq!(plan.unwrap(), Apply(libdatachannel::SdpType::Answer));
    let plan = native::set_local_description(
        facade::SdpType::Answer,
        Some(Err(facade::Error::new("gone".to_string()))),
    );
    assert_eq!(plan.unwrap_err().message().as_str(), "gone");

    let plan = native::set_local_description(facade::SdpType::Offer, Some(Ok(Some(answer("v=0")))));
    assert_eq!(plan.unwrap(), Apply(libdatachannel::SdpType::Offer));
    let plan = native::set_local_description(
        facade::SdpType::Rollback,
        Some(Err(facade::Error::new("gone".to_string()))),
    );
    assert_eq!(plan.unwrap(), Apply(libdatachannel::SdpType::Rollback));
    assert!(native::reads_local_description(facade::SdpType::Answer));
    assert!(!native::reads_local_description(facade::SdpType::Offer));
}

#[test]
fn a_missing_description_is_no_error() {
    let r = native::local_description(Err(libdatachannel::Error::NotAvail));
    assert!(matches!(r, Ok(None)));
    let r = native::local_description(Err(libdatachannel::Error::Invalid));
    assert_eq!(r.unwrap_err().message().as_str(), "invalid argument");
    let r = native::local_description(Ok(libdatachannel::Description {
        type_: libdatachannel::SdpType::Pranswer,
        sdp: "v=0\r\n".to_string(),
    }));
    let d = r.unwrap().unwrap();
    assert_eq!(d.type_, facade::SdpType::Pranswer);
    assert_eq!(d.sdp, "v=0\r\n");
}

#[test]
fn the_empty_candidate_ends_the_candidates() {
    assert_eq!(native::add_ice_candidate(None), "");
    assert_eq!(native::add_ice_candidate(Some("candidate:1")), "candidate:1");
    assert_eq!(native::ice_candidate(""), None);
    assert_eq!(native::ice_candidate("candidate:1"), Some("candidate:1"));
}

#[test]
fn states_map_to_the_shared_ones() {
    assert_eq!(
        facade::PeerConnectionState::from(libdatachannel::State::Closed),
        facade::PeerConnectionState::Closed
    );
    assert_eq!(
        facade::PeerConnectionState::from(libdatachannel::State::Connecting),
        facade::PeerConnectionState::Connecting
    );
    assert_eq!(
        facade::IceGatheringState::from(libdatachannel::GatheringState::InProgress),
        facade::IceGatheringState::Gathering
    );
    assert_eq!(
        facade::IceGatheringState::from(libdatachannel::GatheringState::Complete),
        facade::IceGatheringState::Complete
    );
    assert_eq!(
        libdatachannel::SdpType::from(facade::SdpType::Rollback),
        libdatachannel::SdpType::Rollback
    );
    let d = libdatachannel::Description::from(answer("x"));
    assert_eq!(d.type_, libdatachannel::SdpType::Answer);
    assert_eq!(d.sdp, "x");
}
