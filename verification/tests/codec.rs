use mosquitto_plugin::mosquitto_calls::LogLevel;
use mosquitto_plugin::{
    decode_narrow_outcome, decode_outcome, encode_auth_outcome, encode_outcome, AccessLevel,
    AclCheckAccessLevel, Error, MosquittoClientProtocol, MosquittoClientProtocolVersion,
    MosquittoPluginEvent, Success, QOS,
};

fn table() -> Vec<(Error, i32)> {
    vec![
        (Error::NoSubscriber, -3),
        (Error::SubExists, -2),
        (Error::ConnPending, -1),
        (Error::NoMem, 1),
        (Error::Protocol, 2),
        (Error::Inval, 3),
        (Error::NoConn, 4),
        (Error::ConnRefused, 5),
        (Error::NotFound, 6),
        (Error::ConnLost, 7),
        (Error::Tls, 8),
        (Error::PayloadSize, 9),
        (Error::NotSupported, 10),
        (Error::Auth, 11),
        (Error::AclDenied, 12),
        (Error::Unknown, 13),
        (Error::Errno, 14),
        (Error::Eai, 15),
        (Error::Proxy, 16),
        (Error::PluginDefer, 17),
        (Error::MalformedUtf8, 18),
        (Error::Keepalive, 19),
        (Error::Lookup, 20),
        (Error::MalformedPacket, 21),
        (Error::DuplicateProperty, 22),
        (Error::TlsHandshake, 23),
        (Error::QosNotSupported, 24),
        (Error::OversizePacket, 25),
        (Error::OCSP, 26),
        (Error::Timeout, 27),
        (Error::RetainNotSupported, 28),
        (Error::TopicAliasInvalid, 29),
        (Error::AdministrativeAction, 30),
        (Error::AlreadyExists, 31),
    ]
}

#[test]
fn it_works() {
    assert_eq!(2 + 2, 4);
}

#[test]
fn every_error_has_its_code() {
    for (error, code) in table() {
        assert_eq!(i32::from(error.clone()), code, "{:?}", error);
    }
    assert_eq!(i32::from(Error::AuthContinue(vec![1, 2, 3])), -4);
    assert_eq!(i32::from(Error::AuthContinue(Vec::new())), -4);
}

#[test]
fn every_code_has_its_error() {
    for (error, code) in table() {
        assert_eq!(Error::from(code), error);
    }
    assert_eq!(Error::from(-4), Error::AuthContinue(Vec::new()));
}

#[test]
fn decode_after_encode_gives_the_error_back() {
    for (error, _) in table() {
        let code: i32 = error.clone().into();
        assert_eq!(Error::from(code), error);
    }
}

#[test]
fn auth_continue_loses_its_payload_in_the_code() {
    let code: i32 = Error::AuthContinue(b"hello client".to_vec()).into();
    assert_eq!(code, -4);
    assert_eq!(Error::from(code), Error::AuthContinue(Vec::new()));
    assert_ne!(Error::from(code), Error::AuthContinue(b"hello client".to_vec()));
}

#[test]
fn encode_after_decode_gives_the_code_back() {
    for code in (-4..=-1).chain(1..=31) {
        assert_eq!(i32::from(Error::from(code)), code);
    }
}

#[test]
fn unrecognized_codes_decode_to_unknown() {
    for code in [0, 32, 33, -5, -6, 100, -100, 1000, i32::MAX, i32::MIN] {
        assert_eq!(Error::from(code), Error::Unknown, "code {}", code);
    }
}

#[test]
fn success_is_zero() {
    assert_eq!(i32::from(Success), 0);
    let code: i32 = Success.into();
    assert_eq!(code, 0);
}

#[test]
fn outcome_of_a_hook_is_encoded_as_its_own_kind() {
    assert_eq!(encode_outcome(Ok(Success)), 0);
    assert_eq!(encode_outcome(Err(Error::Auth)), 11);
    assert_eq!(encode_outcome(Err(Error::AclDenied)), 12);
    assert_eq!(encode_outcome(Err(Error::PluginDefer)), 17);
    assert_eq!(encode_outcome(Err(Error::AuthContinue(vec![9]))), -4);
}

#[test]
fn auth_continue_leaves_through_the_slot() {
    let mut slot: Option<Vec<u8>> = None;
    let code = encode_auth_outcome(Err(Error::AuthContinue(b"hello client".to_vec())), &mut slot);
    assert_eq!(code, -4);
    assert_eq!(slot, Some(b"hello client".to_vec()));
}

#[test]
fn auth_continue_replaces_what_the_slot_held() {
    let mut slot: Option<Vec<u8>> = Some(vec![1, 2]);
    let code = encode_auth_outcome(Err(Error::AuthContinue(Vec::new())), &mut slot);
    assert_eq!(code, -4);
    assert_eq!(slot, Some(Vec::new()));
}

#[test]
fn other_outcomes_leave_the_slot_alone() {
    let mut slot: Option<Vec<u8>> = None;
    assert_eq!(encode_auth_outcome(Ok(Success), &mut slot), 0);
    assert_eq!(slot, None);
    assert_eq!(encode_auth_outcome(Err(Error::Auth), &mut slot), 11);
    assert_eq!(slot, None);
    let mut held: Option<Vec<u8>> = Some(vec![7]);
    assert_eq!(encode_auth_outcome(Err(Error::NotSupported), &mut held), 10);
    assert_eq!(held, Some(vec![7]));
}

#[test]
fn status_of_a_call_decodes_to_its_outcome() {
    assert_eq!(decode_outcome(0), Ok(Success));
    assert_eq!(decode_outcome(6), Err(Error::NotFound));
    assert_eq!(decode_outcome(3), Err(Error::Inval));
    assert_eq!(decode_outcome(-4), Err(Error::AuthContinue(Vec::new())));
    assert_eq!(decode_outcome(77), Err(Error::Unknown));
}

#[test]
fn narrow_status_knows_three_answers() {
    assert_eq!(decode_narrow_outcome(0), Ok(Success));
    assert_eq!(decode_narrow_outcome(1), Err(Error::NoMem));
    assert_eq!(decode_narrow_outcome(3), Err(Error::Inval));
    assert_eq!(decode_narrow_outcome(2), Err(Error::Unknown));
    assert_eq!(decode_narrow_outcome(6), Err(Error::Unknown));
    assert_eq!(decode_narrow_outcome(-1), Err(Error::Unknown));
    assert_eq!(decode_narrow_outcome(13), Err(Error::Unknown));
}

#[test]
fn access_levels_by_number() {
    assert_eq!(AccessLevel::from(0), AccessLevel::NoAccess);
    assert_eq!(AccessLevel::from(1), AccessLevel::Read);
    assert_eq!(AccessLevel::from(2), AccessLevel::Write);
    assert_eq!(AccessLevel::from(4), AccessLevel::Subscribe);
    assert_eq!(AccessLevel::from(8), AccessLevel::Unsubscribe);
    for level in [3, 5, 6, 7, 9, 16, -1, i32::MAX, i32::MIN] {
        assert_eq!(AccessLevel::from(level), AccessLevel::Unknown);
    }
}

#[test]
fn access_levels_that_a_check_decides_on() {
    let read: Option<AclCheckAccessLevel> = AccessLevel::Read.into();
    assert_eq!(read, Some(AclCheckAccessLevel::Read));
    let write: Option<AclCheckAccessLevel> = AccessLevel::Write.into();
    assert_eq!(write, Some(AclCheckAccessLevel::Write));
    let subscribe: Option<AclCheckAccessLevel> = AccessLevel::Subscribe.into();
    assert_eq!(subscribe, Some(AclCheckAccessLevel::Subscribe));
    let unsubscribe: Option<AclCheckAccessLevel> = AccessLevel::Unsubscribe.into();
    assert_eq!(unsubscribe, Some(AclCheckAccessLevel::Unsubscribe));
    let none: Option<AclCheckAccessLevel> = AccessLevel::NoAccess.into();
    assert_eq!(none, None);
    let unknown: Option<AclCheckAccessLevel> = AccessLevel::Unknown.into();
    assert_eq!(unknown, None);
}

#[test]
fn check_levels_are_ordered_as_declared() {
    assert!(AclCheckAccessLevel::Read < AclCheckAccessLevel::Write);
    assert!(AclCheckAccessLevel::Write < AclCheckAccessLevel::Subscribe);
    assert!(AclCheckAccessLevel::Subscribe < AclCheckAccessLevel::Unsubscribe);
}

#[test]
fn qos_levels() {
    assert_eq!(QOS::AtMostOnce.to_i32(), 0);
    assert_eq!(QOS::AtLeastOnce.to_i32(), 1);
    assert_eq!(QOS::ExactlyOnce.to_i32(), 2);
}

#[test]
fn event_kinds_by_number() {
    assert_eq!(i32::from(MosquittoPluginEvent::MosqEvtReload), 1);
    assert_eq!(i32::from(MosquittoPluginEvent::MosqEvtAclCheck), 2);
    assert_eq!(i32::from(MosquittoPluginEvent::MosqEvtBasicAuth), 3);
    assert_eq!(i32::from(MosquittoPluginEvent::MosqEvtExtAuthStart), 4);
    assert_eq!(i32::from(MosquittoPluginEvent::MosqEvtExtAuthContinue), 5);
    assert_eq!(i32::from(MosquittoPluginEvent::MosqEvtControl), 6);
    assert_eq!(i32::from(MosquittoPluginEvent::MosqEvtMessage), 7);
    assert_eq!(i32::from(MosquittoPluginEvent::MosqEvtPskKey), 8);
    assert_eq!(i32::from(MosquittoPluginEvent::MosqEvtTick), 9);
    assert_eq!(i32::from(MosquittoPluginEvent::MosqEvtDisconnect), 10);
    assert_eq!(i32::from(MosquittoPluginEvent::Unknown), -1);
}

#[test]
fn log_levels_are_single_bits() {
    assert_eq!(i32::from(LogLevel::Info), 1);
    assert_eq!(i32::from(LogLevel::Notice), 2);
    assert_eq!(i32::from(LogLevel::Warning), 4);
    assert_eq!(i32::from(LogLevel::Error), 8);
    assert_eq!(i32::from(LogLevel::Debug), 16);
}

#[test]
fn protocols_by_number() {
    assert_eq!(MosquittoClientProtocol::from_code(0), Some(MosquittoClientProtocol::Mqtt));
    assert_eq!(MosquittoClientProtocol::from_code(1), Some(MosquittoClientProtocol::MqttSn));
    assert_eq!(MosquittoClientProtocol::from_code(2), Some(MosquittoClientProtocol::Websockets));
    assert_eq!(MosquittoClientProtocol::from_code(3), None);
    assert_eq!(MosquittoClientProtocol::from_code(u32::MAX), None);
}

#[test]
fn protocol_versions_by_number() {
    assert_eq!(MosquittoClientProtocolVersion::from_code(3), Some(MosquittoClientProtocolVersion::V3));
    assert_eq!(MosquittoClientProtocolVersion::from_code(4), Some(MosquittoClientProtocolVersion::V4));
    assert_eq!(MosquittoClientProtocolVersion::from_code(5), Some(MosquittoClientProtocolVersion::V5));
    for code in [0, 1, 2, 6, -1, i32::MAX] {
        assert_eq!(MosquittoClientProtocolVersion::from_code(code), None);
    }
}

#[test]
fn access_levels_have_their_names() {
    assert_eq!(AccessLevel::NoAccess.to_string(), "NoAccess");
    assert_eq!(AccessLevel::Read.to_string(), "Read");
    assert_eq!(AccessLevel::Write.to_string(), "Write");
    assert_eq!(AccessLevel::Subscribe.to_string(), "Subscribe");
    assert_eq!(AccessLevel::Unsubscribe.to_string(), "Unsubscribe");
    assert_eq!(AccessLevel::Unknown.to_string(), "Unknown");
    assert_eq!(AclCheckAccessLevel::Read.to_string(), "Read");
    assert_eq!(AclCheckAccessLevel::Write.to_string(), "Write");
    assert_eq!(AclCheckAccessLevel::Subscribe.to_string(), "Subscribe");
    assert_eq!(AclCheckAccessLevel::Unsubscribe.to_string(), "Unsubscribe");
}
