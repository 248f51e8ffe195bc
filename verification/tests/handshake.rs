use terralink::client::brand::{brand_fields, find_slash, split_first, BrandFields};
use terralink::client::handshake::{
    classify, classify_brand, negotiate, rejection_notice, starts_with, HandshakeError,
    HandshakeState, HANDSHAKE_DEADLINE_SECS,
};
use terralink::client::{ClientType, IoError, ReadEvent};
use terralink::proto::{AdvanceState, Connect, Disconnect, ProtocolError, ProtocolPacket};

fn connect(brand: &str) -> ProtocolPacket {
    ProtocolPacket::Connect(Connect { brand: brand.to_string() })
}

fn frame(packet: ProtocolPacket) -> ReadEvent {
    ReadEvent::Data(packet.to_bytes().unwrap())
}

#[test]
fn handshake_waits_five_seconds() {
    assert_eq!(HANDSHAKE_DEADLINE_SECS, 5);
}

#[test]
fn minecraft_brand_is_classified_as_minecraft() {
    assert_eq!(classify(connect("Minecraft/1.0")), Ok(ClientType::Minecraft));
    assert_eq!(classify(connect("Minecraft/fabric/1.20.1")), Ok(ClientType::Minecraft));
    assert_eq!(classify(connect("Minecraft")), Ok(ClientType::Minecraft));
}

#[test]
fn terraria_brand_is_classified_as_terraria() {
    assert_eq!(classify(connect("TModLoader/2024.5")), Ok(ClientType::Terraria));
    assert_eq!(classify(connect("TModLoader/loader/2.0")), Ok(ClientType::Terraria));
    assert_eq!(classify(connect("TModLoader")), Ok(ClientType::Terraria));
}

#[test]
fn unknown_brand_is_unsupported_and_reported() {
    assert_eq!(
        classify(connect("Unknown/1.0")),
        Err(HandshakeError::UnsupportedBrand("Unknown/1.0".to_string()))
    );
    assert_eq!(classify(connect("")), Err(HandshakeError::UnsupportedBrand(String::new())));
    assert_eq!(
        classify(connect("minecraft/1.0")),
        Err(HandshakeError::UnsupportedBrand("minecraft/1.0".to_string()))
    );
    assert_eq!(
        classify(connect("Minecraf")),
        Err(HandshakeError::UnsupportedBrand("Minecraf".to_string()))
    );
    assert_eq!(
        classify(connect("/Minecraft")),
        Err(HandshakeError::UnsupportedBrand("/Minecraft".to_string()))
    );
}

#[test]
fn first_packet_other_than_connect_is_unexpected() {
    let disconnect = ProtocolPacket::Disconnect(Disconnect { reason: "Minecraft/1.0".to_string() });
    assert_eq!(classify(disconnect), Err(HandshakeError::UnexpectedPacket));
    let advance =
        ProtocolPacket::AdvanceState(AdvanceState { bridge_info: "TModLoader/1".to_string() });
    assert_eq!(classify(advance), Err(HandshakeError::UnexpectedPacket));
}

#[test]
fn brand_is_matched_by_its_start() {
    assert_eq!(classify_brand("Minecraft/forge/1.12"), Some(ClientType::Minecraft));
    assert_eq!(classify_brand("MinecraftX"), Some(ClientType::Minecraft));
    assert_eq!(classify_brand("TModLoader/1.4"), Some(ClientType::Terraria));
    assert_eq!(classify_brand("Terraria/1.4"), None);
    assert_eq!(classify_brand("xTModLoader"), None);
    assert_eq!(classify_brand("\u{4e16}\u{754c}"), None);
}

#[test]
fn starts_with_compares_characters() {
    assert!(starts_with("abc", ""));
    assert!(starts_with("abc", "ab"));
    assert!(starts_with("abc", "abc"));
    assert!(!starts_with("abc", "abcd"));
    assert!(!starts_with("abc", "b"));
    assert!(!starts_with("", "a"));
    assert!(starts_with("", ""));
    assert!(starts_with("\u{e9}t\u{e9}", "\u{e9}t"));
    assert!(!starts_with("\u{e9}t\u{e9}", "et"));
}

#[test]
fn negotiate_classifies_a_connect_frame() {
    assert_eq!(negotiate(frame(connect("Minecraft/1.0"))), Ok(ClientType::Minecraft));
    assert_eq!(negotiate(frame(connect("TModLoader/loader/2.0"))), Ok(ClientType::Terraria));
}

#[test]
fn negotiate_rejects_what_classify_rejects() {
    assert_eq!(
        negotiate(frame(connect("Unknown/1.0"))),
        Err(HandshakeError::UnsupportedBrand("Unknown/1.0".to_string()))
    );
    let disconnect = ProtocolPacket::Disconnect(Disconnect { reason: "no".to_string() });
    assert_eq!(negotiate(frame(disconnect)), Err(HandshakeError::UnexpectedPacket));
}

#[test]
fn negotiate_reports_a_read_without_bytes() {
    assert_eq!(
        negotiate(ReadEvent::Data(vec![])),
        Err(HandshakeError::IoFailure(IoError::ZeroByteRead))
    );
}

#[test]
fn negotiate_reports_a_timeout_and_a_failed_socket() {
    assert_eq!(negotiate(ReadEvent::TimedOut), Err(HandshakeError::IoFailure(IoError::Timeout)));
    assert_eq!(
        negotiate(ReadEvent::Failed),
        Err(HandshakeError::IoFailure(IoError::ConnectionReset))
    );
}

#[test]
fn negotiate_reports_bytes_that_are_no_packet() {
    assert_eq!(
        negotiate(ReadEvent::Data(vec![0x09, 1, 2])),
        Err(HandshakeError::Malformed(ProtocolError::UnknownOpcode(0x09)))
    );
    assert_eq!(
        negotiate(ReadEvent::Data(vec![0x00, 0, 0x01, 0, 0])),
        Err(HandshakeError::Malformed(ProtocolError::OversizedString))
    );
    assert_eq!(
        negotiate(ReadEvent::Data(vec![0x00, 0, 0, 0, 1, 0xff])),
        Err(HandshakeError::Malformed(ProtocolError::InvalidUtf8))
    );
    assert_eq!(
        negotiate(ReadEvent::Data(vec![0x00, 0, 0])),
        Err(HandshakeError::Malformed(ProtocolError::MalformedField))
    );
}

#[test]
fn handshake_state_is_decided_by_one_read() {
    let state = HandshakeState::AwaitingConnect;
    assert_eq!(
        state.on_read(frame(connect("Minecraft/1.0"))),
        HandshakeState::Classified(ClientType::Minecraft)
    );
    assert_eq!(
        HandshakeState::AwaitingConnect.on_read(ReadEvent::TimedOut),
        HandshakeState::Rejected(HandshakeError::IoFailure(IoError::Timeout))
    );
    assert_eq!(
        HandshakeState::AwaitingConnect.on_read(frame(connect("Unknown/1.0"))),
        HandshakeState::Rejected(HandshakeError::UnsupportedBrand("Unknown/1.0".to_string()))
    );
}

#[test]
fn handshake_state_that_is_over_stays() {
    let classified = HandshakeState::Classified(ClientType::Terraria);
    assert_eq!(classified.clone().on_read(ReadEvent::TimedOut), classified);
    assert_eq!(classified.clone().on_read(frame(connect("Minecraft/1.0"))), classified);
    let rejected = HandshakeState::Rejected(HandshakeError::UnexpectedPacket);
    assert_eq!(rejected.clone().on_read(frame(connect("Minecraft/1.0"))), rejected);
}

#[test]
fn rejection_notice_tells_the_reason() {
    let notice = |error: HandshakeError| match rejection_notice(&error) {
        ProtocolPacket::Disconnect(disconnect) => disconnect.reason,
        other => panic!("{:?}", other),
    };
    assert_eq!(
        notice(HandshakeError::UnsupportedBrand("Unknown/1.0".to_string())),
        "Invalid connection sequence: Invalid brand!"
    );
    assert_eq!(
        notice(HandshakeError::UnexpectedPacket),
        "Invalid connection sequence: Invalid packet!"
    );
    assert_eq!(
        notice(HandshakeError::IoFailure(IoError::ZeroByteRead)),
        "Invalid connection sequence: Read 0 bytes!"
    );
    assert_eq!(
        notice(HandshakeError::IoFailure(IoError::Timeout)),
        "Invalid connection sequence: Deadline has elapsed!"
    );
    assert_eq!(
        notice(HandshakeError::IoFailure(IoError::ConnectionReset)),
        "Invalid connection sequence: Connection reset!"
    );
    assert_eq!(
        notice(HandshakeError::Malformed(ProtocolError::UnknownOpcode(7))),
        "Invalid connection sequence: Invalid packet ID!"
    );
    assert_eq!(
        notice(HandshakeError::Malformed(ProtocolError::OversizedString)),
        "Invalid connection sequence: String buffer overflow!"
    );
}

#[test]
fn handshake_errors_have_messages() {
    assert_eq!(HandshakeError::UnsupportedBrand("x".to_string()).message(), "Invalid brand!");
    assert_eq!(HandshakeError::UnexpectedPacket.message(), "Invalid packet!");
    assert_eq!(IoError::ZeroByteRead.message(), "Read 0 bytes!");
    assert_eq!(IoError::Timeout.message(), "Deadline has elapsed!");
    assert_eq!(IoError::ConnectionReset.message(), "Connection reset!");
    assert_eq!(
        HandshakeError::Malformed(ProtocolError::InvalidUtf8).message(),
        "Invalid UTF-8!"
    );
    assert_eq!(
        HandshakeError::Malformed(ProtocolError::MalformedField).message(),
        "Unexpected end of packet!"
    );
}

#[test]
fn families_have_names_and_peers() {
    assert_eq!(ClientType::Minecraft.name(), "Minecraft");
    assert_eq!(ClientType::Terraria.name(), "Terraria");
    assert_eq!(ClientType::Minecraft.peer(), ClientType::Terraria);
    assert_eq!(ClientType::Terraria.peer(), ClientType::Minecraft);
    assert_eq!(ClientType::Terraria.peer().peer(), ClientType::Terraria);
}

#[test]
fn find_slash_counts_characters() {
    assert_eq!(find_slash(""), None);
    assert_eq!(find_slash("abc"), None);
    assert_eq!(find_slash("/abc"), Some(0));
    assert_eq!(find_slash("ab/c/d"), Some(2));
    assert_eq!(find_slash("\u{4e16}\u{754c}/x"), Some(2));
}

#[test]
fn split_first_cuts_at_the_first_slash() {
    assert_eq!(split_first("Minecraft/fabric/1.20"), ("Minecraft", Some("fabric/1.20")));
    assert_eq!(split_first("Minecraft"), ("Minecraft", None));
    assert_eq!(split_first("a/"), ("a", Some("")));
    assert_eq!(split_first("/b"), ("", Some("b")));
    assert_eq!(split_first(""), ("", None));
    assert_eq!(split_first("\u{e9}\u{e9}/\u{1f600}/z"), ("\u{e9}\u{e9}", Some("\u{1f600}/z")));
}

#[test]
fn minecraft_brand_tells_loader_and_version() {
    assert_eq!(
        brand_fields(ClientType::Minecraft, "Minecraft/fabric/1.20.1"),
        BrandFields { loader: Some("fabric".to_string()), version: Some("1.20.1".to_string()) }
    );
    assert_eq!(
        brand_fields(ClientType::Minecraft, "Minecraft/forge/1.12/extra"),
        BrandFields { loader: Some("forge".to_string()), version: Some("1.12".to_string()) }
    );
    assert_eq!(
        brand_fields(ClientType::Minecraft, "Minecraft/1.0"),
        BrandFields { loader: Some("1.0".to_string()), version: None }
    );
    assert_eq!(
        brand_fields(ClientType::Minecraft, "Minecraft"),
        BrandFields { loader: None, version: None }
    );
}

#[test]
fn terraria_brand_tells_version() {
    assert_eq!(
        brand_fields(ClientType::Terraria, "TModLoader/2024.5"),
        BrandFields { loader: None, version: Some("2024.5".to_string()) }
    );
    assert_eq!(
        brand_fields(ClientType::Terraria, "TModLoader/loader/2.0"),
        BrandFields { loader: None, version: Some("loader".to_string()) }
    );
    assert_eq!(
        brand_fields(ClientType::Terraria, "TModLoader"),
        BrandFields { loader: None, version: None }
    );
    assert_eq!(
        brand_fields(ClientType::Terraria, "TModLoader/"),
        BrandFields { loader: None, version: Some(String::new()) }
    );
}
