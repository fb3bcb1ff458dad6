use matrix_room::errors::{ClientError, ForeignError};
use matrix_room::raw_events::{
    raw_room_event_from_raw_json, AlgorithmInfo, Direction, EncryptionInfo, IncludeRelations,
    RawRoomEvent, RawRoomEventDetails, RawRoomEventEncryptionInfo, RawRoomEventListener,
    RawRoomRelationsDirection, RawRoomRelationsOptions, RelatedEvent, RelationsReply,
    VerificationLevel, VerificationState,
};
use matrix_room::room::Room;
use serde_json::Value;

fn room() -> Room {
    Room {
        room_id: "!matrixrtc:example.org".to_owned(),
        canonical_alias: None,
        has_utd_hook_manager: false,
    }
}

fn text_of(value: &Value, field: &str) -> Option<String> {
    value[field].as_str().map(|text| text.to_owned())
}

fn read(raw_json: &str) -> Result<RawRoomEventDetails, ForeignError> {
    let value: Value = serde_json::from_str(raw_json).map_err(|error| ForeignError {
        message: error.to_string(),
        debug: format!("{error:?}"),
    })?;
    match text_of(&value, "type") {
        Some(event_type) => Ok(RawRoomEventDetails {
            event_type,
            event_id: text_of(&value, "event_id"),
            sender: text_of(&value, "sender"),
            origin_server_ts: value["origin_server_ts"].as_u64(),
            content_json: value["content"].to_string(),
        }),
        None => Err(ForeignError {
            message: "missing field `type`".to_owned(),
            debug: "missing".to_owned(),
        }),
    }
}

const IGNORED: &str = r#"{"content":{"body":"ignored","msgtype":"m.text"},"event_id":"$message:example.org","origin_server_ts":999,"room_id":"!matrixrtc:example.org","sender":"@alice:example.org","type":"m.room.message"}"#;

const REACTION: &str = "{\"content\":{\"m.relates_to\":{\"event_id\":\"$membership:example.org\",\"key\":\"\u{1f590}\u{fe0f}\",\"rel_type\":\"m.annotation\"}},\"event_id\":\"$reaction:example.org\",\"origin_server_ts\":1234,\"room_id\":\"!matrixrtc:example.org\",\"sender\":\"@alice:example.org\",\"type\":\"m.reaction\"}";

const REDACTION: &str = r#"{"content":{},"event_id":"$redaction:example.org","origin_server_ts":1235,"redacts":"$reaction:example.org","room_id":"!matrixrtc:example.org","sender":"@alice:example.org","type":"m.room.redaction"}"#;

struct Heard {
    events: std::sync::Mutex<Vec<RawRoomEvent>>,
}

impl RawRoomEventListener for Heard {
    fn on_event(&self, event: RawRoomEvent) {
        self.events.lock().unwrap().push(event);
    }
}

#[test]
fn test_raw_room_event_encryption_info_maps_algorithm_details() {
    let megolm_info = EncryptionInfo {
        sender: "@alice:example.org".to_owned(),
        sender_device: Some("ALICEDEVICE".to_owned()),
        forwarder: None,
        algorithm_info: AlgorithmInfo::MegolmV1AesSha2 {
            curve25519_key: "megolm_curve25519_key".to_owned(),
            sender_claimed_keys: vec![("ed25519".to_owned(), "claimed_ed25519_key".to_owned())],
            session_id: Some("session_id".to_owned()),
        },
        verification_state: VerificationState::Verified,
    };

    let mapped = RawRoomEventEncryptionInfo::from(&megolm_info);
    assert_eq!(mapped.sender, "@alice:example.org");
    assert_eq!(mapped.sender_device.as_deref(), Some("ALICEDEVICE"));
    assert_eq!(mapped.sender_curve25519_key_base64.as_deref(), Some("megolm_curve25519_key"));
    assert!(mapped.sender_verified);

    let olm_info = EncryptionInfo {
        sender: "@bob:example.org".to_owned(),
        sender_device: None,
        forwarder: None,
        algorithm_info: AlgorithmInfo::OlmV1Curve25519AesSha2 {
            curve25519_public_key_base64: "olm_curve25519_key".to_owned(),
        },
        verification_state: VerificationState::Unverified(VerificationLevel::UnsignedDevice),
    };

    let mapped = RawRoomEventEncryptionInfo::from(&olm_info);
    assert_eq!(mapped.sender, "@bob:example.org");
    assert!(mapped.sender_device.is_none());
    assert_eq!(mapped.sender_curve25519_key_base64.as_deref(), Some("olm_curve25519_key"));
    assert!(!mapped.sender_verified);
}

#[test]
fn test_raw_timeline_event_listener_receives_filtered_relation_events() {
    let room_id = "!matrixrtc:example.org";
    let sender = "@alice:example.org";
    let membership_event_id = "$membership:example.org";
    let reaction_event_id = "$reaction:example.org";

    let subscription = room().subscribe_to_raw_timeline_events(vec![
        "m.reaction".to_owned(),
        "m.room.redaction".to_owned(),
    ]);
    let listener = Heard { events: std::sync::Mutex::new(Vec::new()) };
    for raw_json in [IGNORED, REACTION, REDACTION] {
        if let Some(event) = subscription.receive(raw_json, read(raw_json), None) {
            listener.on_event(event);
        }
    }

    let events = listener.events.lock().unwrap();
    assert_eq!(events.len(), 2);

    let reaction = &events[0];
    assert_eq!(reaction.room_id, room_id.to_string());
    assert_eq!(reaction.event_type, "m.reaction");
    assert_eq!(reaction.event_id.as_deref(), Some(reaction_event_id));
    assert_eq!(reaction.sender.as_deref(), Some(sender));
    assert_eq!(reaction.origin_server_ts_ms, Some(1234));
    assert!(reaction.encryption_info.is_none());

    let content: Value =
        serde_json::from_str(&reaction.content_json).expect("content should be JSON");
    assert_eq!(content["m.relates_to"]["event_id"], membership_event_id);
    assert_eq!(content["m.relates_to"]["rel_type"], "m.annotation");
    assert_eq!(content["m.relates_to"]["key"], "\u{1f590}\u{fe0f}");

    let raw: Value = serde_json::from_str(&reaction.raw_json).expect("raw should be JSON");
    assert_eq!(raw["event_id"], reaction_event_id);
    assert_eq!(raw["type"], "m.reaction");

    let redaction = &events[1];
    assert_eq!(redaction.event_type, "m.room.redaction");
    assert_eq!(redaction.event_id.as_deref(), Some("$redaction:example.org"));

    let raw: Value = serde_json::from_str(&redaction.raw_json).expect("raw should be JSON");
    assert_eq!(raw["redacts"], reaction_event_id);
}

#[test]
fn test_get_event_relations_returns_filtered_raw_relation_events() {
    let room = room();
    let request = room
        .get_event_relations(
            "$membership:example.org".to_owned(),
            RawRoomRelationsOptions {
                relation_type: Some("m.annotation".to_owned()),
                event_type: Some("m.reaction".to_owned()),
                from: Some("next_batch".to_owned()),
                limit: Some(20),
                direction: RawRoomRelationsDirection::Backward,
                recurse: true,
            },
        )
        .expect("room relations should load");
    assert_eq!(request.event_id.as_str(), "$membership:example.org");
    assert_eq!(request.options.from.as_deref(), Some("next_batch"));
    assert_eq!(request.options.limit, Some(20));
    assert_eq!(request.options.dir, Direction::Backward);
    assert!(request.options.recurse);
    match &request.options.include_relations {
        IncludeRelations::RelationsOfTypeAndEventType(relation_type, event_type) => {
            assert_eq!(relation_type, "m.annotation");
            assert_eq!(event_type, "m.reaction");
        }
        other => panic!("{other:?}"),
    }

    let result = room
        .relations_from_reply(RelationsReply {
            chunk: vec![RelatedEvent {
                raw_json: REACTION.to_owned(),
                details: read(REACTION),
                encryption_info: None,
            }],
            prev_batch_token: Some("prev_batch".to_owned()),
            next_batch_token: Some("more".to_owned()),
            recursion_depth: Some(1),
        })
        .expect("room relations should load");

    assert_eq!(result.prev_batch_token.as_deref(), Some("prev_batch"));
    assert_eq!(result.next_batch_token.as_deref(), Some("more"));
    assert_eq!(result.recursion_depth, Some(1));
    assert_eq!(result.chunk.len(), 1);

    let reaction = &result.chunk[0];
    assert_eq!(reaction.room_id, "!matrixrtc:example.org");
    assert_eq!(reaction.event_type, "m.reaction");
    assert_eq!(reaction.event_id.as_deref(), Some("$reaction:example.org"));
    assert_eq!(reaction.sender.as_deref(), Some("@alice:example.org"));
    assert!(reaction.encryption_info.is_none());

    let content: Value =
        serde_json::from_str(&reaction.content_json).expect("content should be JSON");
    assert_eq!(content["m.relates_to"]["event_id"], "$membership:example.org");
    assert_eq!(content["m.relates_to"]["rel_type"], "m.annotation");
    assert_eq!(content["m.relates_to"]["key"], "\u{1f590}\u{fe0f}");

    let raw: Value = serde_json::from_str(&reaction.raw_json).expect("raw should be JSON");
    assert_eq!(raw["event_id"], "$reaction:example.org");
    assert_eq!(raw["type"], "m.reaction");
}

#[test]
fn events_without_a_readable_type_are_not_wanted() {
    let subscription = room().subscribe_to_raw_timeline_events(vec!["m.reaction".to_owned()]);
    assert!(subscription.wants(REACTION));
    assert!(!subscription.wants(REDACTION));
    assert!(!subscription.wants(r#"{"content":{}}"#));
    assert!(!subscription.wants(r#"{"type":null}"#));
    assert!(!subscription.wants(r#"{"type":7}"#));
    assert!(!subscription.wants(r#"["m.reaction"]"#));
    assert!(!subscription.wants("m.reaction"));
    assert!(subscription.wants_type(Ok(Some("m.reaction".to_owned()))));
    assert!(!subscription.wants_type(Ok(None)));
    assert!(!subscription.wants_type(Err(ForeignError {
        message: "bad".to_owned(),
        debug: "bad".to_owned(),
    })));
}

#[test]
fn an_event_that_cannot_be_read_is_passed_over() {
    let subscription = room().subscribe_to_raw_timeline_events(vec!["m.reaction".to_owned()]);
    let unreadable = Err(ForeignError { message: "bad".to_owned(), debug: "bad".to_owned() });
    assert!(subscription.receive(REACTION, unreadable, None).is_none());
}

#[test]
fn an_encrypted_event_tells_who_encrypted_it() {
    let subscription = room().subscribe_to_raw_timeline_events(vec!["m.reaction".to_owned()]);
    let info = EncryptionInfo {
        sender: "@alice:example.org".to_owned(),
        sender_device: None,
        forwarder: None,
        algorithm_info: AlgorithmInfo::OlmV1Curve25519AesSha2 {
            curve25519_public_key_base64: "key".to_owned(),
        },
        verification_state: VerificationState::Verified,
    };
    let event = subscription.receive(REACTION, read(REACTION), Some(info)).unwrap();
    let told = event.encryption_info.unwrap();
    assert_eq!(told.sender, "@alice:example.org");
    assert!(told.sender_verified);
}

#[test]
fn a_raw_event_keeps_its_json() {
    let event =
        raw_room_event_from_raw_json("!a:b".to_owned(), REDACTION, read(REDACTION), None).unwrap();
    assert_eq!(event.raw_json, REDACTION);
    assert_eq!(event.content_json, "{}");
    assert_eq!(event.origin_server_ts_ms, Some(1235));
}

fn options() -> RawRoomRelationsOptions {
    RawRoomRelationsOptions {
        relation_type: None,
        event_type: None,
        from: None,
        limit: None,
        direction: RawRoomRelationsDirection::Forward,
        recurse: false,
    }
}

fn generic(error: ClientError) -> (String, Option<String>) {
    match error {
        ClientError::Generic { msg, details } => (msg, details),
        ClientError::Room(error) => panic!("{error:?}"),
    }
}

#[test]
fn relations_of_an_event_type_need_a_relation_type() {
    let mut asked = options();
    asked.event_type = Some("m.reaction".to_owned());
    let error = room().get_event_relations("$event:example.org".to_owned(), asked).unwrap_err();
    assert_eq!(
        generic(error),
        (
            "event_type requires relation_type when querying room relations".to_owned(),
            Some("event_type=m.reaction".to_owned())
        )
    );
}

#[test]
fn the_limit_of_relations_fits_the_protocol() {
    let mut asked = options();
    asked.limit = Some(9007199254740992);
    let error = room().get_event_relations("$event:example.org".to_owned(), asked).unwrap_err();
    assert_eq!(
        generic(error),
        ("relations limit is too large".to_owned(), Some("limit=9007199254740992".to_owned()))
    );
    let mut asked = options();
    asked.limit = Some(9007199254740991);
    let request = room().get_event_relations("$event:example.org".to_owned(), asked).unwrap();
    assert_eq!(request.options.limit, Some(9007199254740991));
    assert_eq!(request.options.dir, Direction::Forward);
    assert!(matches!(request.options.include_relations, IncludeRelations::AllRelations));
}

#[test]
fn relations_of_one_type_only() {
    let mut asked = options();
    asked.relation_type = Some("m.thread".to_owned());
    let request = room().get_event_relations("$event:example.org".to_owned(), asked).unwrap();
    match request.options.include_relations {
        IncludeRelations::RelationsOfType(relation_type) => assert_eq!(relation_type, "m.thread"),
        other => panic!("{other:?}"),
    }
}

#[test]
fn relations_of_something_that_is_no_event() {
    let error = room().get_event_relations("event".to_owned(), options()).unwrap_err();
    let expected = ruma::EventId::parse("event").unwrap_err();
    assert_eq!(generic(error), (expected.to_string(), Some(format!("{expected:?}"))));
}

#[test]
fn the_first_event_that_cannot_be_read_spoils_the_relations() {
    let unreadable = |name: &str| RelatedEvent {
        raw_json: "{}".to_owned(),
        details: Err(ForeignError { message: name.to_owned(), debug: name.to_uppercase() }),
        encryption_info: None,
    };
    let error = room()
        .relations_from_reply(RelationsReply {
            chunk: vec![
                RelatedEvent {
                    raw_json: REACTION.to_owned(),
                    details: read(REACTION),
                    encryption_info: None,
                },
                unreadable("first"),
                unreadable("second"),
            ],
            prev_batch_token: None,
            next_batch_token: None,
            recursion_depth: None,
        })
        .unwrap_err();
    assert_eq!(generic(error), ("first".to_owned(), Some("FIRST".to_owned())));
}

#[test]
fn relations_keep_their_order() {
    let relations = room()
        .relations_from_reply(RelationsReply {
            chunk: [REACTION, REDACTION, IGNORED]
                .iter()
                .map(|raw_json| RelatedEvent {
                    raw_json: (*raw_json).to_owned(),
                    details: read(raw_json),
                    encryption_info: None,
                })
                .collect(),
            prev_batch_token: None,
            next_batch_token: None,
            recursion_depth: None,
        })
        .unwrap();
    let types: Vec<&str> = relations.chunk.iter().map(|event| event.event_type.as_str()).collect();
    assert_eq!(types, vec!["m.reaction", "m.room.redaction", "m.room.message"]);
}
