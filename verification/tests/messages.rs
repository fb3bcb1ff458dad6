use matrix_room::errors::{ClientError, ForeignError};
use matrix_room::messages::{refuse_content, MessageStep};
use matrix_room::room::Room;
use matrix_room::sending::Outgoing;

type Step = MessageStep<&'static str, &'static str>;

fn room() -> Room {
    Room {
        room_id: "!room:example.org".to_owned(),
        canonical_alias: None,
        has_utd_hook_manager: false,
    }
}

fn generic(error: ClientError) -> (String, Option<String>) {
    match error {
        ClientError::Generic { msg, details } => (msg, details),
        ClientError::Room(error) => panic!("{error:?}"),
    }
}

fn not_json() -> (String, Option<String>) {
    let error = serde_json::from_str::<serde_json::Value>("{oops").unwrap_err();
    (format!("Failed to parse JSON: {error}"), Some(format!("{error:?}")))
}

#[test]
fn raw_content_is_json() {
    let room = room();
    let message = room.send_raw("m.test".to_owned(), "{\"a\":1}".to_owned()).unwrap();
    assert_eq!(message.event_type, "m.test");
    assert_eq!(message.content, "{\"a\":1}");
    assert_eq!(message.transaction_id, None);
    let message = room
        .send_raw_with_transaction_id("m.test".to_owned(), "[]".to_owned(), "txn".to_owned())
        .unwrap();
    assert_eq!(message.transaction_id.as_deref(), Some("txn"));
    let message = room
        .send_raw_with_transaction_id_returning_event_id(
            "m.test".to_owned(),
            "null".to_owned(),
            "txn".to_owned(),
        )
        .unwrap();
    assert_eq!(message.content, "null");
    let event = room
        .send_state_event_raw("m.room.name".to_owned(), "key".to_owned(), "{}".to_owned())
        .unwrap();
    assert_eq!((event.state_key.as_str(), event.content.as_str()), ("key", "{}"));
}

#[test]
fn raw_content_that_is_not_json() {
    let room = room();
    let bad = || "{oops".to_owned();
    assert_eq!(generic(room.send_raw("m.test".to_owned(), bad()).unwrap_err()), not_json());
    assert_eq!(
        generic(
            room.send_raw_with_transaction_id("m.test".to_owned(), bad(), "txn".to_owned())
                .unwrap_err()
        ),
        not_json()
    );
    assert_eq!(
        generic(
            room.send_raw_with_transaction_id_returning_event_id(
                "m.test".to_owned(),
                bad(),
                "txn".to_owned()
            )
            .unwrap_err()
        ),
        not_json()
    );
    assert_eq!(
        generic(
            room.send_state_event_raw("m.room.name".to_owned(), String::new(), bad()).unwrap_err()
        ),
        not_json()
    );
    assert!(refuse_content(None).is_ok());
    let error = ForeignError { message: "why".to_owned(), debug: "WHY".to_owned() };
    assert_eq!(
        generic(refuse_content(Some(error)).unwrap_err()),
        ("Failed to parse JSON: why".to_owned(), Some("WHY".to_owned()))
    );
}

#[test]
fn a_message_goes_out_at_once() {
    let step: Step = room().send_message_type_with_transaction_id_returning_event_id(
        Ok("hello"),
        "txn".to_owned(),
        None,
    );
    match step {
        MessageStep::Send { content: Outgoing::Message(message), transaction_id } => {
            assert_eq!((message, transaction_id.as_str()), ("hello", "txn"));
        }
        other => panic!("{other:?}"),
    }
}

#[test]
fn a_message_that_answers_an_event() {
    let step: Step = room().send_message_type_with_transaction_id_returning_event_id(
        Ok("hello"),
        "txn".to_owned(),
        Some("$event:example.org".to_owned()),
    );
    let next = match step {
        MessageStep::MakeReply { message, reply, next } => {
            assert_eq!(message, "hello");
            assert_eq!(reply.event_id.as_str(), "$event:example.org");
            next
        }
        other => panic!("{other:?}"),
    };
    match next.answer::<&'static str, &'static str>(Ok("reply")) {
        MessageStep::Send { content: Outgoing::Reply(reply), transaction_id } => {
            assert_eq!((reply, transaction_id.as_str()), ("reply", "txn"));
        }
        other => panic!("{other:?}"),
    }
}

#[test]
fn messages_that_cannot_be_sent() {
    let failed = |step: Step| match step {
        MessageStep::Failed { error } => generic(error).0,
        other => panic!("{other:?}"),
    };
    let built = || Err(ClientError::Generic { msg: "no message".to_owned(), details: None });
    assert_eq!(
        failed(room().send_message_type_with_transaction_id_returning_event_id(
            built(),
            "txn".to_owned(),
            Some("event".to_owned()),
        )),
        "no message"
    );
    assert_eq!(
        failed(room().send_message_type_with_transaction_id_returning_event_id(
            Ok("hello"),
            "txn".to_owned(),
            Some("event".to_owned()),
        )),
        ruma::EventId::parse("event").unwrap_err().to_string()
    );
    let step: Step = room().send_message_type_with_transaction_id_returning_event_id(
        Ok("hello"),
        "txn".to_owned(),
        Some("$event:example.org".to_owned()),
    );
    let step: Step = match step {
        MessageStep::MakeReply { next, .. } => next.answer(Err(ForeignError {
            message: "no reply".to_owned(),
            debug: "NoReply".to_owned(),
        })),
        other => panic!("{other:?}"),
    };
    assert_eq!(failed(step), "no reply");
}

#[test]
fn redactions_and_reports() {
    let room = room();
    let event = || "$event:example.org".to_owned();
    let redaction = room.redact(event(), Some("spam".to_owned())).unwrap();
    assert_eq!(redaction.event_id.as_str(), "$event:example.org");
    assert_eq!(redaction.reason.as_deref(), Some("spam"));
    assert_eq!(redaction.transaction_id, None);
    let redaction = room
        .redact_with_transaction_id_returning_event_id(event(), None, "txn".to_owned())
        .unwrap();
    assert_eq!(redaction.transaction_id.as_deref(), Some("txn"));
    let report = room.report_content(event(), None).unwrap();
    assert_eq!(report.event_id.as_str(), "$event:example.org");
    assert!(room.redact("event".to_owned(), None).is_err());
    assert!(room
        .redact_with_transaction_id_returning_event_id(
            "event".to_owned(),
            None,
            "txn".to_owned()
        )
        .is_err());
    assert!(room.report_content("event".to_owned(), None).is_err());
}
