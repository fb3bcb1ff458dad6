use matrix_room::errors::UploadFailure;
use matrix_room::media::{Duration, EncryptedFile, MediaSource, MessageType};
use matrix_room::room::Room;
use matrix_room::sending::{
    map_reply_error, map_reply_error_for_file, map_reply_error_for_video, map_reply_error_for_voice,
    AddMentions, EnforceThread, Outgoing, ReplyError, SendStep,
};
use matrix_room::upload::UploadedMedia;
use matrix_room::uploaded::file::{UploadedFile, UploadedFileInfo};
use matrix_room::uploaded::image::{UploadedImage, UploadedImageInfo};
use matrix_room::uploaded::video::{UploadedVideo, UploadedVideoInfo};
use matrix_room::uploaded::voice::{UploadedVoice, UploadedVoiceInfo};
use matrix_room::uploaded::UploadedThumbnailInfo;

type Step = SendStep<&'static str>;

fn room() -> Room {
    Room {
        room_id: "!room:example.org".to_owned(),
        canonical_alias: None,
        has_utd_hook_manager: false,
    }
}

fn plain(url: &str) -> MediaSource {
    MediaSource::Plain { url: url.to_owned() }
}

fn thumbnail_info() -> UploadedThumbnailInfo {
    UploadedThumbnailInfo { mimetype: "image/jpeg".to_owned(), size: 2, width: 64, height: 48 }
}

fn image() -> UploadedImage {
    UploadedImage {
        schema_version: 1,
        kind: "image".to_owned(),
        is_encrypted: false,
        filename: "cat.png".to_owned(),
        media_source: plain("mxc://example.org/cat"),
        thumbnail_source: Some(plain("mxc://example.org/thumb")),
        image_info: UploadedImageInfo {
            mimetype: "image/png".to_owned(),
            size: 3,
            width: 640,
            height: 480,
            blurhash: Some("hash".to_owned()),
            is_animated: None,
        },
        thumbnail_info: Some(thumbnail_info()),
        original_mimetype: "image/png".to_owned(),
    }
}

fn voice() -> UploadedVoice {
    UploadedVoice {
        schema_version: 1,
        kind: "voice".to_owned(),
        is_encrypted: false,
        filename: "cat.ogg".to_owned(),
        media_source: plain("mxc://example.org/cat"),
        voice_info: UploadedVoiceInfo {
            mimetype: "audio/ogg".to_owned(),
            size: 3,
            duration: Duration { secs: 1, nanos: 0 },
            waveform: vec![0.5f32.to_bits(), 7.0f32.to_bits()],
        },
        original_mimetype: "audio/ogg".to_owned(),
    }
}

fn video() -> UploadedVideo {
    UploadedVideo {
        schema_version: 1,
        kind: "video".to_owned(),
        is_encrypted: false,
        filename: "cat.mp4".to_owned(),
        media_source: plain("mxc://example.org/cat"),
        thumbnail_source: None,
        video_info: UploadedVideoInfo {
            mimetype: "video/mp4".to_owned(),
            size: 3,
            duration: Duration { secs: 5, nanos: 0 },
            width: 640,
            height: 480,
            blurhash: None,
        },
        thumbnail_info: None,
        original_mimetype: "video/mp4".to_owned(),
    }
}

fn file() -> UploadedFile {
    UploadedFile {
        schema_version: 1,
        kind: "file".to_owned(),
        is_encrypted: false,
        filename: "cat.pdf".to_owned(),
        media_source: plain("mxc://example.org/cat"),
        thumbnail_source: None,
        file_info: UploadedFileInfo { mimetype: "application/pdf".to_owned(), size: 3 },
        thumbnail_info: None,
        original_mimetype: "application/pdf".to_owned(),
    }
}

fn send_image(uploaded: UploadedImage, reply: Option<&str>) -> Step {
    room().send_uploaded_image_with_transaction_id_returning_event_id(
        uploaded,
        "txn".to_owned(),
        None,
        Some("<b>cat</b>".to_owned()),
        reply.map(|id| id.to_owned()),
    )
}

fn in_room(step: Step, is_encrypted: bool) -> Step {
    match step {
        SendStep::AskEncryption { next } => next.answer(Ok(is_encrypted)),
        other => panic!("{other:?}"),
    }
}

fn refused(step: Step) -> (String, Option<String>) {
    match step {
        SendStep::Failed { failure: UploadFailure::Validation { msg, details } } => (msg, details),
        other => panic!("{other:?}"),
    }
}

fn sent(step: Step) -> MessageType {
    match step {
        SendStep::Send { content: Outgoing::Message(message), transaction_id } => {
            assert_eq!(transaction_id, "txn");
            message
        }
        other => panic!("{other:?}"),
    }
}

#[test]
fn an_uploaded_image_becomes_an_image_message() {
    match sent(in_room(send_image(image(), None), false)) {
        MessageType::Image(content) => {
            assert_eq!(content.filename, "cat.png");
            assert_eq!(content.caption.as_deref(), Some(""));
            assert_eq!(content.formatted_caption.unwrap().body, "<b>cat</b>");
            assert_eq!(content.source.url(), "mxc://example.org/cat");
            let info = content.info.unwrap();
            assert_eq!((info.width, info.height, info.size), (Some(640), Some(480), Some(3)));
            assert_eq!(info.mimetype.as_deref(), Some("image/png"));
            assert_eq!(info.blurhash.as_deref(), Some("hash"));
            assert_eq!(info.thumbnail_source.unwrap().url(), "mxc://example.org/thumb");
            let thumbnail = info.thumbnail_info.unwrap();
            assert_eq!((thumbnail.width, thumbnail.height), (Some(64), Some(48)));
            assert_eq!(thumbnail.mimetype.as_deref(), Some("image/jpeg"));
            assert_eq!(thumbnail.size, Some(2));
        }
        other => panic!("{other:?}"),
    }
}

#[test]
fn an_uploaded_voice_message_becomes_an_audio_message() {
    let step: Step = room().send_uploaded_voice_with_transaction_id_returning_event_id(
        voice(),
        "txn".to_owned(),
        None,
    );
    match sent(in_room(step, false)) {
        MessageType::Audio(content) => {
            assert!(content.voice.is_some());
            assert!(content.caption.is_none() && content.formatted_caption.is_none());
            let audio = content.audio.unwrap();
            assert_eq!(audio.duration, Duration { secs: 1, nanos: 0 });
            assert_eq!(audio.waveform, vec![512, 1024]);
            assert_eq!(content.info.unwrap().size, Some(3));
        }
        other => panic!("{other:?}"),
    }
}

#[test]
fn an_uploaded_video_becomes_a_video_message() {
    let step: Step = room().send_uploaded_video_with_transaction_id_returning_event_id(
        video(),
        "txn".to_owned(),
        Some("cat".to_owned()),
        None,
        None,
    );
    match sent(in_room(step, false)) {
        MessageType::Video(content) => {
            assert_eq!(content.caption.as_deref(), Some("cat"));
            let info = content.info.unwrap();
            assert_eq!(info.duration, Some(Duration { secs: 5, nanos: 0 }));
            assert!(info.thumbnail_info.is_none() && info.thumbnail_source.is_none());
        }
        other => panic!("{other:?}"),
    }
}

#[test]
fn an_uploaded_file_becomes_a_file_message() {
    let step: Step = room().send_uploaded_file_with_transaction_id_returning_event_id(
        file(),
        "txn".to_owned(),
        None,
        None,
        None,
    );
    match sent(in_room(step, false)) {
        MessageType::File(content) => {
            assert_eq!(content.filename, "cat.pdf");
            assert_eq!(content.info.unwrap().mimetype.as_deref(), Some("application/pdf"));
        }
        other => panic!("{other:?}"),
    }
}

#[test]
fn media_stays_in_rooms_of_its_kind() {
    assert_eq!(
        refused(in_room(send_image(image(), None), true)),
        (
            "Uploaded image encryption mismatch: uploaded is_encrypted=false, current room is_encrypted=true"
                .to_owned(),
            None
        )
    );
    let mut uploaded = voice();
    uploaded.is_encrypted = true;
    uploaded.media_source = MediaSource::Encrypted {
        file: EncryptedFile { url: "mxc://example.org/cat".to_owned(), json: "{}".to_owned() },
    };
    let step: Step = room().send_uploaded_voice_with_transaction_id_returning_event_id(
        uploaded,
        "txn".to_owned(),
        None,
    );
    assert_eq!(
        refused(in_room(step, false)).0,
        "Uploaded voice encryption mismatch: uploaded is_encrypted=true, current room is_encrypted=false"
    );
}

#[test]
fn a_room_that_does_not_answer() {
    let step: Step = match send_image(image(), None) {
        SendStep::AskEncryption { next } => next.answer(Err(UploadFailure::Retryable {
            msg: "offline".to_owned(),
            details: None,
        })),
        other => panic!("{other:?}"),
    };
    assert!(matches!(step, SendStep::Failed { failure: UploadFailure::Retryable { .. } }));
}

#[test]
fn a_reply_is_built_before_it_is_sent() {
    let step = in_room(send_image(image(), Some("$event:example.org")), false);
    let step: Step = match step {
        SendStep::MakeReply { message, reply, next } => {
            assert!(matches!(message, MessageType::Image(_)));
            assert_eq!(reply.event_id.as_str(), "$event:example.org");
            assert_eq!(reply.enforce_thread, EnforceThread::MaybeThreaded);
            assert_eq!(reply.add_mentions, AddMentions::Yes);
            next.answer(Ok("the reply"))
        }
        other => panic!("{other:?}"),
    };
    match step {
        SendStep::Send { content: Outgoing::Reply(reply), transaction_id } => {
            assert_eq!((reply, transaction_id.as_str()), ("the reply", "txn"));
        }
        other => panic!("{other:?}"),
    }
}

#[test]
fn a_reply_to_something_that_is_no_event() {
    let expected = ruma::EventId::parse("event").unwrap_err();
    assert_eq!(
        refused(in_room(send_image(image(), Some("event")), false)),
        (expected.to_string(), Some(format!("{expected:?}")))
    );
}

#[test]
fn a_reply_that_cannot_be_built() {
    let step = in_room(send_image(image(), Some("$event:example.org")), false);
    let step: Step = match step {
        SendStep::MakeReply { next, .. } => {
            next.answer(Err((ReplyError::StateEvent, "StateEvent".to_owned())))
        }
        other => panic!("{other:?}"),
    };
    assert_eq!(
        refused(step),
        ("Cannot reply to a state event".to_owned(), Some("StateEvent".to_owned()))
    );
}

#[test]
fn only_a_failed_fetch_may_pass() {
    let failures = |error: ReplyError| {
        vec![
            map_reply_error(error, "why".to_owned()).failure,
            map_reply_error_for_voice(error, "why".to_owned()).failure,
            map_reply_error_for_video(error, "why".to_owned()).failure,
            map_reply_error_for_file(error, "why".to_owned()).failure,
        ]
    };
    for failure in failures(ReplyError::Fetch) {
        match failure {
            UploadFailure::Retryable { msg, details } => {
                assert_eq!(msg, "Failed to fetch replied-to event");
                assert_eq!(details.as_deref(), Some("why"));
            }
            other => panic!("{other:?}"),
        }
    }
    for failure in failures(ReplyError::Deserialization) {
        match failure {
            UploadFailure::Validation { msg, .. } => {
                assert_eq!(msg, "Failed to deserialize replied-to event")
            }
            other => panic!("{other:?}"),
        }
    }
    for failure in failures(ReplyError::StateEvent) {
        match failure {
            UploadFailure::Validation { msg, .. } => assert_eq!(msg, "Cannot reply to a state event"),
            other => panic!("{other:?}"),
        }
    }
}

#[test]
fn records_at_fault_are_refused() {
    let mut uploaded = image();
    uploaded.schema_version = 2;
    assert_eq!(refused(send_image(uploaded, None)).0, "Unsupported UploadedImage schema_version: 2");
    let mut uploaded = image();
    uploaded.kind = "voice".to_owned();
    assert_eq!(refused(send_image(uploaded, None)).0, "Unsupported UploadedImage kind: voice");
    let mut uploaded = image();
    uploaded.filename = String::new();
    assert_eq!(refused(send_image(uploaded, None)).0, "UploadedImage filename is empty");
    let mut uploaded = image();
    uploaded.image_info.width = 0;
    assert_eq!(refused(send_image(uploaded, None)).0, "image_info.width must be greater than 0");
    let mut uploaded = image();
    uploaded.original_mimetype = "image/gif".to_owned();
    assert_eq!(
        refused(send_image(uploaded, None)).0,
        "UploadedImage image_info.mimetype does not match original_mimetype"
    );
    let mut uploaded = image();
    uploaded.thumbnail_info = None;
    assert_eq!(
        refused(send_image(uploaded, None)).0,
        "UploadedImage thumbnail_source is present without thumbnail_info"
    );
    let mut uploaded = image();
    uploaded.thumbnail_source = None;
    assert_eq!(
        refused(send_image(uploaded, None)).0,
        "UploadedImage thumbnail_info is present without thumbnail_source"
    );
    let mut uploaded = image();
    uploaded.media_source = plain("https://example.org/cat");
    assert_eq!(refused(send_image(uploaded, None)).0, "Invalid media_source");
    let mut uploaded = image();
    uploaded.is_encrypted = true;
    assert_eq!(
        refused(send_image(uploaded, None)).0,
        "media_source encryption mismatch: source is_encrypted=false, UploadedImage is_encrypted=true"
    );
}

#[test]
fn a_place_that_cannot_be_judged_is_not_judged() {
    let endless = || plain(&format!("mxc://{}/cat", "a".repeat(250)));
    let mut uploaded = image();
    uploaded.media_source = endless();
    assert!(uploaded.check().is_none());
    let step: Option<Step> = room().send_uploaded_media(
        UploadedMedia::Image(uploaded),
        "txn".to_owned(),
        None,
        None,
        None,
    );
    assert!(step.is_none());
    let mut uploaded = image();
    uploaded.media_source = endless();
    uploaded.filename = String::new();
    assert!(matches!(uploaded.check(), Some(Err(_))));
    let mut uploaded = image();
    uploaded.media_source = endless();
    uploaded.is_encrypted = true;
    assert!(matches!(uploaded.check(), Some(Err(_))));
    let mut uploaded = image();
    uploaded.thumbnail_source = Some(endless());
    assert!(uploaded.check().is_none());
    uploaded.thumbnail_info = None;
    assert!(matches!(uploaded.check(), Some(Err(_))));
    let mut uploaded = voice();
    uploaded.media_source = endless();
    assert!(uploaded.check().is_none());
}

#[test]
fn media_of_every_kind_goes_one_way() {
    let every = vec![
        (UploadedMedia::Image(image()), Some("cat")),
        (UploadedMedia::Voice(voice()), None),
        (UploadedMedia::Video(video()), Some("cat")),
        (UploadedMedia::File(file()), Some("cat")),
    ];
    for (media, expected) in every {
        let step: Step = room()
            .send_uploaded_media(media, "txn".to_owned(), Some("cat".to_owned()), None, None)
            .unwrap();
        let caption = match sent(in_room(step, false)) {
            MessageType::Image(content) => content.caption,
            MessageType::Audio(content) => content.caption,
            MessageType::Video(content) => content.caption,
            MessageType::File(content) => content.caption,
        };
        assert_eq!(caption.as_deref(), expected);
    }
}

#[test]
fn accepted_records_validate() {
    assert!(matches!(video().check(), Some(Ok(()))));
    assert!(matches!(file().check(), Some(Ok(()))));
    assert!(image().validate().is_ok());
    assert!(voice().validate().is_ok());
    assert!(video().validate().is_ok());
    assert!(file().validate().is_ok());
    let mut silent = voice();
    silent.voice_info.duration = Duration { secs: 0, nanos: 0 };
    assert!(silent.validate().is_err());
    let mut empty = video();
    empty.video_info.size = 0;
    assert!(empty.validate().is_err());
    let mut wrong = file();
    wrong.kind = "image".to_owned();
    assert!(wrong.validate().is_err());
}
