use matrix_room::drafts::{
    optional_event, read_upload_source, take_source, AttachmentContents, ComposerDraft,
    ComposerDraftType, DraftAttachment, DraftAttachmentContent, DraftThumbnail, SdkComposerDraft,
    SdkComposerDraftType, SdkDraftAttachment, SourceFile, UploadSource,
};
use matrix_room::errors::ClientError;
use matrix_room::ids::EventId;
use matrix_room::media::{AudioInfo, Duration, FileInfo, ImageInfo, ThumbnailInfo};
use matrix_room::room::Room;

fn room() -> Room {
    Room {
        room_id: "!room:example.org".to_owned(),
        canonical_alias: None,
        has_utd_hook_manager: false,
    }
}

fn no_files() -> AttachmentContents {
    AttachmentContents { source: None, thumbnail: None }
}

fn message_of(error: ClientError) -> String {
    match error {
        ClientError::Generic { msg, .. } => msg,
        ClientError::Room(error) => panic!("{error:?}"),
    }
}

fn stored_draft() -> SdkComposerDraft {
    SdkComposerDraft {
        plain_text: "hello".to_owned(),
        html_text: Some("<b>hello</b>".to_owned()),
        draft_type: SdkComposerDraftType::Reply {
            event_id: EventId::parse("$event:example.org").unwrap(),
        },
        attachments: vec![
            SdkDraftAttachment {
                filename: "cat.png".to_owned(),
                content: DraftAttachmentContent::Image {
                    data: vec![1, 2, 3],
                    mimetype: Some("image/png".to_owned()),
                    size: Some(3),
                    width: Some(640),
                    height: Some(480),
                    blurhash: Some("hash".to_owned()),
                    thumbnail: Some(DraftThumbnail {
                        filename: "thumb.jpg".to_owned(),
                        data: vec![7],
                        mimetype: Some("image/jpeg".to_owned()),
                        width: Some(64),
                        height: Some(48),
                        size: Some(1),
                    }),
                },
            },
            SdkDraftAttachment {
                filename: "cat.mp4".to_owned(),
                content: DraftAttachmentContent::Video {
                    data: vec![4],
                    mimetype: None,
                    size: None,
                    width: Some(1),
                    height: Some(2),
                    duration: Some(Duration { secs: 5, nanos: 0 }),
                    blurhash: None,
                    thumbnail: None,
                },
            },
            SdkDraftAttachment {
                filename: "cat.ogg".to_owned(),
                content: DraftAttachmentContent::Audio {
                    data: vec![5],
                    mimetype: Some("audio/ogg".to_owned()),
                    size: Some(1),
                    duration: None,
                },
            },
            SdkDraftAttachment {
                filename: "cat.pdf".to_owned(),
                content: DraftAttachmentContent::File { data: vec![6], mimetype: None, size: Some(1) },
            },
        ],
    }
}

#[test]
fn a_draft_survives() {
    let before = format!("{:?}", stored_draft());
    let shown = ComposerDraft::from(stored_draft());
    assert!(matches!(
        &shown.draft_type,
        ComposerDraftType::Reply { event_id } if event_id == "$event:example.org"
    ));
    assert_eq!(shown.attachments.len(), 4);
    let files = shown.attachments.iter().map(|_| no_files()).collect();
    let again = SdkComposerDraft::try_from(shown, files).unwrap();
    assert_eq!(format!("{again:?}"), before);
}

#[test]
fn a_stored_image_is_shown_with_its_thumbnail() {
    let stored = stored_draft().attachments.remove(0);
    match DraftAttachment::from(stored) {
        DraftAttachment::Image { image_info, source, thumbnail_source } => {
            assert_eq!(image_info.width, Some(640));
            assert!(image_info.thumbnail_source.is_none());
            assert_eq!(image_info.thumbnail_info.unwrap().height, Some(48));
            match source {
                UploadSource::Data { bytes, filename } => {
                    assert_eq!((bytes, filename.as_str()), (vec![1, 2, 3], "cat.png"));
                }
                other => panic!("{other:?}"),
            }
            match thumbnail_source {
                Some(UploadSource::Data { bytes, filename }) => {
                    assert_eq!((bytes, filename.as_str()), (vec![7], "thumb.jpg"));
                }
                other => panic!("{other:?}"),
            }
        }
        other => panic!("{other:?}"),
    }
}

#[test]
fn sources_that_are_files() {
    let file = |path: &str| UploadSource::File { filename: path.to_owned() };
    assert_eq!(
        read_upload_source(file("/pictures/cat.png"), Some(vec![1])).unwrap(),
        (vec![1], "cat.png".to_owned())
    );
    assert_eq!(
        message_of(read_upload_source(file("/pictures/.."), Some(vec![1])).unwrap_err()),
        "Invalid attachment path"
    );
    assert_eq!(
        message_of(read_upload_source(file("/pictures/cat.png"), None).unwrap_err()),
        "Could not load file"
    );
    let data = UploadSource::Data { bytes: vec![9], filename: "given".to_owned() };
    assert_eq!(read_upload_source(data, None).unwrap(), (vec![9], "given".to_owned()));
    let named = SourceFile { file_name: Some("b".to_owned()), contents: Some(vec![2]) };
    assert_eq!(take_source(file("/a"), named).unwrap(), (vec![2], "b".to_owned()));
}

#[test]
fn files_keep_their_names() {
    let attachment = DraftAttachment::File {
        file_info: FileInfo {
            mimetype: None,
            size: None,
            thumbnail_info: None,
            thumbnail_source: None,
        },
        source: UploadSource::File { filename: "notes.txt".to_owned() },
    };
    let contents = AttachmentContents { source: Some(vec![3]), thumbnail: None };
    let stored = SdkDraftAttachment::try_from(attachment, contents).unwrap();
    assert_eq!(stored.filename, "notes.txt");
}

#[test]
fn attachments_in_files() {
    let stored = SdkDraftAttachment::try_from(
        DraftAttachment::Audio {
            audio_info: AudioInfo { duration: None, size: None, mimetype: None },
            source: UploadSource::File { filename: "/voices/cat.ogg".to_owned() },
        },
        AttachmentContents { source: Some(vec![1, 2]), thumbnail: None },
    )
    .unwrap();
    assert_eq!(stored.filename, "cat.ogg");
    assert!(matches!(stored.content, DraftAttachmentContent::Audio { data, .. } if data == [1, 2]));
}

fn picture(info: Option<ThumbnailInfo>, thumbnail: Option<UploadSource>) -> DraftAttachment {
    DraftAttachment::Image {
        image_info: ImageInfo {
            height: None,
            width: None,
            mimetype: None,
            size: None,
            thumbnail_info: info,
            thumbnail_source: None,
            blurhash: None,
            is_animated: Some(true),
        },
        source: UploadSource::Data { bytes: vec![1], filename: "cat.gif".to_owned() },
        thumbnail_source: thumbnail,
    }
}

fn thumbnail_info() -> ThumbnailInfo {
    ThumbnailInfo { height: None, width: None, mimetype: None, size: None }
}

#[test]
fn a_thumbnail_is_stored_with_its_description_only() {
    let stored_thumbnail = |attachment: DraftAttachment| {
        let stored = SdkDraftAttachment::try_from(attachment, no_files()).unwrap();
        match stored.content {
            DraftAttachmentContent::Image { thumbnail, .. } => thumbnail,
            other => panic!("{other:?}"),
        }
    };
    let data = || UploadSource::Data { bytes: vec![7], filename: "thumb".to_owned() };
    assert!(stored_thumbnail(picture(Some(thumbnail_info()), Some(data()))).is_some());
    assert!(stored_thumbnail(picture(None, Some(data()))).is_none());
    assert!(stored_thumbnail(picture(Some(thumbnail_info()), None)).is_none());
    let file = UploadSource::File { filename: "/thumbs/a".to_owned() };
    assert!(stored_thumbnail(picture(None, Some(file))).is_none());
}

#[test]
fn a_thumbnail_that_cannot_be_read() {
    let error = |path: &str| {
        let file = UploadSource::File { filename: path.to_owned() };
        let attachment = picture(Some(thumbnail_info()), Some(file));
        message_of(SdkDraftAttachment::try_from(attachment, no_files()).unwrap_err())
    };
    assert_eq!(error("/thumbs/a"), "Could not load file");
    assert_eq!(error("/"), "Invalid attachment path");
}

#[test]
fn the_first_attachment_that_cannot_be_stored_spoils_the_draft() {
    let audio = DraftAttachment::Audio {
        audio_info: AudioInfo { duration: None, size: None, mimetype: None },
        source: UploadSource::File { filename: "/a/b".to_owned() },
    };
    let file = DraftAttachment::File {
        file_info: FileInfo {
            mimetype: None,
            size: None,
            thumbnail_info: None,
            thumbnail_source: None,
        },
        source: UploadSource::File { filename: "/".to_owned() },
    };
    let draft = |draft_type: ComposerDraftType, attachments: Vec<DraftAttachment>| ComposerDraft {
        plain_text: String::new(),
        html_text: None,
        draft_type,
        attachments,
    };
    let error = SdkComposerDraft::try_from(
        draft(ComposerDraftType::NewMessage, vec![audio, file]),
        vec![no_files(), no_files()],
    )
    .unwrap_err();
    assert_eq!(message_of(error), "Could not load file");
    let error = SdkComposerDraft::try_from(
        draft(ComposerDraftType::Edit { event_id: "event".to_owned() }, vec![]),
        vec![],
    )
    .unwrap_err();
    assert_eq!(message_of(error), ruma::EventId::parse("event").unwrap_err().to_string());
}

#[test]
fn drafts_of_rooms_and_threads() {
    let draft = || ComposerDraft::from(stored_draft());
    let files = || (0..4).map(|_| no_files()).collect::<Vec<AttachmentContents>>();
    let saved = room().save_composer_draft(draft(), None, files()).unwrap();
    assert!(saved.thread_root.is_none());
    let saved = room()
        .save_composer_draft(draft(), Some("$root:example.org".to_owned()), files())
        .unwrap();
    assert_eq!(saved.thread_root.unwrap().as_str(), "$root:example.org");
    assert!(room().save_composer_draft(draft(), Some("root".to_owned()), files()).is_err());
    assert!(optional_event(None).unwrap().is_none());
    assert!(optional_event(Some("root".to_owned())).is_err());
}

#[test]
fn what_a_draft_is_for() {
    assert!(matches!(
        ComposerDraftType::from(SdkComposerDraftType::NewMessage),
        ComposerDraftType::NewMessage
    ));
    let edit = ComposerDraftType::Edit { event_id: "$event:example.org".to_owned() };
    match SdkComposerDraftType::try_from(edit).unwrap() {
        SdkComposerDraftType::Edit { event_id } => assert_eq!(event_id.as_str(), "$event:example.org"),
        other => panic!("{other:?}"),
    }
    let reply = || ComposerDraftType::Reply { event_id: "event".to_owned() };
    assert!(reply().check().is_err());
    assert!(SdkComposerDraftType::try_from(reply()).is_err());
    assert!(ComposerDraftType::NewMessage.check().is_ok());
}

#[test]
fn only_needed_files_are_read() {
    let file = |name: &str| UploadSource::File { filename: name.to_owned() };
    let needs = picture(None, Some(file("/thumbs/a"))).files_to_read();
    assert!(needs.source.is_none() && needs.thumbnail.is_none());
    let needs = picture(Some(thumbnail_info()), Some(file("/thumbs/a"))).files_to_read();
    assert_eq!(needs.thumbnail.as_deref(), Some("/thumbs/a"));
    let audio = DraftAttachment::Audio {
        audio_info: AudioInfo { duration: None, size: None, mimetype: None },
        source: file("/a/b"),
    };
    assert_eq!(audio.files_to_read().source.as_deref(), Some("/a/b"));
}

#[test]
fn attachments_survive() {
    for index in 0..4 {
        let stored = || stored_draft().attachments.remove(index);
        let again =
            SdkDraftAttachment::try_from(DraftAttachment::from(stored()), no_files()).unwrap();
        assert_eq!(format!("{again:?}"), format!("{:?}", stored()));
    }
}
