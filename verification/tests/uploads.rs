use matrix_room::errors::UploadFailure;
use matrix_room::local_files::FileStat;
use matrix_room::media::{Duration, EncryptedFile, MediaSource};
use matrix_room::room::Room;
use matrix_room::upload::{UploadContent, UploadStep, UploadTrouble, UploadedMedia};
use matrix_room::uploaded::SourceVerdicts;

fn room() -> Room {
    Room {
        room_id: "!room:example.org".to_owned(),
        canonical_alias: None,
        has_utd_hook_manager: false,
    }
}

fn image(with_thumbnail: bool) -> UploadStep {
    let given = |value: u64| if with_thumbnail { Some(value) } else { None };
    room().upload_image_for_event(
        "/pictures/cat.png".to_owned(),
        if with_thumbnail { Some("/thumbs/cat.jpg".to_owned()) } else { None },
        "image/png".to_owned(),
        3,
        640,
        480,
        if with_thumbnail { Some("image/jpeg".to_owned()) } else { None },
        given(2),
        given(64),
        given(48),
        Some("hash".to_owned()),
    )
}

fn video(with_thumbnail: bool) -> UploadStep {
    let given = |value: u64| if with_thumbnail { Some(value) } else { None };
    room().upload_video_for_event(
        "/clips/cat.mp4".to_owned(),
        if with_thumbnail { Some("/thumbs/cat.jpg".to_owned()) } else { None },
        "video/mp4".to_owned(),
        3,
        Duration { secs: 5, nanos: 0 },
        640,
        480,
        if with_thumbnail { Some("image/jpeg".to_owned()) } else { None },
        given(2),
        given(64),
        given(48),
        None,
    )
}

fn refused(step: UploadStep) -> (String, Option<String>) {
    match step {
        UploadStep::Done { result: Err(UploadFailure::Validation { msg, details }) } => {
            (msg, details)
        }
        other => panic!("{other:?}"),
    }
}

/// Carries an upload out on a file system in which every file has the size that its path says, and
/// writes down what was done.
fn carry_out(first: UploadStep, is_encrypted: bool) -> (Vec<String>, Result<UploadedMedia, UploadFailure>) {
    let bytes_of = |path: &str| if path.starts_with("/thumbs") { vec![7, 7] } else { vec![1, 2, 3] };
    let mut done: Vec<String> = Vec::new();
    let mut step = first;
    loop {
        step = match step {
            UploadStep::Stat { path, next } => {
                done.push(format!("stat {path}"));
                let len = bytes_of(&path).len() as u64;
                next.answer(Ok(FileStat { is_file: true, len }))
            }
            UploadStep::Read { path, next } => {
                done.push(format!("read {path}"));
                next.answer(Ok(bytes_of(&path)))
            }
            UploadStep::AskEncryption { next } => {
                done.push("ask".to_owned());
                next.answer(Ok(is_encrypted))
            }
            UploadStep::UploadEncrypted { content, next } => {
                let name = content_name(&content);
                done.push(format!("encrypt {name}"));
                next.answer(Ok(EncryptedFile {
                    url: format!("mxc://example.org/{}", done.len()),
                    json: "{}".to_owned(),
                }))
            }
            UploadStep::UploadPlain { content_type, content, next } => {
                let name = content_name(&content);
                done.push(format!("upload {name} as {content_type}"));
                next.answer(Ok(format!("mxc://example.org/{}", done.len())))
            }
            UploadStep::Done { result } => return (done, result),
        };
    }
}

fn content_name(content: &UploadContent) -> String {
    match content {
        UploadContent::Bytes(bytes) => format!("{} bytes", bytes.len()),
        UploadContent::File(path) => path.clone(),
    }
}

fn accepted(record: &UploadedMedia) {
    let verdicts = SourceVerdicts { media: None, thumbnail: None };
    assert!(record.validate_with(&verdicts).is_ok());
}

#[test]
fn an_image_goes_before_its_thumbnail() {
    let (done, result) = carry_out(image(true), false);
    assert_eq!(
        done,
        vec![
            "stat /pictures/cat.png",
            "read /pictures/cat.png",
            "stat /thumbs/cat.jpg",
            "read /thumbs/cat.jpg",
            "ask",
            "upload 3 bytes as image/png",
            "upload 2 bytes as image/jpeg",
        ]
    );
    let record = result.unwrap();
    accepted(&record);
    match record {
        UploadedMedia::Image(image) => {
            assert_eq!(image.schema_version, 1);
            assert_eq!(image.kind, "image");
            assert!(!image.is_encrypted);
            assert_eq!(image.filename, "cat.png");
            assert_eq!(image.media_source.url(), "mxc://example.org/6");
            assert_eq!(image.thumbnail_source.unwrap().url(), "mxc://example.org/7");
            assert_eq!(image.image_info.size, 3);
            assert_eq!((image.image_info.width, image.image_info.height), (640, 480));
            assert_eq!(image.image_info.blurhash.as_deref(), Some("hash"));
            assert_eq!(image.image_info.is_animated, None);
            let info = image.thumbnail_info.unwrap();
            assert_eq!((info.size, info.width, info.height), (2, 64, 48));
            assert_eq!(info.mimetype, "image/jpeg");
            assert_eq!(image.original_mimetype, "image/png");
        }
        other => panic!("{other:?}"),
    }
}

#[test]
fn an_image_without_a_thumbnail() {
    let (done, result) = carry_out(image(false), true);
    assert_eq!(
        done,
        vec!["stat /pictures/cat.png", "read /pictures/cat.png", "ask", "encrypt 3 bytes"]
    );
    let record = result.unwrap();
    accepted(&record);
    match record {
        UploadedMedia::Image(image) => {
            assert!(image.is_encrypted);
            assert!(matches!(image.media_source, MediaSource::Encrypted { .. }));
            assert!(image.thumbnail_source.is_none() && image.thumbnail_info.is_none());
        }
        other => panic!("{other:?}"),
    }
}

#[test]
fn a_video_goes_after_its_thumbnail() {
    let (done, result) = carry_out(video(true), true);
    assert_eq!(
        done,
        vec![
            "stat /clips/cat.mp4",
            "stat /thumbs/cat.jpg",
            "read /thumbs/cat.jpg",
            "ask",
            "encrypt 2 bytes",
            "encrypt /clips/cat.mp4",
        ]
    );
    let record = result.unwrap();
    accepted(&record);
    match record {
        UploadedMedia::Video(video) => {
            assert_eq!(video.kind, "video");
            assert_eq!(video.media_source.url(), "mxc://example.org/6");
            assert_eq!(video.thumbnail_source.unwrap().url(), "mxc://example.org/5");
            assert_eq!(video.video_info.duration, Duration { secs: 5, nanos: 0 });
        }
        other => panic!("{other:?}"),
    }
}

#[test]
fn a_file_is_uploaded_from_its_path() {
    let first = room().upload_file_for_event(
        "/documents/cat.pdf".to_owned(),
        None,
        "application/pdf".to_owned(),
        3,
        None,
        None,
        None,
        None,
    );
    let (done, result) = carry_out(first, false);
    assert_eq!(
        done,
        vec!["stat /documents/cat.pdf", "ask", "upload /documents/cat.pdf as application/pdf"]
    );
    let record = result.unwrap();
    accepted(&record);
    match record {
        UploadedMedia::File(file) => {
            assert_eq!(file.kind, "file");
            assert_eq!(file.filename, "cat.pdf");
            assert_eq!(file.file_info.size, 3);
            assert_eq!(file.file_info.mimetype, "application/pdf");
        }
        other => panic!("{other:?}"),
    }
}

#[test]
fn a_voice_message_is_read_ahead() {
    let first = room().upload_voice_for_event(
        "/voices/cat.ogg".to_owned(),
        "audio/ogg".to_owned(),
        3,
        Duration { secs: 1, nanos: 500 },
        vec![0.5f32.to_bits()],
    );
    let (done, result) = carry_out(first, false);
    assert_eq!(
        done,
        vec!["stat /voices/cat.ogg", "read /voices/cat.ogg", "ask", "upload 3 bytes as audio/ogg"]
    );
    let record = result.unwrap();
    accepted(&record);
    match record {
        UploadedMedia::Voice(voice) => {
            assert_eq!(voice.kind, "voice");
            assert_eq!(voice.voice_info.waveform, vec![0.5f32.to_bits()]);
        }
        other => panic!("{other:?}"),
    }
}

#[test]
fn descriptions_at_fault_end_an_upload() {
    let upload = |path: &str, mimetype: &str, size: u64, width: u64, height: u64| {
        refused(room().upload_image_for_event(
            path.to_owned(),
            None,
            mimetype.to_owned(),
            size,
            width,
            height,
            None,
            None,
            None,
            None,
            None,
        ))
        .0
    };
    assert_eq!(
        upload("/", "video/mp4", 0, 0, 0),
        "original_mimetype must be image/*, got video/mp4"
    );
    assert_eq!(upload("/", "image/png", 0, 0, 0), "original_size must be greater than 0");
    assert_eq!(upload("/", "image/png", 1, 0, 0), "original_width must be greater than 0");
    assert_eq!(upload("/", "image/png", 1, 1, 0), "original_height must be greater than 0");
    assert_eq!(
        upload("/", "image/png", 1, 1, 1),
        "original_file_path must contain a valid UTF-8 file name"
    );
    let voice = |size: u64, duration: Duration, sample: f32| {
        refused(room().upload_voice_for_event(
            "/".to_owned(),
            "audio/ogg".to_owned(),
            size,
            duration,
            vec![sample.to_bits()],
        ))
        .0
    };
    let empty = Duration { secs: 0, nanos: 0 };
    let second = Duration { secs: 1, nanos: 0 };
    assert_eq!(voice(0, empty, f32::NAN), "size must be greater than 0");
    assert_eq!(voice(1, empty, f32::NAN), "duration must be greater than 0");
    assert_eq!(
        voice(1, second, f32::NAN),
        "waveform contains a non-finite value at index 0"
    );
    assert_eq!(voice(1, second, 1.0), "file_path must contain a valid UTF-8 file name");
}

#[test]
fn a_file_of_another_size_ends_an_upload() {
    let step = match image(false) {
        UploadStep::Stat { next, .. } => next.answer(Ok(FileStat { is_file: true, len: 4 })),
        other => panic!("{other:?}"),
    };
    assert_eq!(refused(step).0, "original_file_path size mismatch: expected 3, got 4");
}

#[test]
fn a_thumbnail_of_another_size_ends_an_upload() {
    let step = match video(true) {
        UploadStep::Stat { next, .. } => next.answer(Ok(FileStat { is_file: true, len: 3 })),
        other => panic!("{other:?}"),
    };
    let step = match step {
        UploadStep::Stat { path, next } => {
            assert_eq!(path, "/thumbs/cat.jpg");
            next.answer(Ok(FileStat { is_file: true, len: 9 }))
        }
        other => panic!("{other:?}"),
    };
    assert_eq!(refused(step).0, "thumbnail_file_path size mismatch: expected 2, got 9");
}

#[test]
fn a_failure_of_the_server_may_pass() {
    let step = match image(false) {
        UploadStep::Stat { next, .. } => next.answer(Ok(FileStat { is_file: true, len: 3 })),
        other => panic!("{other:?}"),
    };
    let step = match step {
        UploadStep::Read { next, .. } => next.answer(Ok(vec![1, 2, 3])),
        other => panic!("{other:?}"),
    };
    let step = match step {
        UploadStep::AskEncryption { next } => next.answer(Err(UploadFailure::Retryable {
            msg: "offline".to_owned(),
            details: None,
        })),
        other => panic!("{other:?}"),
    };
    match step {
        UploadStep::Done { result: Err(UploadFailure::Retryable { msg, .. }) } => {
            assert_eq!(msg, "offline")
        }
        other => panic!("{other:?}"),
    }
}

#[test]
fn a_file_that_vanished_ends_an_upload() {
    let step = match video(false) {
        UploadStep::Stat { next, .. } => next.answer(Ok(FileStat { is_file: true, len: 3 })),
        other => panic!("{other:?}"),
    };
    let step = match step {
        UploadStep::AskEncryption { next } => next.answer(Ok(false)),
        other => panic!("{other:?}"),
    };
    let step = match step {
        UploadStep::UploadPlain { next, .. } => {
            next.answer(Err(UploadTrouble::Unreadable("gone".to_owned())))
        }
        other => panic!("{other:?}"),
    };
    assert_eq!(
        refused(step),
        ("Could not read media file: /clips/cat.mp4".to_owned(), Some("gone".to_owned()))
    );
}
