use matrix_room::errors::UploadFailure;
use matrix_room::local_files::{
    read_local_media_file, require_file_name, validate_local_media_file, FileStat, LocalPath,
};
use matrix_room::media::{
    captions, ffi_media_source, is_mxc_checkable, source_refusal, validate_duration,
    validate_media_source_matches, validate_video_duration, Duration, EncryptedFile, MediaSource,
    MessageFormat,
};
use matrix_room::mimetypes::{
    parse_audio_mimetype, parse_file_mimetype, parse_image_mimetype, parse_video_mimetype,
    request_mimetype,
};
use matrix_room::numbers::{protocol_int, protocol_uint, u64_to_uint, validate_positive_uint};
use matrix_room::thumbnails::{plan_thumbnail, ThumbnailInput};
use matrix_room::waveform::{scale_voice_waveform, validate_waveform, MAX_AMPLITUDE};

fn refused(failure: UploadFailure) -> (String, Option<String>) {
    match failure {
        UploadFailure::Validation { msg, details } => (msg, details),
        UploadFailure::Retryable { msg, .. } => panic!("{msg}"),
    }
}

#[test]
fn positive_numbers_that_fit_the_protocol() {
    assert_eq!(validate_positive_uint(1, "size").unwrap(), 1);
    assert_eq!(validate_positive_uint(9007199254740991, "size").unwrap(), 9007199254740991);
    assert_eq!(
        refused(validate_positive_uint(0, "size").unwrap_err().failure),
        ("size must be greater than 0".to_owned(), None)
    );
    assert_eq!(
        refused(validate_positive_uint(9007199254740992, "width").unwrap_err().failure),
        ("width is too large for Matrix UInt".to_owned(), None)
    );
}

#[test]
fn protocol_numbers() {
    assert_eq!(protocol_uint(9007199254740991), Some(9007199254740991));
    assert_eq!(protocol_uint(9007199254740992), None);
    assert_eq!(protocol_int(-9007199254740991), Some(-9007199254740991));
    assert_eq!(protocol_int(-9007199254740992), None);
    assert_eq!(protocol_int(9007199254740992), None);
    assert_eq!(u64_to_uint(u64::MAX), 9007199254740991);
    assert_eq!(u64_to_uint(7), 7);
}

#[test]
fn media_types_of_their_families() {
    let parsed = parse_image_mimetype("IMAGE/PNG; q=1", "original_mimetype").unwrap();
    assert_eq!((parsed.family.as_str(), parsed.essence.as_str()), ("image", "image/png"));
    assert_eq!(parse_audio_mimetype("audio/ogg", "mimetype").unwrap().essence, "audio/ogg");
    assert_eq!(parse_video_mimetype("video/mp4", "mimetype").unwrap().essence, "video/mp4");
    assert_eq!(parse_file_mimetype("text/plain", "mimetype").unwrap().essence, "text/plain");
    assert_eq!(request_mimetype("image/jpeg").unwrap().family, "image");
}

#[test]
fn media_types_of_other_families() {
    assert_eq!(
        refused(parse_image_mimetype("video/mp4", "original_mimetype").unwrap_err().failure),
        ("original_mimetype must be image/*, got video/mp4".to_owned(), None)
    );
    assert_eq!(
        refused(parse_audio_mimetype("image/png", "mimetype").unwrap_err().failure),
        ("mimetype must be audio/*, got image/png".to_owned(), None)
    );
    assert_eq!(
        refused(parse_video_mimetype("image/png", "mimetype").unwrap_err().failure),
        ("mimetype must be video/*, got image/png".to_owned(), None)
    );
}

#[test]
fn media_types_that_are_none() {
    let expected = "nonsense".parse::<mime::Mime>().unwrap_err();
    assert_eq!(
        refused(parse_file_mimetype("nonsense", "mimetype").unwrap_err().failure),
        ("Invalid mimetype: nonsense".to_owned(), Some(format!("{expected:?}")))
    );
    assert!(request_mimetype("nonsense").is_err());
}

#[test]
fn durations_are_not_empty() {
    let empty = Duration { secs: 0, nanos: 0 };
    assert_eq!(
        refused(validate_duration(empty, "duration").unwrap_err().failure),
        ("duration must be greater than 0".to_owned(), None)
    );
    assert_eq!(
        refused(validate_video_duration(empty, "original_duration").unwrap_err().failure),
        ("original_duration must be greater than 0".to_owned(), None)
    );
    assert!(validate_duration(Duration { secs: 0, nanos: 1 }, "duration").is_ok());
    assert!(validate_video_duration(Duration { secs: 1, nanos: 0 }, "duration").is_ok());
}

#[test]
fn waveforms_are_finite() {
    let samples = |values: &[f32]| values.iter().map(|value| value.to_bits()).collect::<Vec<u32>>();
    assert!(validate_waveform(&samples(&[0.0, -1.0, 0.5, f32::MAX]), "waveform").is_ok());
    for bad in [f32::NAN, f32::INFINITY, f32::NEG_INFINITY] {
        assert_eq!(
            refused(
                validate_waveform(&samples(&[0.25, bad, f32::NAN]), "waveform")
                    .unwrap_err()
                    .failure
            ),
            ("waveform contains a non-finite value at index 1".to_owned(), None)
        );
    }
}

#[test]
fn amplitudes_are_those_of_the_arithmetic() {
    let mut values: Vec<f32> = vec![
        0.0,
        -0.0,
        1.0,
        0.5,
        0.25,
        0.999_999_94,
        1.000_000_1,
        2.0,
        -1.0,
        f32::MAX,
        f32::MIN_POSITIVE,
        f32::from_bits(1),
        f32::EPSILON,
        1.0 / 1024.0,
        0.000_976_562_44,
        1023.0 / 1024.0,
        f32::NAN,
        f32::INFINITY,
        f32::NEG_INFINITY,
    ];
    let mut bits: u32 = 0;
    while bits < 0xff00_0000 {
        values.push(f32::from_bits(bits));
        bits += 0x0003_1415;
    }
    let samples: Vec<u32> = values.iter().map(|value| value.to_bits()).collect();
    let scaled = scale_voice_waveform(&samples);
    let largest = ruma::events::room::message::UnstableAmplitude::MAX;
    assert_eq!(MAX_AMPLITUDE, largest);
    for (value, amplitude) in values.iter().zip(scaled.iter()) {
        let expected = (value.clamp(0.0, 1.0) * f32::from(largest)) as u16;
        assert_eq!(*amplitude, expected, "{value}");
    }
    assert_eq!(scaled[2], 1024);
    assert_eq!(scaled[3], 512);
}

fn plain(url: &str) -> MediaSource {
    MediaSource::Plain { url: url.to_owned() }
}

fn encrypted(url: &str) -> MediaSource {
    MediaSource::Encrypted { file: EncryptedFile { url: url.to_owned(), json: "{}".to_owned() } }
}

#[test]
fn places_of_media() {
    assert!(source_refusal(&plain("mxc://example.org/abc")).is_none());
    assert!(source_refusal(&encrypted("mxc://example.org/abc")).is_none());
    let expected = <&ruma::MxcUri>::from("https://example.org/abc").validate().unwrap_err();
    let refusal = source_refusal(&plain("https://example.org/abc")).unwrap();
    assert_eq!(refusal.message, expected.to_string());
    assert_eq!(refusal.debug, format!("{expected:?}"));
}

#[test]
fn places_that_cannot_be_judged() {
    assert!(is_mxc_checkable("mxc://example.org/abc"));
    assert!(is_mxc_checkable("not a place"));
    let server = "a".repeat(250);
    assert!(!is_mxc_checkable(&format!("mxc://{server}/abc")));
    let odd = "a".repeat(249);
    assert!(is_mxc_checkable(&format!("mxc://{odd}:/a")));
    assert!(source_refusal(&plain(&format!("mxc://{odd}:/a"))).is_some());
    assert!(is_mxc_checkable(&format!("mxc://{server}/a b")));
    let longer = "a".repeat(251);
    assert!(is_mxc_checkable(&format!("mxc://{longer}/abc")));
}

#[test]
fn places_are_encrypted_as_the_upload_says() {
    assert!(validate_media_source_matches(
        &plain("mxc://example.org/abc"),
        None,
        false,
        "media_source",
        "UploadedImage"
    )
    .is_ok());
    assert_eq!(
        refused(
            validate_media_source_matches(
                &plain("mxc://example.org/abc"),
                None,
                true,
                "media_source",
                "UploadedImage"
            )
            .unwrap_err()
            .failure
        ),
        (
            "media_source encryption mismatch: source is_encrypted=false, UploadedImage is_encrypted=true"
                .to_owned(),
            None
        )
    );
    assert_eq!(
        refused(
            validate_media_source_matches(
                &encrypted("nowhere"),
                Some("why".to_owned()),
                true,
                "thumbnail_source",
                "UploadedFile"
            )
            .unwrap_err()
            .failure
        ),
        ("Invalid thumbnail_source".to_owned(), Some("why".to_owned()))
    );
}

#[test]
fn places_go_into_messages() {
    let source = ffi_media_source(plain("mxc://example.org/abc"), None, "media_source").unwrap();
    assert_eq!(source.url(), "mxc://example.org/abc");
    assert_eq!(
        refused(
            ffi_media_source(plain("nowhere"), Some("why".to_owned()), "media_source")
                .unwrap_err()
                .failure
        ),
        ("Invalid media_source".to_owned(), Some("why".to_owned()))
    );
}

#[test]
fn markup_comes_with_a_plain_caption() {
    let both = captions(Some("plain".to_owned()), Some("<b>rich</b>".to_owned()));
    assert_eq!(both.plain.as_deref(), Some("plain"));
    let formatted = both.formatted.unwrap();
    assert_eq!(formatted.body, "<b>rich</b>");
    assert_eq!(formatted.format, MessageFormat::Html);
    let markup = captions(None, Some("<b>rich</b>".to_owned()));
    assert_eq!(markup.plain.as_deref(), Some(""));
    assert!(markup.formatted.is_some());
    let plain = captions(Some("plain".to_owned()), None);
    assert_eq!(plain.plain.as_deref(), Some("plain"));
    assert!(plain.formatted.is_none());
    let none = captions(None, None);
    assert!(none.plain.is_none() && none.formatted.is_none());
}

#[test]
fn paths_have_file_names() {
    let path = LocalPath::new("/pictures/cat.png".to_owned());
    assert_eq!(path.path, "/pictures/cat.png");
    assert_eq!(path.file_name.as_deref(), Some("cat.png"));
    assert_eq!(LocalPath::new("/".to_owned()).file_name, None);
    assert_eq!(LocalPath::new("..".to_owned()).file_name, None);
    assert_eq!(LocalPath::new(String::new()).file_name, None);
    for path in ["cat.png", "./cat.png", "cat.png/", "a/cat.png/.", "a//cat.png//", "../cat.png"] {
        assert_eq!(LocalPath::new(path.to_owned()).file_name.as_deref(), Some("cat.png"));
    }
    assert_eq!(LocalPath::new("a/...".to_owned()).file_name.as_deref(), Some("..."));
    assert_eq!(require_file_name(Some("cat.png".to_owned()), "file_path").unwrap(), "cat.png");
    assert_eq!(
        refused(require_file_name(None, "file_path").unwrap_err().failure),
        ("file_path must contain a valid UTF-8 file name".to_owned(), None)
    );
}

#[test]
fn files_have_the_expected_size() {
    let stat = |is_file: bool, len: u64| Ok(FileStat { is_file, len });
    assert!(validate_local_media_file("/a", stat(true, 3), 3, "file_path").is_ok());
    assert_eq!(
        refused(validate_local_media_file("/a", stat(true, 4), 3, "file_path").unwrap_err().failure),
        ("file_path size mismatch: expected 3, got 4".to_owned(), None)
    );
    assert_eq!(
        refused(validate_local_media_file("/a", stat(false, 3), 3, "file_path").unwrap_err().failure),
        ("file_path must point to a file: /a".to_owned(), None)
    );
    assert_eq!(
        refused(
            validate_local_media_file("/a", Err("gone".to_owned()), 3, "file_path")
                .unwrap_err()
                .failure
        ),
        ("Could not stat file_path: /a".to_owned(), Some("gone".to_owned()))
    );
    assert_eq!(read_local_media_file("/a", Ok(vec![1, 2, 3]), 3, "file_path").unwrap(), vec![1, 2, 3]);
    assert_eq!(
        refused(read_local_media_file("/a", Ok(vec![1]), 3, "file_path").unwrap_err().failure),
        ("file_path size mismatch: expected 3, got 1".to_owned(), None)
    );
    assert_eq!(
        refused(
            read_local_media_file("/a", Err("gone".to_owned()), 3, "file_path")
                .unwrap_err()
                .failure
        ),
        ("Could not read file_path: /a".to_owned(), Some("gone".to_owned()))
    );
}

fn thumbnail() -> ThumbnailInput {
    ThumbnailInput {
        file: Some(LocalPath::new("/thumbs/cat.png".to_owned())),
        mimetype: Some("image/png".to_owned()),
        size: Some(3),
        width: Some(10),
        height: Some(20),
    }
}

#[test]
fn thumbnails_are_described_or_missing() {
    let plan = plan_thumbnail(thumbnail()).unwrap().unwrap();
    assert_eq!(plan.path, "/thumbs/cat.png");
    assert_eq!((plan.size, plan.width, plan.height), (3, 10, 20));
    let nothing = ThumbnailInput {
        file: None,
        mimetype: None,
        size: None,
        width: None,
        height: None,
    };
    assert!(plan_thumbnail(nothing).unwrap().is_none());
}

#[test]
fn thumbnails_need_every_detail() {
    let mut input = thumbnail();
    input.mimetype = None;
    assert_eq!(
        refused(plan_thumbnail(input).unwrap_err().failure).0,
        "thumbnail_mimetype is required with thumbnail_file_path"
    );
    let mut input = thumbnail();
    input.size = None;
    assert_eq!(
        refused(plan_thumbnail(input).unwrap_err().failure).0,
        "thumbnail_size is required with thumbnail_file_path"
    );
    let mut input = thumbnail();
    input.width = None;
    assert_eq!(
        refused(plan_thumbnail(input).unwrap_err().failure).0,
        "thumbnail_width is required with thumbnail_file_path"
    );
    let mut input = thumbnail();
    input.height = None;
    assert_eq!(
        refused(plan_thumbnail(input).unwrap_err().failure).0,
        "thumbnail_height is required with thumbnail_file_path"
    );
    let mut input = thumbnail();
    input.width = Some(0);
    assert_eq!(
        refused(plan_thumbnail(input).unwrap_err().failure).0,
        "thumbnail_width must be greater than 0"
    );
}
