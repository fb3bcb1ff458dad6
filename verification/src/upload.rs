//! Uploading media for a message that is sent later.
//!
//! An upload alternates between decisions, which are made here, and work that happens elsewhere:
//! looking at files, asking the room whether it is encrypted, sending bytes to the media store. A
//! decision ends in a step, which names the work to do and takes its outcome.

use vstd::prelude::*;

use crate::errors::{refusal_because, FailureText, UploadFailure, UploadedImageError};
use crate::local_files::{
    contents_problem, names, no_file_name, read_local_media_file, require_file_name, stat_problem,
    validate_local_media_file, FileStat, LocalPath,
};
use crate::media::{
    duration_problem, validate_duration, validate_video_duration, Duration, EncryptedFile,
    MediaSource,
};
use crate::mimetypes::{
    family_problem, media_type, media_type_problem, of_family, parse_audio_mimetype,
    parse_file_mimetype, parse_image_mimetype, parse_video_mimetype, read_from, MediaType,
};
use crate::numbers::{countable, uint_problem, validate_positive_uint};
use crate::room::Room;
use crate::text::{decimal, join2};
use crate::thumbnails::{
    plan_thumbnail, thumbnail_input_problem, LocalThumbnail, ThumbnailInput, ThumbnailPlan,
};
use crate::uploaded::file::{
    UploadedFile, UploadedFileInfo, UPLOADED_FILE_KIND, UPLOADED_FILE_SCHEMA_VERSION,
};
use crate::uploaded::image::{
    UploadedImage, UploadedImageInfo, UPLOADED_IMAGE_KIND, UPLOADED_IMAGE_SCHEMA_VERSION,
};
use crate::uploaded::video::{
    UploadedVideo, UploadedVideoInfo, UPLOADED_VIDEO_KIND, UPLOADED_VIDEO_SCHEMA_VERSION,
};
use crate::uploaded::voice::{
    UploadedVoice, UploadedVoiceInfo, UPLOADED_VOICE_KIND, UPLOADED_VOICE_SCHEMA_VERSION,
};
use crate::uploaded::{either, UploadedThumbnailInfo, VerdictTexts};
use crate::waveform::{finite, validate_waveform, waveform_problem};

verus! {

/// What is particular to one kind of media.
#[derive(Debug)]
pub enum MediaDetails {
    Image { width: u64, height: u64, blurhash: Option<String> },
    Voice { duration: Duration, waveform: Vec<u32> },
    Video { duration: Duration, width: u64, height: u64, blurhash: Option<String> },
    File,
}

impl MediaDetails {
    /// Whether the media is read into memory before anything is uploaded. Otherwise it is uploaded
    /// from its file, and after its thumbnail.
    pub open spec fn read_ahead(self) -> bool {
        self is Image || self is Voice
    }

    /// The name under which failures speak of the path.
    pub open spec fn path_field(self) -> Seq<char> {
        if self is Image || self is Video {
            "original_file_path"@
        } else {
            "file_path"@
        }
    }

    fn is_read_ahead(&self) -> (r: bool)
        ensures
            r == self.read_ahead(),
    {
        match self {
            MediaDetails::Image { .. } => true,
            MediaDetails::Voice { .. } => true,
            MediaDetails::Video { .. } => false,
            MediaDetails::File => false,
        }
    }

    fn path_field_name(&self) -> (r: &'static str)
        ensures
            r@ == self.path_field(),
    {
        match self {
            MediaDetails::Image { .. } => "original_file_path",
            MediaDetails::Voice { .. } => "file_path",
            MediaDetails::Video { .. } => "original_file_path",
            MediaDetails::File => "file_path",
        }
    }
}

/// An upload whose description was accepted.
#[derive(Debug)]
pub struct MediaPlan {
    pub details: MediaDetails,
    /// The media type as the client wrote it.
    pub mimetype_text: String,
    pub mimetype: MediaType,
    pub size: u64,
    pub path: String,
    pub filename: String,
}

impl MediaPlan {
    /// The description would be accepted again.
    pub open spec fn sound(self) -> bool {
        &&& read_from(self.mimetype, self.mimetype_text@)
        &&& uint_problem(self.size, "size"@) is None
        &&& self.filename@.len() > 0
        &&& match self.details {
            MediaDetails::Image { width, height, blurhash } => {
                &&& self.mimetype.family@ == "image"@
                &&& uint_problem(width, "width"@) is None
                &&& uint_problem(height, "height"@) is None
            },
            MediaDetails::Voice { duration, waveform } => {
                &&& self.mimetype.family@ == "audio"@
                &&& !duration.empty()
                &&& waveform_problem(waveform@, "waveform"@) is None
            },
            MediaDetails::Video { duration, width, height, blurhash } => {
                &&& self.mimetype.family@ == "video"@
                &&& !duration.empty()
                &&& uint_problem(width, "width"@) is None
                &&& uint_problem(height, "height"@) is None
            },
            MediaDetails::File => true,
        }
    }
}

/// The file that is being looked at: the media itself, or its thumbnail.
#[derive(Debug)]
pub enum Subject {
    Original { plan: MediaPlan, input: ThumbnailInput },
    Thumbnail { plan: MediaPlan, original: Option<Vec<u8>>, thumbnail: ThumbnailPlan },
}

impl Subject {
    /// Where the file is.
    pub open spec fn path(self) -> String {
        match self {
            Subject::Original { plan, input } => plan.path,
            Subject::Thumbnail { plan, original, thumbnail } => thumbnail.path,
        }
    }

    /// The size that the file should have.
    pub open spec fn size(self) -> u64 {
        match self {
            Subject::Original { plan, input } => plan.size,
            Subject::Thumbnail { plan, original, thumbnail } => thumbnail.size,
        }
    }

    /// The name under which failures speak of the path.
    pub open spec fn field(self) -> Seq<char> {
        match self {
            Subject::Original { plan, input } => plan.details.path_field(),
            Subject::Thumbnail { plan, original, thumbnail } => "thumbnail_file_path"@,
        }
    }

    /// The descriptions would be accepted again, and media whose thumbnail comes next was read
    /// exactly if it is read ahead.
    pub open spec fn sound(self) -> bool {
        match self {
            Subject::Original { plan, input } => plan.sound(),
            Subject::Thumbnail { plan, original, thumbnail } => {
                &&& plan.sound()
                &&& thumbnail.sound()
                &&& original is Some <==> plan.details.read_ahead()
            },
        }
    }
}

/// Bytes to upload.
#[derive(Debug)]
pub enum UploadContent {
    Bytes(Vec<u8>),
    File(String),
}

/// How far the uploading has come.
#[derive(Debug)]
pub enum Phase {
    /// The media is on its way; its thumbnail, if any, comes next.
    OriginalFirst { thumbnail: Option<LocalThumbnail> },
    /// The media is uploaded; its thumbnail is on its way.
    ThumbnailLast { original: MediaSource, info: UploadedThumbnailInfo },
    /// The thumbnail is on its way; the media comes next.
    ThumbnailFirst { info: UploadedThumbnailInfo },
    /// The thumbnail, if any, is uploaded; the media is on its way.
    OriginalLast { thumbnail: Option<(MediaSource, UploadedThumbnailInfo)> },
}

/// A thumbnail's description that would be accepted again.
pub open spec fn sound_info(info: UploadedThumbnailInfo) -> bool {
    &&& family_problem(info.mimetype@, "thumbnail_info.mimetype"@, "image"@) is None
    &&& uint_problem(info.size, "thumbnail_info.size"@) is None
    &&& uint_problem(info.width, "thumbnail_info.width"@) is None
    &&& uint_problem(info.height, "thumbnail_info.height"@) is None
}

impl Phase {
    /// What is already uploaded is encrypted exactly if the room is, and is described well.
    pub open spec fn sound(self, is_encrypted: bool) -> bool {
        match self {
            Phase::OriginalFirst { thumbnail } => thumbnail matches Some(thumbnail)
                ==> thumbnail.sound(),
            Phase::ThumbnailLast { original, info } => original.encrypted() == is_encrypted
                && sound_info(info),
            Phase::ThumbnailFirst { info } => sound_info(info),
            Phase::OriginalLast { thumbnail } => thumbnail matches Some((source, info)) ==> (
            source.encrypted() == is_encrypted && sound_info(info)),
        }
    }
}

/// An upload that is under way.
#[derive(Debug)]
pub struct PendingUpload {
    pub plan: MediaPlan,
    pub is_encrypted: bool,
    pub phase: Phase,
}

impl PendingUpload {
    /// The upload will end in a record that is accepted. Media that is read ahead goes first, other
    /// media last.
    pub open spec fn sound(self) -> bool {
        &&& self.plan.sound()
        &&& self.phase.sound(self.is_encrypted)
        &&& self.plan.details.read_ahead() <==> (self.phase is OriginalFirst
            || self.phase is ThumbnailLast)
    }

    /// The bytes on their way are the original, which is not read ahead, from its own file; anything
    /// else is in memory.
    pub open spec fn carries(self, content: UploadContent) -> bool {
        if self.phase is OriginalLast {
            content == UploadContent::File(self.plan.path)
        } else {
            content is Bytes
        }
    }
}

/// The record of uploaded media.
#[derive(Debug)]
pub enum UploadedMedia {
    Image(UploadedImage),
    Voice(UploadedVoice),
    Video(UploadedVideo),
    File(UploadedFile),
}

/// The thumbnail's place and description in a record.
pub open spec fn records_thumbnail(
    source: Option<MediaSource>,
    info: Option<UploadedThumbnailInfo>,
    thumbnail: Option<(MediaSource, UploadedThumbnailInfo)>,
) -> bool {
    match thumbnail {
        Some((place, description)) => source == Some(place) && info == Some(description),
        None => source is None && info is None,
    }
}

impl UploadedMedia {
    /// The record says what was uploaded, and where to.
    pub open spec fn records(
        self,
        plan: MediaPlan,
        is_encrypted: bool,
        source: MediaSource,
        thumbnail: Option<(MediaSource, UploadedThumbnailInfo)>,
    ) -> bool {
        let mimetype = plan.mimetype.essence;
        match (self, plan.details) {
            (UploadedMedia::Image(record), MediaDetails::Image { width, height, blurhash }) => {
                &&& record.schema_version == UPLOADED_IMAGE_SCHEMA_VERSION
                &&& record.kind@ == UPLOADED_IMAGE_KIND@
                &&& record.is_encrypted == is_encrypted
                &&& record.filename == plan.filename
                &&& record.media_source == source
                &&& records_thumbnail(record.thumbnail_source, record.thumbnail_info, thumbnail)
                &&& record.image_info == (UploadedImageInfo {
                    mimetype,
                    size: plan.size,
                    width,
                    height,
                    blurhash,
                    is_animated: None,
                })
                &&& record.original_mimetype == mimetype
            },
            (UploadedMedia::Voice(record), MediaDetails::Voice { duration, waveform }) => {
                &&& record.schema_version == UPLOADED_VOICE_SCHEMA_VERSION
                &&& record.kind@ == UPLOADED_VOICE_KIND@
                &&& record.is_encrypted == is_encrypted
                &&& record.filename == plan.filename
                &&& record.media_source == source
                &&& record.voice_info == (UploadedVoiceInfo {
                    mimetype,
                    size: plan.size,
                    duration,
                    waveform,
                })
                &&& record.original_mimetype == mimetype
            },
            (UploadedMedia::Video(record), MediaDetails::Video {
                duration,
                width,
                height,
                blurhash,
            }) => {
                &&& record.schema_version == UPLOADED_VIDEO_SCHEMA_VERSION
                &&& record.kind@ == UPLOADED_VIDEO_KIND@
                &&& record.is_encrypted == is_encrypted
                &&& record.filename == plan.filename
                &&& record.media_source == source
                &&& records_thumbnail(record.thumbnail_source, record.thumbnail_info, thumbnail)
                &&& record.video_info == (UploadedVideoInfo {
                    mimetype,
                    size: plan.size,
                    duration,
                    width,
                    height,
                    blurhash,
                })
                &&& record.original_mimetype == mimetype
            },
            (UploadedMedia::File(record), MediaDetails::File) => {
                &&& record.schema_version == UPLOADED_FILE_SCHEMA_VERSION
                &&& record.kind@ == UPLOADED_FILE_KIND@
                &&& record.is_encrypted == is_encrypted
                &&& record.filename == plan.filename
                &&& record.media_source == source
                &&& records_thumbnail(record.thumbnail_source, record.thumbnail_info, thumbnail)
                &&& record.file_info == (UploadedFileInfo { mimetype, size: plan.size })
                &&& record.original_mimetype == mimetype
            },
            _ => false,
        }
    }

    /// The name of the file.
    pub open spec fn filename(self) -> Seq<char> {
        match self {
            UploadedMedia::Image(record) => record.filename@,
            UploadedMedia::Voice(record) => record.filename@,
            UploadedMedia::Video(record) => record.filename@,
            UploadedMedia::File(record) => record.filename@,
        }
    }

    /// What is wrong with the record.
    pub open spec fn problem(self, verdicts: VerdictTexts) -> Option<FailureText> {
        match self {
            UploadedMedia::Image(record) => record.problem(verdicts),
            UploadedMedia::Voice(record) => record.problem(verdicts),
            UploadedMedia::Video(record) => record.problem(verdicts),
            UploadedMedia::File(record) => record.problem(verdicts),
        }
    }

    /// The record is accepted, unless its places are refused.
    pub open spec fn sound(self) -> bool {
        self.problem(VerdictTexts { media: None, thumbnail: None }) is None
    }
}

proof fn lemma_record_is_sound(
    record: UploadedMedia,
    plan: MediaPlan,
    is_encrypted: bool,
    source: MediaSource,
    thumbnail: Option<(MediaSource, UploadedThumbnailInfo)>,
)
    requires
        record.records(plan, is_encrypted, source, thumbnail),
        plan.sound(),
        source.encrypted() == is_encrypted,
        thumbnail matches Some((place, info)) ==> place.encrypted() == is_encrypted && sound_info(
            info,
        ),
    ensures
        record.sound(),
{
}

/// What to do next.
#[derive(Debug)]
pub enum UploadStep {
    /// Look a path up in the file system.
    Stat { path: String, next: StatRequest },
    /// Read a file.
    Read { path: String, next: ReadRequest },
    /// Ask the room whether it is encrypted.
    AskEncryption { next: EncryptionRequest },
    /// Encrypt bytes and upload them.
    UploadEncrypted { content: UploadContent, next: EncryptedUpload },
    /// Upload bytes as they are.
    UploadPlain { content_type: String, content: UploadContent, next: PlainUpload },
    /// Nothing: the upload is over.
    Done { result: Result<UploadedMedia, UploadFailure> },
}

/// The upload goes on once the file system was asked about a path.
#[derive(Debug)]
pub struct StatRequest {
    pub subject: Subject,
}

/// The upload goes on once a file was read.
#[derive(Debug)]
pub struct ReadRequest {
    pub subject: Subject,
}

/// The upload goes on once it is known whether the room is encrypted.
#[derive(Debug)]
pub struct EncryptionRequest {
    pub plan: MediaPlan,
    pub original: Option<Vec<u8>>,
    pub thumbnail: Option<LocalThumbnail>,
}

/// The upload goes on once encrypted bytes were uploaded.
#[derive(Debug)]
pub struct EncryptedUpload {
    pub pending: PendingUpload,
}

/// The upload goes on once bytes were uploaded as they are.
#[derive(Debug)]
pub struct PlainUpload {
    pub pending: PendingUpload,
}

/// Why bytes did not get uploaded.
#[derive(Debug)]
pub enum UploadTrouble {
    /// The file could not be read; the rendering of the error.
    Unreadable(String),
    /// The upload itself failed.
    Failed(UploadFailure),
}

/// The failure that reports an upload that did not succeed.
pub open spec fn trouble_text(trouble: UploadTrouble, path: Seq<char>) -> FailureText {
    match trouble {
        UploadTrouble::Unreadable(debug) => refusal_because(
            "Could not read media file: "@ + path,
            debug@,
        ),
        UploadTrouble::Failed(failure) => failure@,
    }
}

impl UploadStep {
    /// The upload is over, with a failure.
    pub open spec fn fails(self, failure: FailureText) -> bool {
        self matches UploadStep::Done { result: Err(error) } && error@ == failure
    }

    /// The file system is asked about the subject.
    pub open spec fn stats(self, subject: Subject) -> bool {
        self matches UploadStep::Stat { path, next } && path == subject.path() && next.subject
            == subject
    }

    /// The subject is read.
    pub open spec fn reads(self, subject: Subject) -> bool {
        self matches UploadStep::Read { path, next } && path == subject.path() && next.subject
            == subject
    }

    /// The room is asked whether it is encrypted.
    pub open spec fn asks_encryption(
        self,
        plan: MediaPlan,
        original: Option<Vec<u8>>,
        thumbnail: Option<LocalThumbnail>,
    ) -> bool {
        self matches UploadStep::AskEncryption { next } && next == (EncryptionRequest {
            plan,
            original,
            thumbnail,
        })
    }

    /// Bytes are uploaded: encrypted in an encrypted room, and otherwise under their media type.
    pub open spec fn uploads(
        self,
        pending: PendingUpload,
        mimetype: String,
        bytes: UploadContent,
    ) -> bool {
        if pending.is_encrypted {
            self matches UploadStep::UploadEncrypted { content, next } && content == bytes
                && next.pending == pending
        } else {
            self matches UploadStep::UploadPlain { content_type, content, next } && content_type
                == mimetype && content == bytes && next.pending == pending
        }
    }

    /// The upload is over, with a record.
    pub open spec fn finishes(
        self,
        plan: MediaPlan,
        is_encrypted: bool,
        source: MediaSource,
        thumbnail: Option<(MediaSource, UploadedThumbnailInfo)>,
    ) -> bool {
        self matches UploadStep::Done { result: Ok(record) } && record.records(
            plan,
            is_encrypted,
            source,
            thumbnail,
        )
    }

    /// The media itself is in order; what its thumbnail needs comes next.
    pub open spec fn turns_to_thumbnail(
        self,
        plan: MediaPlan,
        input: ThumbnailInput,
        bytes: Option<Vec<u8>>,
    ) -> bool {
        match thumbnail_input_problem(input) {
            Some(problem) => self.fails(problem),
            None => if input.file is None {
                self.asks_encryption(plan, bytes, None)
            } else {
                &&& self matches UploadStep::Stat { path, next }
                &&& self.stats(next.subject)
                &&& next.subject matches Subject::Thumbnail { plan: kept, original, thumbnail }
                &&& kept == plan
                &&& original == bytes
                &&& thumbnail.follows(input)
            },
        }
    }

    /// However the upload goes on, its record is accepted in the end.
    pub open spec fn sound(self) -> bool {
        match self {
            UploadStep::Stat { path, next } => next.subject.sound(),
            UploadStep::Read { path, next } => next.sound(),
            UploadStep::AskEncryption { next } => next.sound(),
            UploadStep::UploadEncrypted { content, next } => next.pending.sound()
                && next.pending.is_encrypted && next.pending.carries(content),
            UploadStep::UploadPlain { content_type, content, next } => next.pending.sound()
                && !next.pending.is_encrypted && next.pending.carries(content),
            UploadStep::Done { result: Ok(record) } => record.sound(),
            UploadStep::Done { result: Err(_) } => true,
        }
    }
}

impl EncryptionRequest {
    /// The descriptions would be accepted again, and media was read exactly if it is read ahead.
    pub open spec fn sound(self) -> bool {
        &&& self.plan.sound()
        &&& self.thumbnail matches Some(thumbnail) ==> thumbnail.sound()
        &&& self.original is Some <==> self.plan.details.read_ahead()
    }
}

fn fail(failure: UploadFailure) -> (r: UploadStep)
    ensures
        r.fails(failure@),
        r.sound(),
{
    UploadStep::Done { result: Err(failure) }
}

fn stat(subject: Subject) -> (r: UploadStep)
    ensures
        r.stats(subject),
        subject.sound() ==> r.sound(),
{
    let path = match &subject {
        Subject::Original { plan, .. } => plan.path.clone(),
        Subject::Thumbnail { thumbnail, .. } => thumbnail.path.clone(),
    };
    UploadStep::Stat { path, next: StatRequest { subject } }
}

fn read(subject: Subject) -> (r: UploadStep)
    ensures
        r.reads(subject),
        (ReadRequest { subject }).sound() ==> r.sound(),
{
    let path = match &subject {
        Subject::Original { plan, .. } => plan.path.clone(),
        Subject::Thumbnail { thumbnail, .. } => thumbnail.path.clone(),
    };
    UploadStep::Read { path, next: ReadRequest { subject } }
}

fn turn_to_thumbnail(plan: MediaPlan, input: ThumbnailInput, bytes: Option<Vec<u8>>) -> (r:
    UploadStep)
    ensures
        r.turns_to_thumbnail(plan, input, bytes),
        plan.sound() && (bytes is Some <==> plan.details.read_ahead()) ==> r.sound(),
{
    match plan_thumbnail(input) {
        Err(error) => fail(error.failure),
        Ok(None) => UploadStep::AskEncryption {
            next: EncryptionRequest { plan, original: bytes, thumbnail: None },
        },
        Ok(Some(thumbnail)) => stat(Subject::Thumbnail { plan, original: bytes, thumbnail }),
    }
}

impl StatRequest {
    /// Goes on with what the file system says of the path, or with the rendering of its error.
    pub fn answer(self, stat: Result<FileStat, String>) -> (r: UploadStep)
        ensures
            match stat_problem(
                self.subject.path()@,
                stat,
                self.subject.size(),
                self.subject.field(),
            ) {
                Some(problem) => r.fails(problem),
                None => match self.subject {
                    Subject::Original { plan, input } => if plan.details.read_ahead() {
                        r.reads(self.subject)
                    } else {
                        r.turns_to_thumbnail(plan, input, None)
                    },
                    Subject::Thumbnail { .. } => r.reads(self.subject),
                },
            },
            self.subject.sound() ==> r.sound(),
    {
        match self.subject {
            Subject::Original { plan, input } => {
                match validate_local_media_file(
                    plan.path.as_str(),
                    stat,
                    plan.size,
                    plan.details.path_field_name(),
                ) {
                    Err(error) => fail(error.failure),
                    Ok(_) => if plan.details.is_read_ahead() {
                        read(Subject::Original { plan, input })
                    } else {
                        turn_to_thumbnail(plan, input, None)
                    },
                }
            },
            Subject::Thumbnail { plan, original, thumbnail } => {
                match validate_local_media_file(
                    thumbnail.path.as_str(),
                    stat,
                    thumbnail.size,
                    "thumbnail_file_path",
                ) {
                    Err(error) => fail(error.failure),
                    Ok(_) => read(Subject::Thumbnail { plan, original, thumbnail }),
                }
            },
        }
    }
}

impl ReadRequest {
    /// The descriptions would be accepted again, and media is read only if it is read ahead.
    pub open spec fn sound(self) -> bool {
        &&& self.subject.sound()
        &&& self.subject matches Subject::Original { plan, .. } ==> plan.details.read_ahead()
    }

    /// Goes on with what was read, or with the rendering of the error.
    pub fn answer(self, contents: Result<Vec<u8>, String>) -> (r: UploadStep)
        ensures
            match contents_problem(
                self.subject.path()@,
                contents,
                self.subject.size(),
                self.subject.field(),
            ) {
                Some(problem) => r.fails(problem),
                None => contents matches Ok(data) && match self.subject {
                    Subject::Original { plan, input } => r.turns_to_thumbnail(
                        plan,
                        input,
                        Some(data),
                    ),
                    Subject::Thumbnail { plan, original, thumbnail } => r.asks_encryption(
                        plan,
                        original,
                        Some(thumbnail.with_data(data)),
                    ),
                },
            },
            self.sound() ==> r.sound(),
    {
        match self.subject {
            Subject::Original { plan, input } => {
                match read_local_media_file(
                    plan.path.as_str(),
                    contents,
                    plan.size,
                    plan.details.path_field_name(),
                ) {
                    Err(error) => fail(error.failure),
                    Ok(data) => turn_to_thumbnail(plan, input, Some(data)),
                }
            },
            Subject::Thumbnail { plan, original, thumbnail } => {
                match read_local_media_file(
                    thumbnail.path.as_str(),
                    contents,
                    thumbnail.size,
                    "thumbnail_file_path",
                ) {
                    Err(error) => fail(error.failure),
                    Ok(data) => UploadStep::AskEncryption {
                        next: EncryptionRequest {
                            plan,
                            original,
                            thumbnail: Some(thumbnail.fill(data)),
                        },
                    },
                }
            },
        }
    }
}

fn upload(pending: PendingUpload, mimetype: String, content: UploadContent) -> (r: UploadStep)
    ensures
        r.uploads(pending, mimetype, content),
        pending.sound() && pending.carries(content) ==> r.sound(),
{
    if pending.is_encrypted {
        UploadStep::UploadEncrypted { content, next: EncryptedUpload { pending } }
    } else {
        UploadStep::UploadPlain { content_type: mimetype, content, next: PlainUpload { pending } }
    }
}

fn describe(thumbnail: &LocalThumbnail) -> (r: UploadedThumbnailInfo)
    ensures
        r == thumbnail.described(),
        thumbnail.sound() ==> sound_info(r),
{
    UploadedThumbnailInfo {
        mimetype: thumbnail.mimetype.essence.clone(),
        size: thumbnail.size,
        width: thumbnail.width,
        height: thumbnail.height,
    }
}

/// The bytes of media that was read ahead, or the file that it is uploaded from.
pub open spec fn original_content(plan: MediaPlan, original: Option<Vec<u8>>) -> UploadContent {
    match original {
        Some(bytes) => UploadContent::Bytes(bytes),
        None => UploadContent::File(plan.path),
    }
}

impl EncryptionRequest {
    /// Goes on with whether the room is encrypted. Media that was read ahead goes before its
    /// thumbnail, other media after it.
    pub fn answer(self, encryption: Result<bool, UploadFailure>) -> (r: UploadStep)
        ensures
            match encryption {
                Err(failure) => r.fails(failure@),
                Ok(is_encrypted) => if self.plan.details.read_ahead() {
                    r.uploads(
                        PendingUpload {
                            plan: self.plan,
                            is_encrypted,
                            phase: Phase::OriginalFirst { thumbnail: self.thumbnail },
                        },
                        self.plan.mimetype_text,
                        original_content(self.plan, self.original),
                    )
                } else {
                    match self.thumbnail {
                        Some(thumbnail) => r.uploads(
                            PendingUpload {
                                plan: self.plan,
                                is_encrypted,
                                phase: Phase::ThumbnailFirst { info: thumbnail.described() },
                            },
                            thumbnail.mimetype_text,
                            UploadContent::Bytes(thumbnail.data),
                        ),
                        None => r.uploads(
                            PendingUpload {
                                plan: self.plan,
                                is_encrypted,
                                phase: Phase::OriginalLast { thumbnail: None },
                            },
                            self.plan.mimetype_text,
                            UploadContent::File(self.plan.path),
                        ),
                    }
                },
            },
            self.sound() ==> r.sound(),
    {
        let is_encrypted = match encryption {
            Ok(is_encrypted) => is_encrypted,
            Err(failure) => return fail(failure),
        };
        let mimetype = self.plan.mimetype_text.clone();
        if self.plan.details.is_read_ahead() {
            let content = match self.original {
                Some(bytes) => UploadContent::Bytes(bytes),
                None => UploadContent::File(self.plan.path.clone()),
            };
            return upload(
                PendingUpload {
                    plan: self.plan,
                    is_encrypted,
                    phase: Phase::OriginalFirst { thumbnail: self.thumbnail },
                },
                mimetype,
                content,
            );
        }
        match self.thumbnail {
            Some(thumbnail) => {
                let info = describe(&thumbnail);
                upload(
                    PendingUpload {
                        plan: self.plan,
                        is_encrypted,
                        phase: Phase::ThumbnailFirst { info },
                    },
                    thumbnail.mimetype_text,
                    UploadContent::Bytes(thumbnail.data),
                )
            },
            None => {
                let content = UploadContent::File(self.plan.path.clone());
                upload(
                    PendingUpload {
                        plan: self.plan,
                        is_encrypted,
                        phase: Phase::OriginalLast { thumbnail: None },
                    },
                    mimetype,
                    content,
                )
            },
        }
    }
}

fn finish(
    plan: MediaPlan,
    is_encrypted: bool,
    source: MediaSource,
    thumbnail: Option<(MediaSource, UploadedThumbnailInfo)>,
) -> (r: UploadStep)
    ensures
        r.finishes(plan, is_encrypted, source, thumbnail),
        plan.sound() && source.encrypted() == is_encrypted && (thumbnail matches Some((place, info))
            ==> place.encrypted() == is_encrypted && sound_info(info)) ==> r.sound(),
{
    let ghost all = (plan, source, thumbnail);
    let (thumbnail_source, thumbnail_info) = match thumbnail {
        Some((place, info)) => (Some(place), Some(info)),
        None => (None, None),
    };
    let MediaPlan { details, mimetype, size, filename, .. } = plan;
    let original_mimetype = mimetype.essence.clone();
    let mimetype = mimetype.essence;
    let record = match details {
        MediaDetails::Image { width, height, blurhash } => UploadedMedia::Image(
            UploadedImage {
                schema_version: UPLOADED_IMAGE_SCHEMA_VERSION,
                kind: UPLOADED_IMAGE_KIND.to_owned(),
                is_encrypted,
                filename,
                media_source: source,
                thumbnail_source,
                image_info: UploadedImageInfo {
                    mimetype,
                    size,
                    width,
                    height,
                    blurhash,
                    is_animated: None,
                },
                thumbnail_info,
                original_mimetype,
            },
        ),
        MediaDetails::Voice { duration, waveform } => UploadedMedia::Voice(
            UploadedVoice {
                schema_version: UPLOADED_VOICE_SCHEMA_VERSION,
                kind: UPLOADED_VOICE_KIND.to_owned(),
                is_encrypted,
                filename,
                media_source: source,
                voice_info: UploadedVoiceInfo { mimetype, size, duration, waveform },
                original_mimetype,
            },
        ),
        MediaDetails::Video { duration, width, height, blurhash } => UploadedMedia::Video(
            UploadedVideo {
                schema_version: UPLOADED_VIDEO_SCHEMA_VERSION,
                kind: UPLOADED_VIDEO_KIND.to_owned(),
                is_encrypted,
                filename,
                media_source: source,
                thumbnail_source,
                video_info: UploadedVideoInfo { mimetype, size, duration, width, height, blurhash },
                thumbnail_info,
                original_mimetype,
            },
        ),
        MediaDetails::File => UploadedMedia::File(
            UploadedFile {
                schema_version: UPLOADED_FILE_SCHEMA_VERSION,
                kind: UPLOADED_FILE_KIND.to_owned(),
                is_encrypted,
                filename,
                media_source: source,
                thumbnail_source,
                file_info: UploadedFileInfo { mimetype, size },
                thumbnail_info,
                original_mimetype,
            },
        ),
    };
    proof {
        assert(record.records(all.0, is_encrypted, all.1, all.2));
        if all.0.sound() && all.1.encrypted() == is_encrypted && (all.2 matches Some((place, info))
            ==> place.encrypted() == is_encrypted && sound_info(info)) {
            lemma_record_is_sound(record, all.0, is_encrypted, all.1, all.2);
        }
    }
    UploadStep::Done { result: Ok(record) }
}

impl UploadStep {
    /// What follows once the bytes on their way have a place.
    pub open spec fn follows_upload(self, pending: PendingUpload, source: MediaSource) -> bool {
        match pending.phase {
            Phase::OriginalFirst { thumbnail: Some(thumbnail) } => self.uploads(
                PendingUpload {
                    plan: pending.plan,
                    is_encrypted: pending.is_encrypted,
                    phase: Phase::ThumbnailLast {
                        original: source,
                        info: thumbnail.described(),
                    },
                },
                thumbnail.mimetype_text,
                UploadContent::Bytes(thumbnail.data),
            ),
            Phase::OriginalFirst { thumbnail: None } => self.finishes(
                pending.plan,
                pending.is_encrypted,
                source,
                None,
            ),
            Phase::ThumbnailLast { original, info } => self.finishes(
                pending.plan,
                pending.is_encrypted,
                original,
                Some((source, info)),
            ),
            Phase::ThumbnailFirst { info } => self.uploads(
                PendingUpload {
                    plan: pending.plan,
                    is_encrypted: pending.is_encrypted,
                    phase: Phase::OriginalLast { thumbnail: Some((source, info)) },
                },
                pending.plan.mimetype_text,
                UploadContent::File(pending.plan.path),
            ),
            Phase::OriginalLast { thumbnail } => self.finishes(
                pending.plan,
                pending.is_encrypted,
                source,
                thumbnail,
            ),
        }
    }
}

fn follow_upload(pending: PendingUpload, source: MediaSource) -> (r: UploadStep)
    ensures
        r.follows_upload(pending, source),
        pending.sound() && source.encrypted() == pending.is_encrypted ==> r.sound(),
{
    let PendingUpload { plan, is_encrypted, phase } = pending;
    match phase {
        Phase::OriginalFirst { thumbnail: Some(thumbnail) } => {
            let info = describe(&thumbnail);
            upload(
                PendingUpload {
                    plan,
                    is_encrypted,
                    phase: Phase::ThumbnailLast { original: source, info },
                },
                thumbnail.mimetype_text,
                UploadContent::Bytes(thumbnail.data),
            )
        },
        Phase::OriginalFirst { thumbnail: None } => finish(plan, is_encrypted, source, None),
        Phase::ThumbnailLast { original, info } => finish(
            plan,
            is_encrypted,
            original,
            Some((source, info)),
        ),
        Phase::ThumbnailFirst { info } => {
            let mimetype = plan.mimetype_text.clone();
            let content = UploadContent::File(plan.path.clone());
            upload(
                PendingUpload {
                    plan,
                    is_encrypted,
                    phase: Phase::OriginalLast { thumbnail: Some((source, info)) },
                },
                mimetype,
                content,
            )
        },
        Phase::OriginalLast { thumbnail } => finish(plan, is_encrypted, source, thumbnail),
    }
}

fn report(trouble: UploadTrouble, path: &str) -> (r: UploadStep)
    ensures
        r.fails(trouble_text(trouble, path@)),
        r.sound(),
{
    match trouble {
        UploadTrouble::Unreadable(debug) => fail(
            UploadFailure::validation(join2("Could not read media file: ", path), Some(debug)),
        ),
        UploadTrouble::Failed(failure) => fail(failure),
    }
}

impl EncryptedUpload {
    /// Goes on with the encrypted file that the bytes became.
    pub fn answer(self, uploaded: Result<EncryptedFile, UploadTrouble>) -> (r: UploadStep)
        ensures
            match uploaded {
                Ok(file) => r.follows_upload(self.pending, MediaSource::Encrypted { file }),
                Err(trouble) => r.fails(trouble_text(trouble, self.pending.plan.path@)),
            },
            self.pending.sound() && self.pending.is_encrypted ==> r.sound(),
    {
        match uploaded {
            Ok(file) => follow_upload(self.pending, MediaSource::Encrypted { file }),
            Err(trouble) => report(trouble, self.pending.plan.path.as_str()),
        }
    }
}

impl PlainUpload {
    /// Goes on with the URI under which the bytes are kept.
    pub fn answer(self, uploaded: Result<String, UploadTrouble>) -> (r: UploadStep)
        ensures
            match uploaded {
                Ok(url) => r.follows_upload(self.pending, MediaSource::Plain { url }),
                Err(trouble) => r.fails(trouble_text(trouble, self.pending.plan.path@)),
            },
            self.pending.sound() && !self.pending.is_encrypted ==> r.sound(),
    {
        match uploaded {
            Ok(url) => follow_upload(self.pending, MediaSource::Plain { url }),
            Err(trouble) => report(trouble, self.pending.plan.path.as_str()),
        }
    }
}

/// What is wrong with the description of an image.
pub open spec fn image_problem(mimetype: Seq<char>, size: u64, width: u64, height: u64) -> Option<
    FailureText,
> {
    either(
        family_problem(mimetype, "original_mimetype"@, "image"@),
        either(
            uint_problem(size, "original_size"@),
            either(uint_problem(width, "original_width"@), uint_problem(height, "original_height"@)),
        ),
    )
}

/// What is wrong with the description of a voice message.
pub open spec fn voice_problem(
    mimetype: Seq<char>,
    size: u64,
    duration: Duration,
    waveform: Seq<u32>,
) -> Option<FailureText> {
    either(
        family_problem(mimetype, "mimetype"@, "audio"@),
        either(
            uint_problem(size, "size"@),
            either(
                duration_problem(duration, "duration"@),
                waveform_problem(waveform, "waveform"@),
            ),
        ),
    )
}

/// What is wrong with the description of a video.
pub open spec fn video_problem(
    mimetype: Seq<char>,
    size: u64,
    duration: Duration,
    width: u64,
    height: u64,
) -> Option<FailureText> {
    either(
        family_problem(mimetype, "original_mimetype"@, "video"@),
        either(
            uint_problem(size, "original_size"@),
            either(
                duration_problem(duration, "original_duration"@),
                either(
                    uint_problem(width, "original_width"@),
                    uint_problem(height, "original_height"@),
                ),
            ),
        ),
    )
}

/// What is wrong with the description of a file.
pub open spec fn file_problem(mimetype: Seq<char>, size: u64) -> Option<FailureText> {
    either(media_type_problem(mimetype, "mimetype"@), uint_problem(size, "size"@))
}

/// The description of no thumbnail.
pub open spec fn no_thumbnail() -> ThumbnailInput {
    ThumbnailInput { file: None, mimetype: None, size: None, width: None, height: None }
}

/// A thumbnail's description that was put together from what a client gave.
pub open spec fn gathers(
    input: ThumbnailInput,
    path: Option<String>,
    mimetype: Option<String>,
    size: Option<u64>,
    width: Option<u64>,
    height: Option<u64>,
) -> bool {
    &&& match (input.file, path) {
        (Some(file), Some(path)) => file.path == path && names(path@, file.file_name),
        (None, None) => true,
        _ => false,
    }
    &&& input.mimetype == mimetype
    &&& input.size == size
    &&& input.width == width
    &&& input.height == height
}

fn gather(
    path: Option<String>,
    mimetype: Option<String>,
    size: Option<u64>,
    width: Option<u64>,
    height: Option<u64>,
) -> (r: ThumbnailInput)
    ensures
        gathers(r, path, mimetype, size, width, height),
{
    let file = match path {
        Some(path) => Some(LocalPath::new(path)),
        None => None,
    };
    ThumbnailInput { file, mimetype, size, width, height }
}

impl UploadStep {
    /// The first step of an upload: a description that is at fault ends it, and so does a path
    /// without a file name. Otherwise the file system is asked about the path.
    pub open spec fn begins(
        self,
        problem: Option<FailureText>,
        details: MediaDetails,
        file: LocalPath,
        mimetype: String,
        size: u64,
        thumbnail: ThumbnailInput,
    ) -> bool {
        match (problem, file.file_name) {
            (Some(problem), _) => self.fails(problem),
            (None, None) => self.fails(no_file_name(details.path_field())),
            (None, Some(name)) => {
                &&& self matches UploadStep::Stat { path, next }
                &&& self.stats(next.subject)
                &&& next.subject matches Subject::Original { plan, input }
                &&& plan.details == details
                &&& plan.mimetype_text == mimetype
                &&& read_from(plan.mimetype, mimetype@)
                &&& plan.size == size
                &&& plan.path == file.path
                &&& plan.filename == name
                &&& input == thumbnail
            },
        }
    }
}

fn begin(
    details: MediaDetails,
    file: LocalPath,
    mimetype_text: String,
    mimetype: MediaType,
    size: u64,
    input: ThumbnailInput,
) -> (r: UploadStep)
    requires
        read_from(mimetype, mimetype_text@),
    ensures
        r.begins(None, details, file, mimetype_text, size, input),
        forall|plan: MediaPlan|
            plan.details == details && plan.mimetype == mimetype && plan.mimetype_text
                == mimetype_text && plan.size == size && plan.filename == file.file_name->0
                ==> #[trigger] plan.sound() ==> r.sound(),
        file.file_name is None ==> r.sound(),
{
    let LocalPath { path, file_name } = file;
    match require_file_name(file_name, details.path_field_name()) {
        Err(error) => fail(error.failure),
        Ok(filename) => {
            let plan = MediaPlan { details, mimetype_text, mimetype, size, path, filename };
            stat(Subject::Original { plan, input })
        },
    }
}

impl Room {
    /// Begins to upload an image and its thumbnail, if any, for an image message that is sent later.
    pub fn upload_image_for_event(
        &self,
        original_file_path: String,
        thumbnail_file_path: Option<String>,
        original_mimetype: String,
        original_size: u64,
        original_width: u64,
        original_height: u64,
        thumbnail_mimetype: Option<String>,
        thumbnail_size: Option<u64>,
        thumbnail_width: Option<u64>,
        thumbnail_height: Option<u64>,
        blurhash: Option<String>,
    ) -> (r: UploadStep)
        ensures
            exists|file: LocalPath, thumbnail: ThumbnailInput|
                file.path == original_file_path && names(
                    original_file_path@,
                    file.file_name,
                ) && gathers(
                    thumbnail,
                    thumbnail_file_path,
                    thumbnail_mimetype,
                    thumbnail_size,
                    thumbnail_width,
                    thumbnail_height,
                ) && #[trigger] r.begins(
                    image_problem(
                        original_mimetype@,
                        original_size,
                        original_width,
                        original_height,
                    ),
                    MediaDetails::Image {
                        width: original_width,
                        height: original_height,
                        blurhash,
                    },
                    file,
                    original_mimetype,
                    original_size,
                    thumbnail,
                ),
            r.sound(),
    {
        let file = LocalPath::new(original_file_path);
        let thumbnail = gather(
            thumbnail_file_path,
            thumbnail_mimetype,
            thumbnail_size,
            thumbnail_width,
            thumbnail_height,
        );
        self.begin_image_upload(
            file,
            thumbnail,
            original_mimetype,
            original_size,
            original_width,
            original_height,
            blurhash,
        )
    }

    /// Begins to upload an image whose path was taken apart.
    pub fn begin_image_upload(
        &self,
        file: LocalPath,
        thumbnail: ThumbnailInput,
        mimetype: String,
        size: u64,
        width: u64,
        height: u64,
        blurhash: Option<String>,
    ) -> (r: UploadStep)
        ensures
            r.begins(
                image_problem(mimetype@, size, width, height),
                MediaDetails::Image { width, height, blurhash },
                file,
                mimetype,
                size,
                thumbnail,
            ),
            file.named() ==> r.sound(),
    {
        let parsed = match parse_image_mimetype(mimetype.as_str(), "original_mimetype") {
            Ok(parsed) => parsed,
            Err(error) => return fail(error.failure),
        };
        match validate_positive_uint(size, "original_size") {
            Ok(_) => {},
            Err(error) => return fail(error.failure),
        }
        match validate_positive_uint(width, "original_width") {
            Ok(_) => {},
            Err(error) => return fail(error.failure),
        }
        match validate_positive_uint(height, "original_height") {
            Ok(_) => {},
            Err(error) => return fail(error.failure),
        }
        let details = MediaDetails::Image { width, height, blurhash };
        begin(details, file, mimetype, parsed, size, thumbnail)
    }

    /// Begins to upload a voice message that is sent later.
    pub fn upload_voice_for_event(
        &self,
        file_path: String,
        mimetype: String,
        size: u64,
        duration: Duration,
        waveform: Vec<u32>,
    ) -> (r: UploadStep)
        ensures
            exists|file: LocalPath|
                file.path == file_path && names(file_path@, file.file_name) && #[trigger] r.begins(
                    voice_problem(mimetype@, size, duration, waveform@),
                    MediaDetails::Voice { duration, waveform },
                    file,
                    mimetype,
                    size,
                    no_thumbnail(),
                ),
            r.sound(),
    {
        let file = LocalPath::new(file_path);
        self.begin_voice_upload(file, mimetype, size, duration, waveform)
    }

    /// Begins to upload a voice message whose path was taken apart.
    pub fn begin_voice_upload(
        &self,
        file: LocalPath,
        mimetype: String,
        size: u64,
        duration: Duration,
        waveform: Vec<u32>,
    ) -> (r: UploadStep)
        ensures
            r.begins(
                voice_problem(mimetype@, size, duration, waveform@),
                MediaDetails::Voice { duration, waveform },
                file,
                mimetype,
                size,
                no_thumbnail(),
            ),
            file.named() ==> r.sound(),
    {
        let parsed = match parse_audio_mimetype(mimetype.as_str(), "mimetype") {
            Ok(parsed) => parsed,
            Err(error) => return fail(error.failure),
        };
        match validate_positive_uint(size, "size") {
            Ok(_) => {},
            Err(error) => return fail(error.failure),
        }
        match validate_duration(duration, "duration") {
            Ok(_) => {},
            Err(error) => return fail(error.failure),
        }
        match validate_waveform(&waveform, "waveform") {
            Ok(_) => {},
            Err(error) => return fail(error.failure),
        }
        let details = MediaDetails::Voice { duration, waveform };
        let thumbnail = ThumbnailInput {
            file: None,
            mimetype: None,
            size: None,
            width: None,
            height: None,
        };
        begin(details, file, mimetype, parsed, size, thumbnail)
    }

    /// Begins to upload a video and its thumbnail, if any, for a video message that is sent later.
    pub fn upload_video_for_event(
        &self,
        original_file_path: String,
        thumbnail_file_path: Option<String>,
        original_mimetype: String,
        original_size: u64,
        original_duration: Duration,
        original_width: u64,
        original_height: u64,
        thumbnail_mimetype: Option<String>,
        thumbnail_size: Option<u64>,
        thumbnail_width: Option<u64>,
        thumbnail_height: Option<u64>,
        blurhash: Option<String>,
    ) -> (r: UploadStep)
        ensures
            exists|file: LocalPath, thumbnail: ThumbnailInput|
                file.path == original_file_path && names(
                    original_file_path@,
                    file.file_name,
                ) && gathers(
                    thumbnail,
                    thumbnail_file_path,
                    thumbnail_mimetype,
                    thumbnail_size,
                    thumbnail_width,
                    thumbnail_height,
                ) && #[trigger] r.begins(
                    video_problem(
                        original_mimetype@,
                        original_size,
                        original_duration,
                        original_width,
                        original_height,
                    ),
                    MediaDetails::Video {
                        duration: original_duration,
                        width: original_width,
                        height: original_height,
                        blurhash,
                    },
                    file,
                    original_mimetype,
                    original_size,
                    thumbnail,
                ),
            r.sound(),
    {
        let file = LocalPath::new(original_file_path);
        let thumbnail = gather(
            thumbnail_file_path,
            thumbnail_mimetype,
            thumbnail_size,
            thumbnail_width,
            thumbnail_height,
        );
        self.begin_video_upload(
            file,
            thumbnail,
            original_mimetype,
            original_size,
            original_duration,
            original_width,
            original_height,
            blurhash,
        )
    }

    /// Begins to upload a video whose path was taken apart.
    pub fn begin_video_upload(
        &self,
        file: LocalPath,
        thumbnail: ThumbnailInput,
        mimetype: String,
        size: u64,
        duration: Duration,
        width: u64,
        height: u64,
        blurhash: Option<String>,
    ) -> (r: UploadStep)
        ensures
            r.begins(
                video_problem(mimetype@, size, duration, width, height),
                MediaDetails::Video { duration, width, height, blurhash },
                file,
                mimetype,
                size,
                thumbnail,
            ),
            file.named() ==> r.sound(),
    {
        let parsed = match parse_video_mimetype(mimetype.as_str(), "original_mimetype") {
            Ok(parsed) => parsed,
            Err(error) => return fail(error.failure),
        };
        match validate_positive_uint(size, "original_size") {
            Ok(_) => {},
            Err(error) => return fail(error.failure),
        }
        match validate_video_duration(duration, "original_duration") {
            Ok(_) => {},
            Err(error) => return fail(error.failure),
        }
        match validate_positive_uint(width, "original_width") {
            Ok(_) => {},
            Err(error) => return fail(error.failure),
        }
        match validate_positive_uint(height, "original_height") {
            Ok(_) => {},
            Err(error) => return fail(error.failure),
        }
        let details = MediaDetails::Video { duration, width, height, blurhash };
        begin(details, file, mimetype, parsed, size, thumbnail)
    }

    /// Begins to upload a file and its thumbnail, if any, for a file message that is sent later.
    pub fn upload_file_for_event(
        &self,
        file_path: String,
        thumbnail_file_path: Option<String>,
        mimetype: String,
        size: u64,
        thumbnail_mimetype: Option<String>,
        thumbnail_size: Option<u64>,
        thumbnail_width: Option<u64>,
        thumbnail_height: Option<u64>,
    ) -> (r: UploadStep)
        ensures
            exists|file: LocalPath, thumbnail: ThumbnailInput|
                file.path == file_path && names(file_path@, file.file_name) && gathers(
                    thumbnail,
                    thumbnail_file_path,
                    thumbnail_mimetype,
                    thumbnail_size,
                    thumbnail_width,
                    thumbnail_height,
                ) && #[trigger] r.begins(
                    file_problem(mimetype@, size),
                    MediaDetails::File,
                    file,
                    mimetype,
                    size,
                    thumbnail,
                ),
            r.sound(),
    {
        let file = LocalPath::new(file_path);
        let thumbnail = gather(
            thumbnail_file_path,
            thumbnail_mimetype,
            thumbnail_size,
            thumbnail_width,
            thumbnail_height,
        );
        self.begin_file_upload(file, thumbnail, mimetype, size)
    }

    /// Begins to upload a file whose path was taken apart.
    pub fn begin_file_upload(
        &self,
        file: LocalPath,
        thumbnail: ThumbnailInput,
        mimetype: String,
        size: u64,
    ) -> (r: UploadStep)
        ensures
            r.begins(
                file_problem(mimetype@, size),
                MediaDetails::File,
                file,
                mimetype,
                size,
                thumbnail,
            ),
            file.named() ==> r.sound(),
    {
        let parsed = match parse_file_mimetype(mimetype.as_str(), "mimetype") {
            Ok(parsed) => parsed,
            Err(error) => return fail(error.failure),
        };
        match validate_positive_uint(size, "size") {
            Ok(_) => {},
            Err(error) => return fail(error.failure),
        }
        begin(MediaDetails::File, file, mimetype, parsed, size, thumbnail)
    }
}

/// An upload that ends in a record ends in one that is accepted when it is sent, unless the places
/// that the media store chose are refused. Every step that an upload takes is sound, from the first
/// on.
pub proof fn law_finished_upload_can_be_sent(step: UploadStep, record: UploadedMedia)
    requires
        step.sound(),
        (step matches UploadStep::Done { result: Ok(done) } && done == record),
    ensures
        record.problem(VerdictTexts { media: None, thumbnail: None }) is None,
{
}

/// Only the media itself is uploaded from its file, and only a video or a file is. A thumbnail, an
/// image and a voice message are uploaded from memory.
pub proof fn law_only_videos_and_files_come_from_a_file(
    step: UploadStep,
    content: UploadContent,
    pending: PendingUpload,
)
    requires
        step.sound(),
        ({
            ||| step matches UploadStep::UploadEncrypted { content: bytes, next } && bytes
                == content && next.pending == pending
            ||| step matches UploadStep::UploadPlain { content: bytes, next, .. } && bytes
                == content && next.pending == pending
        }),
    ensures
        content matches UploadContent::File(path) ==> {
            &&& path == pending.plan.path
            &&& pending.phase is OriginalLast
            &&& pending.plan.details is Video || pending.plan.details is File
        },
        pending.phase is ThumbnailFirst || pending.phase is ThumbnailLast ==> content is Bytes,
        pending.phase is OriginalLast ==> content is File,
{
}

/// A record that is accepted keeps its media, and its thumbnail if there is one, encrypted exactly if
/// it was made for an encrypted room.
pub proof fn law_places_are_encrypted_as_the_record_says(
    record: UploadedMedia,
    verdicts: VerdictTexts,
)
    requires
        record.problem(verdicts) is None,
    ensures
        record.media_source().encrypted() == record.encrypted(),
        record.thumbnail_source() matches Some(source) ==> source.encrypted()
            == record.encrypted(),
{
}

/// What comes back between two steps of an upload.
pub enum UploadAnswer {
    /// What the file system says of a path.
    Stat(Result<FileStat, String>),
    /// What a file holds.
    Read(Result<Vec<u8>, String>),
    /// Whether the room is encrypted.
    Encryption(Result<bool, UploadFailure>),
    /// What encrypted bytes became.
    Encrypted(Result<EncryptedFile, UploadTrouble>),
    /// Where bytes are kept as they are.
    Plain(Result<String, UploadTrouble>),
}

/// An upload may go from one step to the other on an answer.
pub open spec fn upload_leads(before: UploadStep, answer: UploadAnswer, after: UploadStep) -> bool {
    match (before, answer) {
        (UploadStep::Stat { next, .. }, UploadAnswer::Stat(stat)) => call_ensures(
            StatRequest::answer,
            (next, stat),
            after,
        ),
        (UploadStep::Read { next, .. }, UploadAnswer::Read(contents)) => call_ensures(
            ReadRequest::answer,
            (next, contents),
            after,
        ),
        (UploadStep::AskEncryption { next }, UploadAnswer::Encryption(encryption)) => call_ensures(
            EncryptionRequest::answer,
            (next, encryption),
            after,
        ),
        (UploadStep::UploadEncrypted { next, .. }, UploadAnswer::Encrypted(uploaded)) => {
            call_ensures(EncryptedUpload::answer, (next, uploaded), after)
        },
        (UploadStep::UploadPlain { next, .. }, UploadAnswer::Plain(uploaded)) => call_ensures(
            PlainUpload::answer,
            (next, uploaded),
            after,
        ),
        _ => false,
    }
}

/// The steps of an upload, and the answers between them.
pub open spec fn upload_run(steps: Seq<UploadStep>, answers: Seq<UploadAnswer>) -> bool {
    &&& steps.len() == answers.len() + 1
    &&& forall|i: int|
        0 <= i < answers.len() ==> upload_leads(steps[i], #[trigger] answers[i], steps[i + 1])
}

/// The file system is asked about a path.
pub open spec fn looks_at(step: UploadStep, path: String) -> bool {
    step matches UploadStep::Stat { path: asked, .. } && asked == path
}

/// The file at a path is read.
pub open spec fn reads_file(step: UploadStep, path: String) -> bool {
    step matches UploadStep::Read { path: asked, .. } && asked == path
}

/// Bytes go to the media store: encrypted, or as they are and under a media type.
pub open spec fn sends_up(
    step: UploadStep,
    is_encrypted: bool,
    mimetype: String,
    bytes: UploadContent,
) -> bool {
    match step {
        UploadStep::UploadEncrypted { content, .. } => is_encrypted && content == bytes,
        UploadStep::UploadPlain { content_type, content, .. } => !is_encrypted && content == bytes
            && content_type == mimetype,
        _ => false,
    }
}

/// The media store gave bytes a place.
pub open spec fn gives_place(answer: UploadAnswer, is_encrypted: bool, place: MediaSource) -> bool {
    match answer {
        UploadAnswer::Encrypted(Ok(file)) => is_encrypted && place == (MediaSource::Encrypted {
            file,
        }),
        UploadAnswer::Plain(Ok(url)) => !is_encrypted && place == (MediaSource::Plain { url }),
        _ => false,
    }
}

/// The whole course of an upload whose media goes out straight from its file. The thumbnail, if there
/// is one, comes with its path and its media type, and is read and goes out first.
pub open spec fn uploads_from_file(
    steps: Seq<UploadStep>,
    answers: Seq<UploadAnswer>,
    path: String,
    mimetype: String,
    thumbnail: Option<(String, String)>,
    is_encrypted: bool,
    place: MediaSource,
    thumbnail_place: Option<MediaSource>,
) -> bool {
    match (thumbnail, thumbnail_place) {
        (None, None) => {
            &&& steps.len() == 4
            &&& looks_at(steps[0], path)
            &&& answers[1] == UploadAnswer::Encryption(Ok(is_encrypted))
            &&& sends_up(steps[2], is_encrypted, mimetype, UploadContent::File(path))
            &&& gives_place(answers[2], is_encrypted, place)
        },
        (Some((thumbnail_path, thumbnail_mimetype)), Some(thumbnail_place)) => {
            &&& steps.len() == 7
            &&& looks_at(steps[0], path)
            &&& looks_at(steps[1], thumbnail_path)
            &&& reads_file(steps[2], thumbnail_path)
            &&& answers[3] == UploadAnswer::Encryption(Ok(is_encrypted))
            &&& answers[2] matches UploadAnswer::Read(Ok(data))
            &&& sends_up(steps[4], is_encrypted, thumbnail_mimetype, UploadContent::Bytes(data))
            &&& gives_place(answers[4], is_encrypted, thumbnail_place)
            &&& sends_up(steps[5], is_encrypted, mimetype, UploadContent::File(path))
            &&& gives_place(answers[5], is_encrypted, place)
        },
        _ => false,
    }
}

/// The whole course of an upload whose media is read before it goes out. The thumbnail, if there is
/// one, comes with its path and its media type, is read next, and goes out last.
pub open spec fn uploads_from_memory(
    steps: Seq<UploadStep>,
    answers: Seq<UploadAnswer>,
    path: String,
    mimetype: String,
    thumbnail: Option<(String, String)>,
    is_encrypted: bool,
    place: MediaSource,
    thumbnail_place: Option<MediaSource>,
) -> bool {
    &&& looks_at(steps[0], path)
    &&& reads_file(steps[1], path)
    &&& answers[1] matches UploadAnswer::Read(Ok(data))
    &&& match (thumbnail, thumbnail_place) {
        (None, None) => {
            &&& steps.len() == 5
            &&& answers[2] == UploadAnswer::Encryption(Ok(is_encrypted))
            &&& sends_up(steps[3], is_encrypted, mimetype, UploadContent::Bytes(data))
            &&& gives_place(answers[3], is_encrypted, place)
        },
        (Some((thumbnail_path, thumbnail_mimetype)), Some(thumbnail_place)) => {
            &&& steps.len() == 8
            &&& looks_at(steps[2], thumbnail_path)
            &&& reads_file(steps[3], thumbnail_path)
            &&& answers[4] == UploadAnswer::Encryption(Ok(is_encrypted))
            &&& sends_up(steps[5], is_encrypted, mimetype, UploadContent::Bytes(data))
            &&& gives_place(answers[5], is_encrypted, place)
            &&& answers[3] matches UploadAnswer::Read(Ok(thumbnail_data))
            &&& sends_up(
                steps[6],
                is_encrypted,
                thumbnail_mimetype,
                UploadContent::Bytes(thumbnail_data),
            )
            &&& gives_place(answers[6], is_encrypted, thumbnail_place)
        },
        _ => false,
    }
}

/// The path and the media type of a thumbnail, where there is one.
spec fn thumbnail_file(input: ThumbnailInput) -> Option<(String, String)> {
    match input.file {
        Some(file) => Some((file.path, input.mimetype->0)),
        None => None,
    }
}

/// How the thumbnail of an upload is recorded: as the client described it, under the media type that
/// its text says.
spec fn thumbnail_recorded(
    input: ThumbnailInput,
    thumbnail: Option<(MediaSource, UploadedThumbnailInfo)>,
) -> bool {
    match (input.file, thumbnail) {
        (None, None) => true,
        (Some(_), Some((_, info))) => {
            &&& input.size == Some(info.size)
            &&& input.width == Some(info.width)
            &&& input.height == Some(info.height)
            &&& input.mimetype matches Some(mimetype)
            &&& media_type(mimetype@) matches Ok(parsed)
            &&& parsed.essence == info.mimetype@
            &&& parsed.family == "image"@
        },
        _ => false,
    }
}

proof fn lemma_step(
    steps: Seq<UploadStep>,
    answers: Seq<UploadAnswer>,
    i: int,
    record: UploadedMedia,
)
    requires
        upload_run(steps, answers),
        steps.last() == (UploadStep::Done { result: Ok(record) }),
        0 <= i < steps.len(),
    ensures
        steps[i] is Done <==> i == answers.len(),
        i < answers.len() ==> upload_leads(steps[i], answers[i], steps[i + 1]),
        !(steps[i] matches UploadStep::Done { result: Err(_) }),
{
    if i < answers.len() {
        assert(upload_leads(steps[i], answers[i], steps[i + 1]));
    }
}

/// The end of an upload once the room was asked whether it is encrypted, at step `at`.
proof fn lemma_upload_from_encryption(
    steps: Seq<UploadStep>,
    answers: Seq<UploadAnswer>,
    at: int,
    plan: MediaPlan,
    original: Option<Vec<u8>>,
    local: Option<LocalThumbnail>,
    record: UploadedMedia,
) -> (r: (bool, MediaSource, Option<(MediaSource, UploadedThumbnailInfo)>))
    requires
        upload_run(steps, answers),
        steps.last() == (UploadStep::Done { result: Ok(record) }),
        0 <= at < steps.len(),
        steps[at].asks_encryption(plan, original, local),
        original is Some <==> plan.details.read_ahead(),
    ensures
        at + 2 <= answers.len(),
        record.records(plan, r.0, r.1, r.2),
        answers[at] == UploadAnswer::Encryption(Ok(r.0)),
        match (local, r.2) {
            (None, None) => {
                &&& steps.len() == at + 3
                &&& sends_up(steps[at + 1], r.0, plan.mimetype_text, original_content(plan, original))
                &&& gives_place(answers[at + 1], r.0, r.1)
            },
            (Some(local), Some((place, info))) => {
                &&& steps.len() == at + 4
                &&& info == local.described()
                &&& if plan.details.read_ahead() {
                    &&& sends_up(
                        steps[at + 1],
                        r.0,
                        plan.mimetype_text,
                        original_content(plan, original),
                    )
                    &&& gives_place(answers[at + 1], r.0, r.1)
                    &&& sends_up(
                        steps[at + 2],
                        r.0,
                        local.mimetype_text,
                        UploadContent::Bytes(local.data),
                    )
                    &&& gives_place(answers[at + 2], r.0, place)
                } else {
                    &&& sends_up(
                        steps[at + 1],
                        r.0,
                        local.mimetype_text,
                        UploadContent::Bytes(local.data),
                    )
                    &&& gives_place(answers[at + 1], r.0, place)
                    &&& sends_up(
                        steps[at + 2],
                        r.0,
                        plan.mimetype_text,
                        UploadContent::File(plan.path),
                    )
                    &&& gives_place(answers[at + 2], r.0, r.1)
                }
            },
            _ => false,
        },
{
    lemma_step(steps, answers, at, record);
    let is_encrypted = answers[at]->Encryption_0->Ok_0;
    lemma_step(steps, answers, at + 1, record);
    let first = if is_encrypted {
        MediaSource::Encrypted { file: answers[at + 1]->Encrypted_0->Ok_0 }
    } else {
        MediaSource::Plain { url: answers[at + 1]->Plain_0->Ok_0 }
    };
    lemma_step(steps, answers, at + 2, record);
    assert(gives_place(answers[at + 1], is_encrypted, first));
    match local {
        None => (is_encrypted, first, None),
        Some(local) => {
            let second = if is_encrypted {
                MediaSource::Encrypted { file: answers[at + 2]->Encrypted_0->Ok_0 }
            } else {
                MediaSource::Plain { url: answers[at + 2]->Plain_0->Ok_0 }
            };
            lemma_step(steps, answers, at + 3, record);
            assert(gives_place(answers[at + 2], is_encrypted, second));
            if plan.details.read_ahead() {
                (is_encrypted, first, Some((second, local.described())))
            } else {
                (is_encrypted, second, Some((first, local.described())))
            }
        },
    }
}

/// The end of an upload once its media is in order, at step `at`.
proof fn lemma_upload_from_thumbnail(
    steps: Seq<UploadStep>,
    answers: Seq<UploadAnswer>,
    at: int,
    plan: MediaPlan,
    input: ThumbnailInput,
    original: Option<Vec<u8>>,
    record: UploadedMedia,
) -> (r: (bool, MediaSource, Option<(MediaSource, UploadedThumbnailInfo)>))
    requires
        upload_run(steps, answers),
        steps.last() == (UploadStep::Done { result: Ok(record) }),
        0 <= at < steps.len(),
        steps[at].turns_to_thumbnail(plan, input, original),
        original is Some <==> plan.details.read_ahead(),
    ensures
        record.records(plan, r.0, r.1, r.2),
        thumbnail_recorded(input, r.2),
        match (thumbnail_file(input), r.2) {
            (None, None) => {
                &&& steps.len() == at + 3
                &&& answers[at] == UploadAnswer::Encryption(Ok(r.0))
                &&& sends_up(steps[at + 1], r.0, plan.mimetype_text, original_content(plan, original))
                &&& gives_place(answers[at + 1], r.0, r.1)
            },
            (Some((path, mimetype)), Some((place, info))) => {
                &&& steps.len() == at + 6
                &&& looks_at(steps[at], path)
                &&& reads_file(steps[at + 1], path)
                &&& answers[at + 2] == UploadAnswer::Encryption(Ok(r.0))
                &&& answers[at + 1] matches UploadAnswer::Read(Ok(data))
                &&& if plan.details.read_ahead() {
                    &&& sends_up(
                        steps[at + 3],
                        r.0,
                        plan.mimetype_text,
                        original_content(plan, original),
                    )
                    &&& gives_place(answers[at + 3], r.0, r.1)
                    &&& sends_up(steps[at + 4], r.0, mimetype, UploadContent::Bytes(data))
                    &&& gives_place(answers[at + 4], r.0, place)
                } else {
                    &&& sends_up(steps[at + 3], r.0, mimetype, UploadContent::Bytes(data))
                    &&& gives_place(answers[at + 3], r.0, place)
                    &&& sends_up(
                        steps[at + 4],
                        r.0,
                        plan.mimetype_text,
                        UploadContent::File(plan.path),
                    )
                    &&& gives_place(answers[at + 4], r.0, r.1)
                }
            },
            _ => false,
        },
{
    lemma_step(steps, answers, at, record);
    match input.file {
        None => lemma_upload_from_encryption(steps, answers, at, plan, original, None, record),
        Some(_) => {
            lemma_step(steps, answers, at + 1, record);
            let thumbnail = steps[at]->Stat_next.subject->Thumbnail_thumbnail;
            let data = answers[at + 1]->Read_0->Ok_0;
            lemma_step(steps, answers, at + 2, record);
            let local = thumbnail.with_data(data);
            assert(steps[at + 2].asks_encryption(plan, original, Some(local)));
            lemma_upload_from_encryption(
                steps,
                answers,
                at + 2,
                plan,
                original,
                Some(local),
                record,
            )
        },
    }
}

/// The course of an upload from its first look at the media on.
proof fn lemma_upload(
    steps: Seq<UploadStep>,
    answers: Seq<UploadAnswer>,
    plan: MediaPlan,
    input: ThumbnailInput,
    record: UploadedMedia,
) -> (r: (bool, MediaSource, Option<(MediaSource, UploadedThumbnailInfo)>))
    requires
        upload_run(steps, answers),
        steps.last() == (UploadStep::Done { result: Ok(record) }),
        steps[0].stats(Subject::Original { plan, input }),
    ensures
        record.records(plan, r.0, r.1, r.2),
        thumbnail_recorded(input, r.2),
        plan.details.read_ahead() ==> uploads_from_memory(
            steps,
            answers,
            plan.path,
            plan.mimetype_text,
            thumbnail_file(input),
            r.0,
            r.1,
            match r.2 {
                Some((place, _)) => Some(place),
                None => None,
            },
        ),
        !plan.details.read_ahead() ==> uploads_from_file(
            steps,
            answers,
            plan.path,
            plan.mimetype_text,
            thumbnail_file(input),
            r.0,
            r.1,
            match r.2 {
                Some((place, _)) => Some(place),
                None => None,
            },
        ),
{
    lemma_step(steps, answers, 0, record);
    lemma_step(steps, answers, 1, record);
    if plan.details.read_ahead() {
        let data = answers[1]->Read_0->Ok_0;
        lemma_step(steps, answers, 2, record);
        lemma_upload_from_thumbnail(steps, answers, 2, plan, input, Some(data), record)
    } else {
        lemma_upload_from_thumbnail(steps, answers, 1, plan, input, None, record)
    }
}

/// The path and the media type of a thumbnail that a client names.
pub open spec fn named_thumbnail(path: Option<String>, mimetype: Option<String>) -> Option<
    (String, String),
> {
    match (path, mimetype) {
        (Some(path), Some(mimetype)) => Some((path, mimetype)),
        _ => None,
    }
}

/// An upload of a video that ends in a record took its course: the thumbnail first, then the video
/// straight from its file. The record has the video's name, size, length and measures as the client
/// gave them, the media type that the client's text says, and the places that the media store gave,
/// and it describes the thumbnail as the client did.
pub proof fn law_video_is_recorded_as_it_was_described(
    room: Room,
    original_file_path: String,
    thumbnail_file_path: Option<String>,
    original_mimetype: String,
    original_size: u64,
    original_duration: Duration,
    original_width: u64,
    original_height: u64,
    thumbnail_mimetype: Option<String>,
    thumbnail_size: Option<u64>,
    thumbnail_width: Option<u64>,
    thumbnail_height: Option<u64>,
    blurhash: Option<String>,
    steps: Seq<UploadStep>,
    answers: Seq<UploadAnswer>,
    record: UploadedMedia,
)
    requires
        call_ensures(
            Room::upload_video_for_event,
            (
                &room,
                original_file_path,
                thumbnail_file_path,
                original_mimetype,
                original_size,
                original_duration,
                original_width,
                original_height,
                thumbnail_mimetype,
                thumbnail_size,
                thumbnail_width,
                thumbnail_height,
                blurhash,
            ),
            steps[0],
        ),
        upload_run(steps, answers),
        steps.last() == (UploadStep::Done { result: Ok(record) }),
    ensures
        record matches UploadedMedia::Video(video) && {
            &&& video.video_info.width == original_width
            &&& video.video_info.height == original_height
            &&& video.video_info.duration == original_duration
            &&& video.video_info.blurhash == blurhash
            &&& video.video_info.size == original_size
            &&& names(original_file_path@, Some(video.filename))
            &&& media_type(original_mimetype@) matches Ok(parsed)
            &&& parsed.family == "video"@
            &&& video.video_info.mimetype@ == parsed.essence
            &&& video.original_mimetype@ == parsed.essence
            &&& video.schema_version == 1
            &&& video.kind@ == "video"@
            &&& match (steps[steps.len() - 2], answers[answers.len() - 1]) {
                (
                    UploadStep::UploadPlain { content_type, content, .. },
                    UploadAnswer::Plain(Ok(url)),
                ) => {
                    &&& !video.is_encrypted
                    &&& content == UploadContent::File(original_file_path)
                    &&& content_type == original_mimetype
                    &&& video.media_source == (MediaSource::Plain { url })
                },
                (
                    UploadStep::UploadEncrypted { content, .. },
                    UploadAnswer::Encrypted(Ok(file)),
                ) => {
                    &&& video.is_encrypted
                    &&& content == UploadContent::File(original_file_path)
                    &&& video.media_source == (MediaSource::Encrypted { file })
                },
                _ => false,
            }
            &&& thumbnail_file_path is None ==> video.thumbnail_source is None
            &&& thumbnail_file_path is Some ==> {
                &&& answers[2] matches UploadAnswer::Read(Ok(data))
                &&& match (steps[steps.len() - 3], answers[answers.len() - 2]) {
                    (
                        UploadStep::UploadPlain { content_type, content, .. },
                        UploadAnswer::Plain(Ok(url)),
                    ) => {
                        &&& !video.is_encrypted
                        &&& content == UploadContent::Bytes(data)
                        &&& content_type == thumbnail_mimetype->0
                        &&& video.thumbnail_source == Some(MediaSource::Plain { url })
                    },
                    (
                        UploadStep::UploadEncrypted { content, .. },
                        UploadAnswer::Encrypted(Ok(file)),
                    ) => {
                        &&& video.is_encrypted
                        &&& content == UploadContent::Bytes(data)
                        &&& video.thumbnail_source == Some(MediaSource::Encrypted { file })
                    },
                    _ => false,
                }
            }
            &&& uploads_from_file(
                steps,
                answers,
                original_file_path,
                original_mimetype,
                named_thumbnail(thumbnail_file_path, thumbnail_mimetype),
                video.is_encrypted,
                video.media_source,
                video.thumbnail_source,
            )
            &&& match (thumbnail_file_path, video.thumbnail_info) {
                (None, None) => true,
                (Some(_), Some(info)) => {
                    &&& thumbnail_width == Some(info.width)
                    &&& thumbnail_height == Some(info.height)
                    &&& thumbnail_size == Some(info.size)
                    &&& thumbnail_mimetype matches Some(text)
                    &&& media_type(text@) matches Ok(parsed)
                    &&& parsed.family == "image"@
                    &&& info.mimetype@ == parsed.essence
                },
                _ => false,
            }
        },
{
    lemma_step(steps, answers, 0, record);
    let subject = steps[0]->Stat_next.subject;
    lemma_upload(steps, answers, subject->Original_plan, subject->Original_input, record);
}

/// An upload of an image that ends in a record took its course: the image first, then its thumbnail,
/// both from memory. The record has the image's name, size and measures as the client gave them, the
/// media type that the client's text says, and the places that the media store gave, and it describes
/// the thumbnail as the client did.
pub proof fn law_image_is_recorded_as_it_was_described(
    room: Room,
    original_file_path: String,
    thumbnail_file_path: Option<String>,
    original_mimetype: String,
    original_size: u64,
    original_width: u64,
    original_height: u64,
    thumbnail_mimetype: Option<String>,
    thumbnail_size: Option<u64>,
    thumbnail_width: Option<u64>,
    thumbnail_height: Option<u64>,
    blurhash: Option<String>,
    steps: Seq<UploadStep>,
    answers: Seq<UploadAnswer>,
    record: UploadedMedia,
)
    requires
        call_ensures(
            Room::upload_image_for_event,
            (
                &room,
                original_file_path,
                thumbnail_file_path,
                original_mimetype,
                original_size,
                original_width,
                original_height,
                thumbnail_mimetype,
                thumbnail_size,
                thumbnail_width,
                thumbnail_height,
                blurhash,
            ),
            steps[0],
        ),
        upload_run(steps, answers),
        steps.last() == (UploadStep::Done { result: Ok(record) }),
    ensures
        record matches UploadedMedia::Image(image) && {
            &&& image.image_info.width == original_width
            &&& image.image_info.height == original_height
            &&& image.image_info.blurhash == blurhash
            &&& image.image_info.is_animated is None
            &&& image.image_info.size == original_size
            &&& names(original_file_path@, Some(image.filename))
            &&& media_type(original_mimetype@) matches Ok(parsed)
            &&& parsed.family == "image"@
            &&& image.image_info.mimetype@ == parsed.essence
            &&& image.original_mimetype@ == parsed.essence
            &&& image.schema_version == 1
            &&& image.kind@ == "image"@
            &&& answers[1] matches UploadAnswer::Read(Ok(original))
            &&& thumbnail_file_path is None ==> {
                &&& image.thumbnail_source is None
                &&& match (steps[steps.len() - 2], answers[answers.len() - 1]) {
                    (
                        UploadStep::UploadPlain { content_type, content, .. },
                        UploadAnswer::Plain(Ok(url)),
                    ) => {
                        &&& !image.is_encrypted
                        &&& content == UploadContent::Bytes(original)
                        &&& content_type == original_mimetype
                        &&& image.media_source == (MediaSource::Plain { url })
                    },
                    (
                        UploadStep::UploadEncrypted { content, .. },
                        UploadAnswer::Encrypted(Ok(file)),
                    ) => {
                        &&& image.is_encrypted
                        &&& content == UploadContent::Bytes(original)
                        &&& image.media_source == (MediaSource::Encrypted { file })
                    },
                    _ => false,
                }
            }
            &&& thumbnail_file_path is Some ==> {
                &&& match (steps[steps.len() - 3], answers[answers.len() - 2]) {
                    (
                        UploadStep::UploadPlain { content_type, content, .. },
                        UploadAnswer::Plain(Ok(url)),
                    ) => {
                        &&& !image.is_encrypted
                        &&& content == UploadContent::Bytes(original)
                        &&& content_type == original_mimetype
                        &&& image.media_source == (MediaSource::Plain { url })
                    },
                    (
                        UploadStep::UploadEncrypted { content, .. },
                        UploadAnswer::Encrypted(Ok(file)),
                    ) => {
                        &&& image.is_encrypted
                        &&& content == UploadContent::Bytes(original)
                        &&& image.media_source == (MediaSource::Encrypted { file })
                    },
                    _ => false,
                }
                &&& answers[3] matches UploadAnswer::Read(Ok(data))
                &&& match (steps[steps.len() - 2], answers[answers.len() - 1]) {
                    (
                        UploadStep::UploadPlain { content_type, content, .. },
                        UploadAnswer::Plain(Ok(url)),
                    ) => {
                        &&& !image.is_encrypted
                        &&& content == UploadContent::Bytes(data)
                        &&& content_type == thumbnail_mimetype->0
                        &&& image.thumbnail_source == Some(MediaSource::Plain { url })
                    },
                    (
                        UploadStep::UploadEncrypted { content, .. },
                        UploadAnswer::Encrypted(Ok(file)),
                    ) => {
                        &&& image.is_encrypted
                        &&& content == UploadContent::Bytes(data)
                        &&& image.thumbnail_source == Some(MediaSource::Encrypted { file })
                    },
                    _ => false,
                }
            }
            &&& uploads_from_memory(
                steps,
                answers,
                original_file_path,
                original_mimetype,
                named_thumbnail(thumbnail_file_path, thumbnail_mimetype),
                image.is_encrypted,
                image.media_source,
                image.thumbnail_source,
            )
            &&& match (thumbnail_file_path, image.thumbnail_info) {
                (None, None) => true,
                (Some(_), Some(info)) => {
                    &&& thumbnail_width == Some(info.width)
                    &&& thumbnail_height == Some(info.height)
                    &&& thumbnail_size == Some(info.size)
                    &&& thumbnail_mimetype matches Some(text)
                    &&& media_type(text@) matches Ok(parsed)
                    &&& parsed.family == "image"@
                    &&& info.mimetype@ == parsed.essence
                },
                _ => false,
            }
        },
{
    lemma_step(steps, answers, 0, record);
    let subject = steps[0]->Stat_next.subject;
    lemma_upload(steps, answers, subject->Original_plan, subject->Original_input, record);
}

/// An upload of a voice message that ends in a record took its course, from memory and without a
/// thumbnail. The record has the name, the size, the length and the waveform as the client gave them,
/// the media type that the client's text says, and the place that the media store gave.
pub proof fn law_voice_is_recorded_as_it_was_described(
    room: Room,
    file_path: String,
    mimetype: String,
    size: u64,
    duration: Duration,
    waveform: Vec<u32>,
    steps: Seq<UploadStep>,
    answers: Seq<UploadAnswer>,
    record: UploadedMedia,
)
    requires
        call_ensures(
            Room::upload_voice_for_event,
            (&room, file_path, mimetype, size, duration, waveform),
            steps[0],
        ),
        upload_run(steps, answers),
        steps.last() == (UploadStep::Done { result: Ok(record) }),
    ensures
        record matches UploadedMedia::Voice(voice) && {
            &&& voice.voice_info.duration == duration
            &&& voice.voice_info.waveform == waveform
            &&& voice.voice_info.size == size
            &&& names(file_path@, Some(voice.filename))
            &&& media_type(mimetype@) matches Ok(parsed)
            &&& parsed.family == "audio"@
            &&& voice.voice_info.mimetype@ == parsed.essence
            &&& voice.original_mimetype@ == parsed.essence
            &&& voice.schema_version == 1
            &&& voice.kind@ == "voice"@
            &&& answers[1] matches UploadAnswer::Read(Ok(original))
            &&& match (steps[steps.len() - 2], answers[answers.len() - 1]) {
                (
                    UploadStep::UploadPlain { content_type, content, .. },
                    UploadAnswer::Plain(Ok(url)),
                ) => {
                    &&& !voice.is_encrypted
                    &&& content == UploadContent::Bytes(original)
                    &&& content_type == mimetype
                    &&& voice.media_source == (MediaSource::Plain { url })
                },
                (
                    UploadStep::UploadEncrypted { content, .. },
                    UploadAnswer::Encrypted(Ok(file)),
                ) => {
                    &&& voice.is_encrypted
                    &&& content == UploadContent::Bytes(original)
                    &&& voice.media_source == (MediaSource::Encrypted { file })
                },
                _ => false,
            }
            &&& uploads_from_memory(
                steps,
                answers,
                file_path,
                mimetype,
                None,
                voice.is_encrypted,
                voice.media_source,
                None,
            )
        },
{
    lemma_step(steps, answers, 0, record);
    let subject = steps[0]->Stat_next.subject;
    lemma_upload(steps, answers, subject->Original_plan, subject->Original_input, record);
}

/// An upload of a file that ends in a record took its course: the thumbnail first, then the file
/// straight from where it is. The record has the file's name and size as the client gave them, the
/// media type that the client's text says, and the places that the media store gave, and it describes
/// the thumbnail as the client did.
pub proof fn law_file_is_recorded_as_it_was_described(
    room: Room,
    file_path: String,
    thumbnail_file_path: Option<String>,
    mimetype: String,
    size: u64,
    thumbnail_mimetype: Option<String>,
    thumbnail_size: Option<u64>,
    thumbnail_width: Option<u64>,
    thumbnail_height: Option<u64>,
    steps: Seq<UploadStep>,
    answers: Seq<UploadAnswer>,
    record: UploadedMedia,
)
    requires
        call_ensures(
            Room::upload_file_for_event,
            (
                &room,
                file_path,
                thumbnail_file_path,
                mimetype,
                size,
                thumbnail_mimetype,
                thumbnail_size,
                thumbnail_width,
                thumbnail_height,
            ),
            steps[0],
        ),
        upload_run(steps, answers),
        steps.last() == (UploadStep::Done { result: Ok(record) }),
    ensures
        record matches UploadedMedia::File(file) && {
            &&& file.file_info.size == size
            &&& names(file_path@, Some(file.filename))
            &&& media_type(mimetype@) matches Ok(parsed)
            &&& file.file_info.mimetype@ == parsed.essence
            &&& file.original_mimetype@ == parsed.essence
            &&& file.schema_version == 1
            &&& file.kind@ == "file"@
            &&& match (steps[steps.len() - 2], answers[answers.len() - 1]) {
                (
                    UploadStep::UploadPlain { content_type, content, .. },
                    UploadAnswer::Plain(Ok(url)),
                ) => {
                    &&& !file.is_encrypted
                    &&& content == UploadContent::File(file_path)
                    &&& content_type == mimetype
                    &&& file.media_source == (MediaSource::Plain { url })
                },
                (
                    UploadStep::UploadEncrypted { content, .. },
                    UploadAnswer::Encrypted(Ok(place)),
                ) => {
                    &&& file.is_encrypted
                    &&& content == UploadContent::File(file_path)
                    &&& file.media_source == (MediaSource::Encrypted { file: place })
                },
                _ => false,
            }
            &&& thumbnail_file_path is None ==> file.thumbnail_source is None
            &&& thumbnail_file_path is Some ==> {
                &&& answers[2] matches UploadAnswer::Read(Ok(data))
                &&& match (steps[steps.len() - 3], answers[answers.len() - 2]) {
                    (
                        UploadStep::UploadPlain { content_type, content, .. },
                        UploadAnswer::Plain(Ok(url)),
                    ) => {
                        &&& !file.is_encrypted
                        &&& content == UploadContent::Bytes(data)
                        &&& content_type == thumbnail_mimetype->0
                        &&& file.thumbnail_source == Some(MediaSource::Plain { url })
                    },
                    (
                        UploadStep::UploadEncrypted { content, .. },
                        UploadAnswer::Encrypted(Ok(place)),
                    ) => {
                        &&& file.is_encrypted
                        &&& content == UploadContent::Bytes(data)
                        &&& file.thumbnail_source == Some(MediaSource::Encrypted { file: place })
                    },
                    _ => false,
                }
            }
            &&& uploads_from_file(
                steps,
                answers,
                file_path,
                mimetype,
                named_thumbnail(thumbnail_file_path, thumbnail_mimetype),
                file.is_encrypted,
                file.media_source,
                file.thumbnail_source,
            )
            &&& match (thumbnail_file_path, file.thumbnail_info) {
                (None, None) => true,
                (Some(_), Some(info)) => {
                    &&& thumbnail_width == Some(info.width)
                    &&& thumbnail_height == Some(info.height)
                    &&& thumbnail_size == Some(info.size)
                    &&& thumbnail_mimetype matches Some(text)
                    &&& media_type(text@) matches Ok(parsed)
                    &&& parsed.family == "image"@
                    &&& info.mimetype@ == parsed.essence
                },
                _ => false,
            }
        },
{
    lemma_step(steps, answers, 0, record);
    let subject = steps[0]->Stat_next.subject;
    lemma_upload(steps, answers, subject->Original_plan, subject->Original_input, record);
}

/// The upload is over, with a refusal.
pub open spec fn refuses(step: UploadStep, msg: Seq<char>, details: Option<Seq<char>>) -> bool {
    step matches UploadStep::Done { result: Err(failure) } && failure@ == (FailureText::Validation {
        msg,
        details,
    })
}

/// The upload is over because of a number that is zero, or too large for the protocol.
pub open spec fn refuses_number(step: UploadStep, field: Seq<char>, value: u64) -> bool {
    &&& value == 0 ==> refuses(step, field + " must be greater than 0"@, None)
    &&& value > 0x1F_FFFF_FFFF_FFFF ==> refuses(step, field + " is too large for Matrix UInt"@, None)
}

/// The upload is over because of a text that is no media type, or one of another family.
pub open spec fn refuses_type(
    step: UploadStep,
    field: Seq<char>,
    text: Seq<char>,
    family: Seq<char>,
) -> bool {
    match media_type(text) {
        Err(problem) => refuses(step, "Invalid "@ + field + ": "@ + text, Some(problem.debug)),
        Ok(parsed) => parsed.family != family ==> refuses(
            step,
            field + " must be "@ + family + "/*, got "@ + parsed.essence,
            None,
        ),
    }
}

/// An image is looked at exactly if its media type is that of an image, its size and its measures are
/// numbers that the protocol carries, and its path has a file name. Otherwise the first of these that
/// is at fault is named.
pub proof fn law_image_must_be_described_well(
    room: Room,
    file: LocalPath,
    thumbnail: ThumbnailInput,
    mimetype: String,
    size: u64,
    width: u64,
    height: u64,
    blurhash: Option<String>,
    step: UploadStep,
)
    requires
        call_ensures(
            Room::begin_image_upload,
            (&room, file, thumbnail, mimetype, size, width, height, blurhash),
            step,
        ),
    ensures
        step is Stat <==> {
            &&& of_family(mimetype@, "image"@)
            &&& countable(size)
            &&& countable(width)
            &&& countable(height)
            &&& file.file_name is Some
        },
        refuses_type(step, "original_mimetype"@, mimetype@, "image"@),
        of_family(mimetype@, "image"@) ==> {
            &&& refuses_number(step, "original_size"@, size)
            &&& countable(size) ==> refuses_number(step, "original_width"@, width)
            &&& countable(size) && countable(width) ==> refuses_number(
                step,
                "original_height"@,
                height,
            )
            &&& countable(size) && countable(width) && countable(height) && file.file_name is None
                ==> refuses(
                step,
                "original_file_path"@ + " must contain a valid UTF-8 file name"@,
                None,
            )
        },
        step matches UploadStep::Stat { path, next } ==> {
            &&& path == file.path
            &&& next.subject matches Subject::Original { plan, input }
            &&& plan.details == (MediaDetails::Image { width, height, blurhash })
            &&& plan.mimetype_text == mimetype
            &&& plan.size == size
            &&& plan.path == file.path
            &&& file.file_name == Some(plan.filename)
            &&& input == thumbnail
        },
{
}

/// A voice message is looked at exactly if its media type is that of audio, its size is a number that
/// the protocol carries, it has a length and a waveform of numbers, and its path has a file name.
/// Otherwise the first of these that is at fault is named.
pub proof fn law_voice_must_be_described_well(
    room: Room,
    file: LocalPath,
    mimetype: String,
    size: u64,
    duration: Duration,
    waveform: Vec<u32>,
    step: UploadStep,
)
    requires
        call_ensures(
            Room::begin_voice_upload,
            (&room, file, mimetype, size, duration, waveform),
            step,
        ),
    ensures
        step is Stat <==> {
            &&& of_family(mimetype@, "audio"@)
            &&& countable(size)
            &&& duration.secs > 0 || duration.nanos > 0
            &&& forall|i: int| 0 <= i < waveform@.len() ==> finite(#[trigger] waveform@[i])
            &&& file.file_name is Some
        },
        refuses_type(step, "mimetype"@, mimetype@, "audio"@),
        of_family(mimetype@, "audio"@) ==> {
            &&& refuses_number(step, "size"@, size)
            &&& countable(size) && duration.secs == 0 && duration.nanos == 0 ==> refuses(
                step,
                "duration"@ + " must be greater than 0"@,
                None,
            )
            &&& countable(size) && (duration.secs > 0 || duration.nanos > 0) && (forall|i: int|
                0 <= i < waveform@.len() ==> finite(#[trigger] waveform@[i])) && file.file_name
                is None ==> refuses(step, "file_path"@ + " must contain a valid UTF-8 file name"@, None)
        },
        step matches UploadStep::Stat { path, next } ==> {
            &&& path == file.path
            &&& next.subject matches Subject::Original { plan, input }
            &&& plan.details == (MediaDetails::Voice { duration, waveform })
            &&& plan.mimetype_text == mimetype
            &&& plan.size == size
            &&& plan.path == file.path
            &&& file.file_name == Some(plan.filename)
            &&& input.file is None
        },
{
}

/// A video is looked at exactly if its media type is that of a video, its size and its measures are
/// numbers that the protocol carries, it has a length, and its path has a file name. Otherwise the
/// first of these that is at fault is named.
pub proof fn law_video_must_be_described_well(
    room: Room,
    file: LocalPath,
    thumbnail: ThumbnailInput,
    mimetype: String,
    size: u64,
    duration: Duration,
    width: u64,
    height: u64,
    blurhash: Option<String>,
    step: UploadStep,
)
    requires
        call_ensures(
            Room::begin_video_upload,
            (&room, file, thumbnail, mimetype, size, duration, width, height, blurhash),
            step,
        ),
    ensures
        step is Stat <==> {
            &&& of_family(mimetype@, "video"@)
            &&& countable(size)
            &&& duration.secs > 0 || duration.nanos > 0
            &&& countable(width)
            &&& countable(height)
            &&& file.file_name is Some
        },
        refuses_type(step, "original_mimetype"@, mimetype@, "video"@),
        of_family(mimetype@, "video"@) ==> {
            &&& refuses_number(step, "original_size"@, size)
            &&& countable(size) && duration.secs == 0 && duration.nanos == 0 ==> refuses(
                step,
                "original_duration"@ + " must be greater than 0"@,
                None,
            )
        },
        of_family(mimetype@, "video"@) && countable(size) && (duration.secs > 0 || duration.nanos
            > 0) ==> {
            &&& refuses_number(step, "original_width"@, width)
            &&& countable(width) ==> refuses_number(step, "original_height"@, height)
            &&& countable(width) && countable(height) && file.file_name is None ==> refuses(
                step,
                "original_file_path"@ + " must contain a valid UTF-8 file name"@,
                None,
            )
        },
        step matches UploadStep::Stat { path, next } ==> {
            &&& path == file.path
            &&& next.subject matches Subject::Original { plan, input }
            &&& plan.details == (MediaDetails::Video { duration, width, height, blurhash })
            &&& plan.mimetype_text == mimetype
            &&& plan.size == size
            &&& plan.path == file.path
            &&& file.file_name == Some(plan.filename)
            &&& input == thumbnail
        },
{
}

/// A file is looked at exactly if it has a media type, its size is a number that the protocol
/// carries, and its path has a file name. Otherwise the first of these that is at fault is named.
pub proof fn law_file_must_be_described_well(
    room: Room,
    file: LocalPath,
    thumbnail: ThumbnailInput,
    mimetype: String,
    size: u64,
    step: UploadStep,
)
    requires
        call_ensures(Room::begin_file_upload, (&room, file, thumbnail, mimetype, size), step),
    ensures
        step is Stat <==> media_type(mimetype@) is Ok && countable(size) && file.file_name is Some,
        media_type(mimetype@) matches Err(problem) ==> refuses(
            step,
            "Invalid "@ + "mimetype"@ + ": "@ + mimetype@,
            Some(problem.debug),
        ),
        media_type(mimetype@) is Ok ==> {
            &&& refuses_number(step, "size"@, size)
            &&& countable(size) && file.file_name is None ==> refuses(
                step,
                "file_path"@ + " must contain a valid UTF-8 file name"@,
                None,
            )
        },
        step matches UploadStep::Stat { path, next } ==> {
            &&& path == file.path
            &&& next.subject matches Subject::Original { plan, input }
            &&& plan.details is File
            &&& plan.mimetype_text == mimetype
            &&& plan.size == size
            &&& plan.path == file.path
            &&& file.file_name == Some(plan.filename)
            &&& input == thumbnail
        },
{
}

/// A request to upload a video, taken from its arguments alone: the file system is asked about the
/// path exactly if the description is in order and the path has a file name.
pub proof fn law_video_request_is_judged_by_its_description(
    room: Room,
    original_file_path: String,
    thumbnail_file_path: Option<String>,
    original_mimetype: String,
    original_size: u64,
    original_duration: Duration,
    original_width: u64,
    original_height: u64,
    thumbnail_mimetype: Option<String>,
    thumbnail_size: Option<u64>,
    thumbnail_width: Option<u64>,
    thumbnail_height: Option<u64>,
    blurhash: Option<String>,
    step: UploadStep,
)
    requires
        call_ensures(
            Room::upload_video_for_event,
            (
                &room,
                original_file_path,
                thumbnail_file_path,
                original_mimetype,
                original_size,
                original_duration,
                original_width,
                original_height,
                thumbnail_mimetype,
                thumbnail_size,
                thumbnail_width,
                thumbnail_height,
                blurhash,
            ),
            step,
        ),
    ensures
        looks_at(step, original_file_path) || step matches UploadStep::Done { result: Err(_) },
        looks_at(step, original_file_path) ==> {
            &&& of_family(original_mimetype@, "video"@)
            &&& countable(original_size)
            &&& original_duration.secs > 0 || original_duration.nanos > 0
            &&& countable(original_width)
            &&& countable(original_height)
        },
        of_family(original_mimetype@, "video"@) && countable(original_size) && (
        original_duration.secs > 0 || original_duration.nanos > 0) && countable(original_width)
            && countable(original_height) ==> looks_at(step, original_file_path) || names(
            original_file_path@,
            None,
        ),
{
}

/// A request to upload an image, taken from its arguments alone: the file system is asked about the
/// path exactly if the description is in order and the path has a file name.
pub proof fn law_image_request_is_judged_by_its_description(
    room: Room,
    original_file_path: String,
    thumbnail_file_path: Option<String>,
    original_mimetype: String,
    original_size: u64,
    original_width: u64,
    original_height: u64,
    thumbnail_mimetype: Option<String>,
    thumbnail_size: Option<u64>,
    thumbnail_width: Option<u64>,
    thumbnail_height: Option<u64>,
    blurhash: Option<String>,
    step: UploadStep,
)
    requires
        call_ensures(
            Room::upload_image_for_event,
            (
                &room,
                original_file_path,
                thumbnail_file_path,
                original_mimetype,
                original_size,
                original_width,
                original_height,
                thumbnail_mimetype,
                thumbnail_size,
                thumbnail_width,
                thumbnail_height,
                blurhash,
            ),
            step,
        ),
    ensures
        looks_at(step, original_file_path) || step matches UploadStep::Done { result: Err(_) },
        looks_at(step, original_file_path) ==> {
            &&& of_family(original_mimetype@, "image"@)
            &&& countable(original_size)
            &&& countable(original_width)
            &&& countable(original_height)
        },
        of_family(original_mimetype@, "image"@) && countable(original_size) && countable(
            original_width,
        ) && countable(original_height) ==> looks_at(step, original_file_path) || names(
            original_file_path@,
            None,
        ),
{
}

/// A request to upload a voice message, taken from its arguments alone: the file system is asked about
/// the path exactly if the description is in order and the path has a file name.
pub proof fn law_voice_request_is_judged_by_its_description(
    room: Room,
    file_path: String,
    mimetype: String,
    size: u64,
    duration: Duration,
    waveform: Vec<u32>,
    step: UploadStep,
)
    requires
        call_ensures(
            Room::upload_voice_for_event,
            (&room, file_path, mimetype, size, duration, waveform),
            step,
        ),
    ensures
        looks_at(step, file_path) || step matches UploadStep::Done { result: Err(_) },
        looks_at(step, file_path) ==> {
            &&& of_family(mimetype@, "audio"@)
            &&& countable(size)
            &&& duration.secs > 0 || duration.nanos > 0
            &&& forall|i: int| 0 <= i < waveform@.len() ==> finite(#[trigger] waveform@[i])
        },
        of_family(mimetype@, "audio"@) && countable(size) && (duration.secs > 0 || duration.nanos
            > 0) && (forall|i: int| 0 <= i < waveform@.len() ==> finite(#[trigger] waveform@[i]))
            ==> looks_at(step, file_path) || names(file_path@, None),
{
}

/// A request to upload a file, taken from its arguments alone: the file system is asked about the path
/// exactly if the description is in order and the path has a file name.
pub proof fn law_file_request_is_judged_by_its_description(
    room: Room,
    file_path: String,
    thumbnail_file_path: Option<String>,
    mimetype: String,
    size: u64,
    thumbnail_mimetype: Option<String>,
    thumbnail_size: Option<u64>,
    thumbnail_width: Option<u64>,
    thumbnail_height: Option<u64>,
    step: UploadStep,
)
    requires
        call_ensures(
            Room::upload_file_for_event,
            (
                &room,
                file_path,
                thumbnail_file_path,
                mimetype,
                size,
                thumbnail_mimetype,
                thumbnail_size,
                thumbnail_width,
                thumbnail_height,
            ),
            step,
        ),
    ensures
        looks_at(step, file_path) || step matches UploadStep::Done { result: Err(_) },
        looks_at(step, file_path) ==> media_type(mimetype@) is Ok && countable(size),
        media_type(mimetype@) is Ok && countable(size) ==> looks_at(step, file_path) || names(
            file_path@,
            None,
        ),
{
}

/// The name under which failures speak of the file that is looked at.
pub open spec fn file_field(subject: Subject) -> Seq<char> {
    match subject {
        Subject::Thumbnail { .. } => "thumbnail_file_path"@,
        Subject::Original { plan, .. } => match plan.details {
            MediaDetails::Image { .. } => "original_file_path"@,
            MediaDetails::Video { .. } => "original_file_path"@,
            MediaDetails::Voice { .. } => "file_path"@,
            MediaDetails::File => "file_path"@,
        },
    }
}

/// The path and the size of the file that is looked at.
pub open spec fn file_expected(subject: Subject) -> (Seq<char>, u64) {
    match subject {
        Subject::Original { plan, .. } => (plan.path@, plan.size),
        Subject::Thumbnail { thumbnail, .. } => (thumbnail.path@, thumbnail.size),
    }
}

/// An upload goes on with what the file system says of a path only if there is a file of the size that
/// the client gave. An image, a voice message and a thumbnail are read next; for a video or a file the
/// thumbnail comes next.
pub proof fn law_file_must_have_the_size_that_was_given(
    request: StatRequest,
    stat: Result<FileStat, String>,
    step: UploadStep,
)
    requires
        call_ensures(StatRequest::answer, (request, stat), step),
    ensures
        ({
            let field = file_field(request.subject);
            let (path, size) = file_expected(request.subject);
            match stat {
                Err(debug) => refuses(
                    step,
                    "Could not stat "@ + field + ": "@ + path,
                    Some(debug@),
                ),
                Ok(found) => {
                    &&& !found.is_file ==> refuses(
                        step,
                        field + " must point to a file: "@ + path,
                        None,
                    )
                    &&& found.is_file && found.len != size ==> refuses(
                        step,
                        field + " size mismatch: expected "@ + decimal(size as nat) + ", got "@
                            + decimal(found.len as nat),
                        None,
                    )
                    &&& found.is_file && found.len == size ==> match request.subject {
                        Subject::Thumbnail { thumbnail, .. } => reads_file(step, thumbnail.path),
                        Subject::Original { plan, .. } => if plan.details is Image
                            || plan.details is Voice {
                            reads_file(step, plan.path)
                        } else {
                            !(step is Read)
                        },
                    }
                },
            }
        }),
{
}

/// An upload goes on with what was read only if it has the size that the client gave. After an image
/// or a voice message the thumbnail comes next, and after a thumbnail the room is asked whether it is
/// encrypted.
pub proof fn law_what_was_read_must_have_the_size_that_was_given(
    request: ReadRequest,
    contents: Result<Vec<u8>, String>,
    step: UploadStep,
)
    requires
        call_ensures(ReadRequest::answer, (request, contents), step),
    ensures
        ({
            let field = file_field(request.subject);
            let (path, size) = file_expected(request.subject);
            match contents {
                Err(debug) => refuses(
                    step,
                    "Could not read "@ + field + ": "@ + path,
                    Some(debug@),
                ),
                Ok(data) => {
                    &&& data@.len() != size ==> refuses(
                        step,
                        field + " size mismatch: expected "@ + decimal(size as nat) + ", got "@
                            + decimal(data@.len()),
                        None,
                    )
                    &&& data@.len() == size && request.subject is Thumbnail ==> step is AskEncryption
                },
            }
        }),
{
}

/// Once the media itself is in order, what the client says of a thumbnail is judged: an upload fails
/// where planning the thumbnail fails, asks whether the room is encrypted where there is no thumbnail,
/// and looks at the thumbnail's file where there is one.
pub proof fn law_thumbnail_is_planned_after_its_media(
    plan: MediaPlan,
    input: ThumbnailInput,
    stat: FileStat,
    data: Vec<u8>,
    planned: Result<Option<ThumbnailPlan>, UploadedImageError>,
    step: UploadStep,
)
    requires
        call_ensures(plan_thumbnail, (input,), planned),
        if plan.details is Image || plan.details is Voice {
            data@.len() == plan.size && call_ensures(
                ReadRequest::answer,
                (ReadRequest { subject: Subject::Original { plan, input } }, Ok(data)),
                step,
            )
        } else {
            stat.is_file && stat.len == plan.size && call_ensures(
                StatRequest::answer,
                (StatRequest { subject: Subject::Original { plan, input } }, Ok(stat)),
                step,
            )
        },
    ensures
        match planned {
            Err(error) => step matches UploadStep::Done { result: Err(failure) } && failure@
                == error@,
            Ok(None) => step is AskEncryption,
            Ok(Some(thumbnail)) => looks_at(step, thumbnail.path),
        },
{
}

/// An upload that cannot find out whether the room is encrypted, or whose bytes do not get uploaded,
/// fails with what stood in its way; otherwise it goes on.
pub proof fn law_upload_fails_with_what_stood_in_its_way(
    before: UploadStep,
    answer: UploadAnswer,
    after: UploadStep,
)
    requires
        upload_leads(before, answer, after),
    ensures
        match answer {
            UploadAnswer::Encryption(Err(problem)) => after matches UploadStep::Done {
                result: Err(failure),
            } && failure@ == problem@,
            UploadAnswer::Encrypted(Err(UploadTrouble::Failed(problem))) => after
                matches UploadStep::Done { result: Err(failure) } && failure@ == problem@,
            UploadAnswer::Plain(Err(UploadTrouble::Failed(problem))) => after
                matches UploadStep::Done { result: Err(failure) } && failure@ == problem@,
            UploadAnswer::Encrypted(Err(UploadTrouble::Unreadable(debug))) => refuses(
                after,
                "Could not read media file: "@ + before->UploadEncrypted_next.pending.plan.path@,
                Some(debug@),
            ),
            UploadAnswer::Plain(Err(UploadTrouble::Unreadable(debug))) => refuses(
                after,
                "Could not read media file: "@ + before->UploadPlain_next.pending.plan.path@,
                Some(debug@),
            ),
            UploadAnswer::Stat(_) => true,
            UploadAnswer::Read(_) => true,
            _ => !(after matches UploadStep::Done { result: Err(_) }),
        },
{
}

} // verus!
