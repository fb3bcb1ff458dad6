//! Drafts of messages.

use vstd::prelude::*;

use crate::errors::{foreign_client_error, plain_client_error, ClientError, ClientText, ForeignError};
use crate::ids::{event_id_problem, lemma_event_id_string, EventId};
use crate::local_files::{law_plain_name_is_kept, names, plain_name, without_colon, LocalPath};
use crate::media::{AudioInfo, Duration, FileInfo, ImageInfo, ThumbnailInfo, VideoInfo};
use crate::room::Room;
use crate::text::opt_text;

verus! {

/// Where the bytes of an attachment come from.
#[derive(Debug)]
pub enum UploadSource {
    /// A file at a path.
    File { filename: String },
    /// The bytes themselves.
    Data { bytes: Vec<u8>, filename: String },
}

/// A draft of a message.
#[derive(Debug)]
pub struct ComposerDraft {
    /// The draft in plain text.
    pub plain_text: String,
    /// The draft in HTML, if it is formatted.
    pub html_text: Option<String>,
    /// What the draft is for.
    pub draft_type: ComposerDraftType,
    /// What is attached to the draft.
    pub attachments: Vec<DraftAttachment>,
}

/// An attachment of a draft.
#[derive(Debug)]
pub enum DraftAttachment {
    Audio { audio_info: AudioInfo, source: UploadSource },
    File { file_info: FileInfo, source: UploadSource },
    Image { image_info: ImageInfo, source: UploadSource, thumbnail_source: Option<UploadSource> },
    Video { video_info: VideoInfo, source: UploadSource, thumbnail_source: Option<UploadSource> },
}

/// What a draft is for.
#[derive(Debug)]
pub enum ComposerDraftType {
    /// A new message.
    NewMessage,
    /// A reply to an event.
    Reply { event_id: String },
    /// An edit of an event.
    Edit { event_id: String },
}

/// A draft as it is stored.
#[derive(Debug)]
pub struct SdkComposerDraft {
    pub plain_text: String,
    pub html_text: Option<String>,
    pub draft_type: SdkComposerDraftType,
    pub attachments: Vec<SdkDraftAttachment>,
}

/// What a stored draft is for.
#[derive(Debug)]
pub enum SdkComposerDraftType {
    NewMessage,
    Reply { event_id: EventId },
    Edit { event_id: EventId },
}

/// An attachment as it is stored.
#[derive(Debug)]
pub struct SdkDraftAttachment {
    pub filename: String,
    pub content: DraftAttachmentContent,
}

/// The bytes of a stored attachment, and their description.
#[derive(Debug)]
pub enum DraftAttachmentContent {
    Image {
        data: Vec<u8>,
        mimetype: Option<String>,
        size: Option<u64>,
        width: Option<u64>,
        height: Option<u64>,
        blurhash: Option<String>,
        thumbnail: Option<DraftThumbnail>,
    },
    Video {
        data: Vec<u8>,
        mimetype: Option<String>,
        size: Option<u64>,
        width: Option<u64>,
        height: Option<u64>,
        duration: Option<Duration>,
        blurhash: Option<String>,
        thumbnail: Option<DraftThumbnail>,
    },
    Audio {
        data: Vec<u8>,
        mimetype: Option<String>,
        size: Option<u64>,
        duration: Option<Duration>,
    },
    File { data: Vec<u8>, mimetype: Option<String>, size: Option<u64> },
}

/// The thumbnail of a stored attachment.
#[derive(Debug)]
pub struct DraftThumbnail {
    pub filename: String,
    pub data: Vec<u8>,
    pub mimetype: Option<String>,
    pub width: Option<u64>,
    pub height: Option<u64>,
    pub size: Option<u64>,
}

/// The bytes of a stored thumbnail, as a client sees them.
pub open spec fn thumbnail_bytes(thumbnail: Option<DraftThumbnail>) -> Option<UploadSource> {
    match thumbnail {
        Some(thumbnail) => Some(
            UploadSource::Data { bytes: thumbnail.data, filename: thumbnail.filename },
        ),
        None => None,
    }
}

/// The description of a stored thumbnail, as a client sees it.
pub open spec fn thumbnail_description(thumbnail: Option<DraftThumbnail>) -> Option<
    ThumbnailInfo,
> {
    match thumbnail {
        Some(thumbnail) => Some(
            ThumbnailInfo {
                width: thumbnail.width,
                height: thumbnail.height,
                mimetype: thumbnail.mimetype,
                size: thumbnail.size,
            },
        ),
        None => None,
    }
}

fn split_thumbnail(thumbnail: Option<DraftThumbnail>) -> (r: (
    Option<UploadSource>,
    Option<ThumbnailInfo>,
))
    ensures
        r.0 == thumbnail_bytes(thumbnail),
        r.1 == thumbnail_description(thumbnail),
{
    match thumbnail {
        Some(thumbnail) => {
            let DraftThumbnail { filename, data, mimetype, width, height, size } = thumbnail;
            (
                Some(UploadSource::Data { bytes: data, filename }),
                Some(ThumbnailInfo { width, height, mimetype, size }),
            )
        },
        None => (None, None),
    }
}

impl From<SdkDraftAttachment> for DraftAttachment {
    fn from(value: SdkDraftAttachment) -> (r: Self) {
        let SdkDraftAttachment { filename, content } = value;
        match content {
            DraftAttachmentContent::Image { data, mimetype, size, width, height, blurhash, thumbnail } => {
                let (thumbnail_source, thumbnail_info) = split_thumbnail(thumbnail);
                DraftAttachment::Image {
                    image_info: ImageInfo {
                        height,
                        width,
                        mimetype,
                        size,
                        thumbnail_info,
                        thumbnail_source: None,
                        blurhash,
                        is_animated: None,
                    },
                    source: UploadSource::Data { bytes: data, filename },
                    thumbnail_source,
                }
            },
            DraftAttachmentContent::Video {
                data,
                mimetype,
                size,
                width,
                height,
                duration,
                blurhash,
                thumbnail,
            } => {
                let (thumbnail_source, thumbnail_info) = split_thumbnail(thumbnail);
                DraftAttachment::Video {
                    video_info: VideoInfo {
                        duration,
                        height,
                        width,
                        mimetype,
                        size,
                        thumbnail_info,
                        thumbnail_source: None,
                        blurhash,
                    },
                    source: UploadSource::Data { bytes: data, filename },
                    thumbnail_source,
                }
            },
            DraftAttachmentContent::Audio { data, mimetype, size, duration } => DraftAttachment::Audio {
                audio_info: AudioInfo { duration, size, mimetype },
                source: UploadSource::Data { bytes: data, filename },
            },
            DraftAttachmentContent::File { data, mimetype, size } => DraftAttachment::File {
                file_info: FileInfo {
                    mimetype,
                    size,
                    thumbnail_info: None,
                    thumbnail_source: None,
                },
                source: UploadSource::Data { bytes: data, filename },
            },
        }
    }
}

/// A stored attachment, as a client sees it.
pub open spec fn shown_attachment(stored: SdkDraftAttachment) -> DraftAttachment {
    match stored.content {
        DraftAttachmentContent::Image { data, mimetype, size, width, height, blurhash, thumbnail } => {
            DraftAttachment::Image {
                image_info: ImageInfo {
                    height,
                    width,
                    mimetype,
                    size,
                    thumbnail_info: thumbnail_description(thumbnail),
                    thumbnail_source: None,
                    blurhash,
                    is_animated: None,
                },
                source: UploadSource::Data { bytes: data, filename: stored.filename },
                thumbnail_source: thumbnail_bytes(thumbnail),
            }
        },
        DraftAttachmentContent::Video {
            data,
            mimetype,
            size,
            width,
            height,
            duration,
            blurhash,
            thumbnail,
        } => DraftAttachment::Video {
            video_info: VideoInfo {
                duration,
                height,
                width,
                mimetype,
                size,
                thumbnail_info: thumbnail_description(thumbnail),
                thumbnail_source: None,
                blurhash,
            },
            source: UploadSource::Data { bytes: data, filename: stored.filename },
            thumbnail_source: thumbnail_bytes(thumbnail),
        },
        DraftAttachmentContent::Audio { data, mimetype, size, duration } => DraftAttachment::Audio {
            audio_info: AudioInfo { duration, size, mimetype },
            source: UploadSource::Data { bytes: data, filename: stored.filename },
        },
        DraftAttachmentContent::File { data, mimetype, size } => DraftAttachment::File {
            file_info: FileInfo { mimetype, size, thumbnail_info: None, thumbnail_source: None },
            source: UploadSource::Data { bytes: data, filename: stored.filename },
        },
    }
}

impl vstd::std_specs::convert::FromSpecImpl<SdkDraftAttachment> for DraftAttachment {
    open spec fn obeys_from_spec() -> bool {
        true
    }

    open spec fn from_spec(value: SdkDraftAttachment) -> Self {
        shown_attachment(value)
    }
}

/// What a stored draft is for, as a client sees it.
pub open spec fn shown_type(stored: SdkComposerDraftType) -> ComposerDraftType {
    match stored {
        SdkComposerDraftType::NewMessage => ComposerDraftType::NewMessage,
        SdkComposerDraftType::Reply { event_id } => ComposerDraftType::Reply {
            event_id: event_id.string(),
        },
        SdkComposerDraftType::Edit { event_id } => ComposerDraftType::Edit {
            event_id: event_id.string(),
        },
    }
}

impl From<SdkComposerDraftType> for ComposerDraftType {
    fn from(value: SdkComposerDraftType) -> (r: Self) {
        match value {
            SdkComposerDraftType::NewMessage => ComposerDraftType::NewMessage,
            SdkComposerDraftType::Reply { event_id } => ComposerDraftType::Reply {
                event_id: event_id.into_string(),
            },
            SdkComposerDraftType::Edit { event_id } => ComposerDraftType::Edit {
                event_id: event_id.into_string(),
            },
        }
    }
}

impl vstd::std_specs::convert::FromSpecImpl<SdkComposerDraftType> for ComposerDraftType {
    open spec fn obeys_from_spec() -> bool {
        true
    }

    open spec fn from_spec(value: SdkComposerDraftType) -> Self {
        shown_type(value)
    }
}

impl ComposerDraft {
    /// The draft shows a client what is stored.
    pub open spec fn shows(self, stored: SdkComposerDraft) -> bool {
        &&& self.plain_text == stored.plain_text
        &&& self.html_text == stored.html_text
        &&& self.draft_type == shown_type(stored.draft_type)
        &&& self.attachments@ == stored.attachments@.map_values(
            |attachment: SdkDraftAttachment| shown_attachment(attachment),
        )
    }

    /// Shows a client what is stored. What is shown can always be stored again, and is then what it
    /// was.
    pub fn from(value: SdkComposerDraft) -> (r: ComposerDraft)
        ensures
            r.shows(value),
            value.draft_type.accepted(),
            forall|files: Seq<AttachmentFiles>| #[trigger] r.error(files) is None,
            forall|files: Seq<AttachmentFiles>, again: SdkComposerDraft| #[trigger]
                r.kept_by(again, files) ==> again.same_as(value),
    {
        let ghost stored_draft = value;
        // Whoever reads an event ID learns that it was accepted.
        match &value.draft_type {
            SdkComposerDraftType::NewMessage => {},
            SdkComposerDraftType::Reply { event_id } => {
                event_id.as_str();
            },
            SdkComposerDraftType::Edit { event_id } => {
                event_id.as_str();
            },
        }
        let SdkComposerDraft { plain_text, html_text, draft_type, attachments: stored } = value;
        let ghost all = stored@;
        let mut attachments: Vec<DraftAttachment> = Vec::new();
        for attachment in list: stored
            invariant
                list.seq() == all,
                attachments@ == all.take(list.index()).map_values(
                    |attachment: SdkDraftAttachment| shown_attachment(attachment),
                ),
        {
            let ghost now = list.index();
            attachments.push(DraftAttachment::from(attachment));
            assert(all.take(now + 1) =~= all.take(now).push(all[now]));
            assert(attachments@ =~= all.take(now + 1).map_values(
                |attachment: SdkDraftAttachment| shown_attachment(attachment),
            ));
        }
        assert(all.take(all.len() as int) =~= all);
        let draft = ComposerDraft {
            plain_text,
            html_text,
            draft_type: ComposerDraftType::from(draft_type),
            attachments,
        };
        proof {
            assert(draft.shows(stored_draft));
            assert forall|files: Seq<AttachmentFiles>| #[trigger] draft.error(files) is None by {
                law_draft_survives(stored_draft, draft, stored_draft, files);
            }
            assert forall|files: Seq<AttachmentFiles>, again: SdkComposerDraft| #[trigger]
                draft.kept_by(again, files) implies again.same_as(stored_draft) by {
                law_draft_survives(stored_draft, draft, again, files);
            }
        }
        draft
    }
}

/// The file that a source is in: its name, if its path has one, and what it holds, if it could be
/// read.
#[derive(Debug)]
pub struct SourceFile {
    pub file_name: Option<String>,
    pub contents: Option<Vec<u8>>,
}

/// The files that an attachment is in. Of a source that is no file, nothing is used.
#[derive(Debug)]
pub struct AttachmentFiles {
    pub source: SourceFile,
    pub thumbnail: SourceFile,
}

/// Why the bytes of a source cannot be had.
pub open spec fn source_error(source: UploadSource, file: SourceFile) -> Option<ClientText> {
    match source {
        UploadSource::Data { .. } => None,
        UploadSource::File { .. } => match (file.file_name, file.contents) {
            (None, _) => Some(plain_client_error("Invalid attachment path"@)),
            (Some(_), None) => Some(plain_client_error("Could not load file"@)),
            (Some(_), Some(_)) => None,
        },
    }
}

/// The bytes of a source, and the name of the file that they are or were in.
pub open spec fn source_bytes(source: UploadSource, file: SourceFile) -> (Vec<u8>, String) {
    match source {
        UploadSource::Data { bytes, filename } => (bytes, filename),
        UploadSource::File { .. } => (file.contents->0, file.file_name->0),
    }
}

/// Takes the bytes of a source, given the name of the file and what it holds.
pub fn take_source(source: UploadSource, file: SourceFile) -> (r: Result<
    (Vec<u8>, String),
    ClientError,
>)
    ensures
        match r {
            Ok(read) => source_error(source, file) is None && read == source_bytes(source, file),
            Err(error) => source_error(source, file) == Some(error@),
        },
{
    match source {
        UploadSource::Data { bytes, filename } => Ok((bytes, filename)),
        UploadSource::File { filename: _ } => {
            let filename = match file.file_name {
                Some(filename) => filename,
                None => return Err(ClientError::plain("Invalid attachment path")),
            };
            match file.contents {
                Some(bytes) => Ok((bytes, filename)),
                None => Err(ClientError::plain("Could not load file")),
            }
        },
    }
}

impl SourceFile {
    /// The name is that of the source's path, as this machine reads paths, and the contents are those
    /// that were read.
    pub open spec fn belongs_to(self, source: UploadSource, contents: Option<Vec<u8>>) -> bool {
        &&& self.contents == contents
        &&& match source {
            UploadSource::File { filename } => names(filename@, self.file_name),
            UploadSource::Data { .. } => self.file_name is None,
        }
    }

    fn of(source: &UploadSource, contents: Option<Vec<u8>>) -> (r: SourceFile)
        ensures
            r.belongs_to(*source, contents),
    {
        let file_name = match source {
            UploadSource::File { filename } => LocalPath::new(filename.clone()).file_name,
            UploadSource::Data { .. } => None,
        };
        SourceFile { file_name, contents }
    }
}

/// Takes the bytes of a source: its own, or those that were read from its file, if they could be.
pub fn read_upload_source(source: UploadSource, contents: Option<Vec<u8>>) -> (r: Result<
    (Vec<u8>, String),
    ClientError,
>)
    ensures
        exists|file: SourceFile| #[trigger]
            file.belongs_to(source, contents) && match r {
                Ok(read) => source_error(source, file) is None && read == source_bytes(
                    source,
                    file,
                ),
                Err(error) => source_error(source, file) == Some(error@),
            },
{
    let file = SourceFile::of(&source, contents);
    take_source(source, file)
}

/// Why a thumbnail cannot be stored. One without a description, or without a source, is not stored
/// at all.
pub open spec fn thumbnail_error(
    info: Option<ThumbnailInfo>,
    source: Option<UploadSource>,
    file: SourceFile,
) -> Option<ClientText> {
    match (info, source) {
        (Some(_), Some(source)) => source_error(source, file),
        _ => None,
    }
}

/// The thumbnail as it is stored.
pub open spec fn stored_thumbnail(
    info: Option<ThumbnailInfo>,
    source: Option<UploadSource>,
    file: SourceFile,
) -> Option<DraftThumbnail> {
    match (info, source) {
        (Some(info), Some(source)) => Some(
            DraftThumbnail {
                filename: source_bytes(source, file).1,
                data: source_bytes(source, file).0,
                mimetype: info.mimetype,
                width: info.width,
                height: info.height,
                size: info.size,
            },
        ),
        _ => None,
    }
}

fn draft_thumbnail(
    info: Option<ThumbnailInfo>,
    source: Option<UploadSource>,
    file: SourceFile,
) -> (r: Result<Option<DraftThumbnail>, ClientError>)
    ensures
        match r {
            Ok(stored) => thumbnail_error(info, source, file) is None && stored == stored_thumbnail(
                info,
                source,
                file,
            ),
            Err(error) => thumbnail_error(info, source, file) == Some(error@),
        },
{
    match (info, source) {
        (Some(info), Some(source)) => {
            let (data, filename) = take_source(source, file)?;
            Ok(
                Some(
                    DraftThumbnail {
                        filename,
                        data,
                        mimetype: info.mimetype,
                        width: info.width,
                        height: info.height,
                        size: info.size,
                    },
                ),
            )
        },
        _ => Ok(None),
    }
}

impl DraftAttachment {
    /// Why the attachment cannot be stored: its own bytes come first, its thumbnail second.
    pub open spec fn error(self, files: AttachmentFiles) -> Option<ClientText> {
        match self {
            DraftAttachment::Audio { audio_info, source } => source_error(source, files.source),
            DraftAttachment::File { file_info, source } => source_error(source, files.source),
            DraftAttachment::Image { image_info, source, thumbnail_source } => {
                match source_error(source, files.source) {
                    Some(error) => Some(error),
                    None => thumbnail_error(
                        image_info.thumbnail_info,
                        thumbnail_source,
                        files.thumbnail,
                    ),
                }
            },
            DraftAttachment::Video { video_info, source, thumbnail_source } => {
                match source_error(source, files.source) {
                    Some(error) => Some(error),
                    None => thumbnail_error(
                        video_info.thumbnail_info,
                        thumbnail_source,
                        files.thumbnail,
                    ),
                }
            },
        }
    }

    /// The attachment as it is stored.
    pub open spec fn stored(self, files: AttachmentFiles) -> SdkDraftAttachment {
        match self {
            DraftAttachment::Audio { audio_info, source } => SdkDraftAttachment {
                filename: source_bytes(source, files.source).1,
                content: DraftAttachmentContent::Audio {
                    data: source_bytes(source, files.source).0,
                    mimetype: audio_info.mimetype,
                    size: audio_info.size,
                    duration: audio_info.duration,
                },
            },
            DraftAttachment::File { file_info, source } => SdkDraftAttachment {
                filename: source_bytes(source, files.source).1,
                content: DraftAttachmentContent::File {
                    data: source_bytes(source, files.source).0,
                    mimetype: file_info.mimetype,
                    size: file_info.size,
                },
            },
            DraftAttachment::Image { image_info, source, thumbnail_source } => SdkDraftAttachment {
                filename: source_bytes(source, files.source).1,
                content: DraftAttachmentContent::Image {
                    data: source_bytes(source, files.source).0,
                    mimetype: image_info.mimetype,
                    size: image_info.size,
                    width: image_info.width,
                    height: image_info.height,
                    blurhash: image_info.blurhash,
                    thumbnail: stored_thumbnail(
                        image_info.thumbnail_info,
                        thumbnail_source,
                        files.thumbnail,
                    ),
                },
            },
            DraftAttachment::Video { video_info, source, thumbnail_source } => SdkDraftAttachment {
                filename: source_bytes(source, files.source).1,
                content: DraftAttachmentContent::Video {
                    data: source_bytes(source, files.source).0,
                    mimetype: video_info.mimetype,
                    size: video_info.size,
                    width: video_info.width,
                    height: video_info.height,
                    duration: video_info.duration,
                    blurhash: video_info.blurhash,
                    thumbnail: stored_thumbnail(
                        video_info.thumbnail_info,
                        thumbnail_source,
                        files.thumbnail,
                    ),
                },
            },
        }
    }
}

impl SdkDraftAttachment {
    /// Turns an attachment into what is stored of it, given what was read from its files.
    pub fn try_from(value: DraftAttachment, contents: AttachmentContents) -> (r: Result<
        SdkDraftAttachment,
        ClientError,
    >)
        ensures
            exists|files: AttachmentFiles| #[trigger]
                value.comes_with(contents, files) && match r {
                    Ok(stored) => value.error(files) is None && stored == value.stored(files),
                    Err(error) => value.error(files) == Some(error@),
                },
    {
        let files = value.name_files(contents);
        SdkDraftAttachment::with_files(value, files)
    }

    /// Turns an attachment into what is stored of it, given the names of its files and what they
    /// hold.
    pub fn with_files(value: DraftAttachment, files: AttachmentFiles) -> (r: Result<
        SdkDraftAttachment,
        ClientError,
    >)
        ensures
            match r {
                Ok(stored) => value.error(files) is None && stored == value.stored(files),
                Err(error) => value.error(files) == Some(error@),
            },
    {
        match value {
            DraftAttachment::Image { image_info, source, thumbnail_source } => {
                let (data, filename) = take_source(source, files.source)?;
                let thumbnail = draft_thumbnail(
                    image_info.thumbnail_info,
                    thumbnail_source,
                    files.thumbnail,
                )?;
                Ok(
                    SdkDraftAttachment {
                        filename,
                        content: DraftAttachmentContent::Image {
                            data,
                            mimetype: image_info.mimetype,
                            size: image_info.size,
                            width: image_info.width,
                            height: image_info.height,
                            blurhash: image_info.blurhash,
                            thumbnail,
                        },
                    },
                )
            },
            DraftAttachment::Video { video_info, source, thumbnail_source } => {
                let (data, filename) = take_source(source, files.source)?;
                let thumbnail = draft_thumbnail(
                    video_info.thumbnail_info,
                    thumbnail_source,
                    files.thumbnail,
                )?;
                Ok(
                    SdkDraftAttachment {
                        filename,
                        content: DraftAttachmentContent::Video {
                            data,
                            mimetype: video_info.mimetype,
                            size: video_info.size,
                            width: video_info.width,
                            height: video_info.height,
                            duration: video_info.duration,
                            blurhash: video_info.blurhash,
                            thumbnail,
                        },
                    },
                )
            },
            DraftAttachment::Audio { audio_info, source } => {
                let (data, filename) = take_source(source, files.source)?;
                Ok(
                    SdkDraftAttachment {
                        filename,
                        content: DraftAttachmentContent::Audio {
                            data,
                            mimetype: audio_info.mimetype,
                            size: audio_info.size,
                            duration: audio_info.duration,
                        },
                    },
                )
            },
            DraftAttachment::File { file_info, source } => {
                let (data, filename) = take_source(source, files.source)?;
                Ok(
                    SdkDraftAttachment {
                        filename,
                        content: DraftAttachmentContent::File {
                            data,
                            mimetype: file_info.mimetype,
                            size: file_info.size,
                        },
                    },
                )
            },
        }
    }
}

impl ComposerDraftType {
    /// The ID of the event that the draft is about, if any.
    pub open spec fn event(self) -> Option<Seq<char>> {
        match self {
            ComposerDraftType::NewMessage => None,
            ComposerDraftType::Reply { event_id } => Some(event_id@),
            ComposerDraftType::Edit { event_id } => Some(event_id@),
        }
    }

    /// The stored draft is for the same.
    pub open spec fn kept_by(self, stored: SdkComposerDraftType) -> bool {
        match (self, stored) {
            (ComposerDraftType::NewMessage, SdkComposerDraftType::NewMessage) => true,
            (
                ComposerDraftType::Reply { event_id },
                SdkComposerDraftType::Reply { event_id: kept },
            ) => kept@ == event_id@,
            (
                ComposerDraftType::Edit { event_id },
                SdkComposerDraftType::Edit { event_id: kept },
            ) => kept@ == event_id@,
            _ => false,
        }
    }

    /// Says what is wrong with the ID of the event, if anything is.
    pub fn check(&self) -> (r: Result<(), ForeignError>)
        ensures
            match r {
                Ok(_) => self.event() matches Some(event_id) ==> event_id_problem(event_id)
                    is None,
                Err(error) => self.event() matches Some(event_id) && event_id_problem(event_id)
                    == Some(error@),
            },
    {
        let event_id = match self {
            ComposerDraftType::NewMessage => return Ok(()),
            ComposerDraftType::Reply { event_id } => event_id,
            ComposerDraftType::Edit { event_id } => event_id,
        };
        match EventId::parse(event_id.as_str()) {
            Ok(_) => Ok(()),
            Err(error) => Err(error),
        }
    }
}

impl SdkComposerDraftType {
    /// Turns what a draft is for into what is stored of it, or says what is wrong with the ID of
    /// the event.
    pub fn try_from(value: ComposerDraftType) -> (r: Result<SdkComposerDraftType, ForeignError>)
        ensures
            match r {
                Ok(stored) => value.kept_by(stored) && (value.event() matches Some(event_id)
                    ==> event_id_problem(event_id) is None),
                Err(error) => value.event() matches Some(event_id) && event_id_problem(event_id)
                    == Some(error@),
            },
    {
        match value {
            ComposerDraftType::NewMessage => Ok(SdkComposerDraftType::NewMessage),
            ComposerDraftType::Reply { event_id } => match EventId::parse(event_id.as_str()) {
                Ok(event_id) => Ok(SdkComposerDraftType::Reply { event_id }),
                Err(error) => Err(error),
            },
            ComposerDraftType::Edit { event_id } => match EventId::parse(event_id.as_str()) {
                Ok(event_id) => Ok(SdkComposerDraftType::Edit { event_id }),
                Err(error) => Err(error),
            },
        }
    }
}

/// What is wrong with the ID of an event that may be missing.
pub open spec fn optional_event_problem(event_id: Option<Seq<char>>) -> Option<ClientText> {
    match event_id {
        Some(event_id) => match event_id_problem(event_id) {
            Some(problem) => Some(foreign_client_error(problem)),
            None => None,
        },
        None => None,
    }
}

/// The first of the attachments that cannot be stored says why.
pub open spec fn attachments_error(
    attachments: Seq<DraftAttachment>,
    files: Seq<AttachmentFiles>,
) -> Option<ClientText>
    decreases attachments.len(),
{
    if attachments.len() == 0 {
        None
    } else {
        match attachments_error(attachments.drop_last(), files) {
            Some(error) => Some(error),
            None => attachments.last().error(files[attachments.len() - 1]),
        }
    }
}

proof fn lemma_error_stays(attachments: Seq<DraftAttachment>, files: Seq<AttachmentFiles>, n: int)
    requires
        0 <= n <= attachments.len(),
        attachments_error(attachments.take(n), files) is Some,
    ensures
        attachments_error(attachments, files) == attachments_error(attachments.take(n), files),
    decreases attachments.len() - n,
{
    if n == attachments.len() {
        assert(attachments.take(n) =~= attachments);
    } else {
        assert(attachments.take(n + 1).drop_last() =~= attachments.take(n));
        lemma_error_stays(attachments, files, n + 1);
    }
}

impl ComposerDraft {
    /// Why the draft cannot be stored: the ID of its event comes first, then the attachments in
    /// their order.
    pub open spec fn error(self, files: Seq<AttachmentFiles>) -> Option<ClientText> {
        match optional_event_problem(self.draft_type.event()) {
            Some(error) => Some(error),
            None => attachments_error(self.attachments@, files),
        }
    }

    /// The files of each attachment are named by its paths and hold what was read.
    pub open spec fn comes_with(
        self,
        contents: Seq<AttachmentContents>,
        files: Seq<AttachmentFiles>,
    ) -> bool {
        &&& files.len() == self.attachments@.len()
        &&& forall|i: int|
            0 <= i < files.len() ==> self.attachments@[i].comes_with(
                contents[i],
                #[trigger] files[i],
            )
    }

    /// What is stored is the draft, with the bytes of its attachments.
    pub open spec fn kept_by(self, stored: SdkComposerDraft, files: Seq<AttachmentFiles>) -> bool {
        &&& stored.plain_text == self.plain_text
        &&& stored.html_text == self.html_text
        &&& self.draft_type.kept_by(stored.draft_type)
        &&& stored.attachments@.len() == self.attachments@.len()
        &&& forall|i: int|
            0 <= i < self.attachments@.len() ==> #[trigger] stored.attachments@[i]
                == self.attachments@[i].stored(files[i])
    }
}

impl SdkComposerDraft {
    /// Turns a draft into what is stored of it, given what was read from the files of each
    /// attachment.
    pub fn try_from(value: ComposerDraft, contents: Vec<AttachmentContents>) -> (r: Result<
        SdkComposerDraft,
        ClientError,
    >)
        requires
            contents@.len() == value.attachments@.len(),
        ensures
            exists|files: Seq<AttachmentFiles>| #[trigger]
                value.comes_with(contents@, files) && match r {
                    Ok(stored) => value.error(files) is None && value.kept_by(stored, files),
                    Err(error) => value.error(files) == Some(error@),
                },
    {
        let ghost given = contents@;
        let mut files: Vec<AttachmentFiles> = Vec::new();
        for content in list: contents
            invariant
                list.seq() == given,
                given.len() == value.attachments@.len(),
                files@.len() == list.index(),
                forall|i: int|
                    0 <= i < list.index() ==> value.attachments@[i].comes_with(
                        given[i],
                        #[trigger] files@[i],
                    ),
        {
            let i: usize = files.len();
            let named = value.attachments[i].name_files(content);
            files.push(named);
        }
        assert(value.comes_with(given, files@));
        SdkComposerDraft::with_files(value, files)
    }

    /// Turns a draft into what is stored of it, given the names of the files of each attachment and
    /// what they hold.
    pub fn with_files(value: ComposerDraft, files: Vec<AttachmentFiles>) -> (r: Result<
        SdkComposerDraft,
        ClientError,
    >)
        requires
            files@.len() == value.attachments@.len(),
        ensures
            match r {
                Ok(stored) => value.error(files@) is None && value.kept_by(stored, files@),
                Err(error) => value.error(files@) == Some(error@),
            },
    {
        let ComposerDraft { plain_text, html_text, draft_type, attachments } = value;
        let draft_type = match SdkComposerDraftType::try_from(draft_type) {
            Ok(draft_type) => draft_type,
            Err(error) => return Err(ClientError::from_err(error)),
        };
        let ghost all = attachments@;
        let ghost given = files@;
        let mut stored: Vec<SdkDraftAttachment> = Vec::new();
        let mut rest = files;
        for attachment in list: attachments
            invariant
                list.seq() == all,
                all == value.attachments@,
                given == files@,
                given.len() == all.len(),
                optional_event_problem(value.draft_type.event()) is None,
                rest@ == given.skip(list.index()),
                stored@.len() == list.index(),
                attachments_error(all.take(list.index()), given) is None,
                forall|i: int|
                    0 <= i < list.index() ==> #[trigger] stored@[i] == all[i].stored(given[i]),
        {
            let ghost now = list.index();
            let file = rest.remove(0);
            assert(rest@ =~= given.skip(now + 1));
            assert(all.take(now + 1).drop_last() =~= all.take(now));
            assert(all.take(now + 1).last() == attachment);
            match SdkDraftAttachment::with_files(attachment, file) {
                Ok(attachment) => stored.push(attachment),
                Err(error) => {
                    proof {
                        lemma_error_stays(all, given, now + 1);
                    }
                    return Err(error);
                },
            }
        }
        assert(all.take(all.len() as int) =~= all);
        Ok(SdkComposerDraft { plain_text, html_text, draft_type, attachments: stored })
    }
}

/// What was read from the files that an attachment is in, where they were needed and could be read.
#[derive(Debug)]
pub struct AttachmentContents {
    pub source: Option<Vec<u8>>,
    pub thumbnail: Option<Vec<u8>>,
}

fn thumbnail_file(source: &Option<UploadSource>, contents: Option<Vec<u8>>) -> (r: SourceFile)
    ensures
        thumbnail_belongs_to(r, *source, contents),
{
    match source {
        Some(source) => SourceFile::of(source, contents),
        None => SourceFile { file_name: None, contents },
    }
}

/// The name and the contents are those of a thumbnail that may be missing.
pub open spec fn thumbnail_belongs_to(
    file: SourceFile,
    source: Option<UploadSource>,
    contents: Option<Vec<u8>>,
) -> bool {
    match source {
        Some(source) => file.belongs_to(source, contents),
        None => file.file_name is None && file.contents == contents,
    }
}

impl DraftAttachment {
    /// The bytes of the attachment.
    pub open spec fn source(self) -> UploadSource {
        match self {
            DraftAttachment::Audio { audio_info, source } => source,
            DraftAttachment::File { file_info, source } => source,
            DraftAttachment::Image { image_info, source, thumbnail_source } => source,
            DraftAttachment::Video { video_info, source, thumbnail_source } => source,
        }
    }

    /// The bytes of the thumbnail, if there is one.
    pub open spec fn thumbnail_source(self) -> Option<UploadSource> {
        match self {
            DraftAttachment::Audio { .. } => None,
            DraftAttachment::File { .. } => None,
            DraftAttachment::Image { image_info, source, thumbnail_source } => thumbnail_source,
            DraftAttachment::Video { video_info, source, thumbnail_source } => thumbnail_source,
        }
    }

    /// The files are named by the attachment's paths and hold what was read.
    pub open spec fn comes_with(self, contents: AttachmentContents, files: AttachmentFiles) -> bool {
        &&& files.source.belongs_to(self.source(), contents.source)
        &&& thumbnail_belongs_to(files.thumbnail, self.thumbnail_source(), contents.thumbnail)
    }

    fn name_files(&self, contents: AttachmentContents) -> (r: AttachmentFiles)
        ensures
            self.comes_with(contents, r),
    {
        let AttachmentContents { source: own, thumbnail } = contents;
        match self {
            DraftAttachment::Audio { audio_info: _, source } => AttachmentFiles {
                source: SourceFile::of(source, own),
                thumbnail: thumbnail_file(&None, thumbnail),
            },
            DraftAttachment::File { file_info: _, source } => AttachmentFiles {
                source: SourceFile::of(source, own),
                thumbnail: thumbnail_file(&None, thumbnail),
            },
            DraftAttachment::Image { image_info: _, source, thumbnail_source } => AttachmentFiles {
                source: SourceFile::of(source, own),
                thumbnail: thumbnail_file(thumbnail_source, thumbnail),
            },
            DraftAttachment::Video { video_info: _, source, thumbnail_source } => AttachmentFiles {
                source: SourceFile::of(source, own),
                thumbnail: thumbnail_file(thumbnail_source, thumbnail),
            },
        }
    }
}

/// An attachment in a file whose path is a plain name is stored under that name, on every machine.
pub proof fn law_file_keeps_its_name(
    attachment: DraftAttachment,
    contents: AttachmentContents,
    files: AttachmentFiles,
)
    requires
        attachment.comes_with(contents, files),
        attachment.error(files) is None,
        attachment.source() matches UploadSource::File { filename } && plain_name(filename@)
            && without_colon(filename@),
    ensures
        attachment.source() matches UploadSource::File { filename } && attachment.stored(
            files,
        ).filename@ == filename@,
{
    if let UploadSource::File { filename } = attachment.source() {
        law_plain_name_is_kept(filename@, files.source.file_name);
    }
}

/// The paths of the files that an attachment is in, as far as they are needed.
#[derive(Debug)]
pub struct FilesToRead {
    pub source: Option<String>,
    pub thumbnail: Option<String>,
}

/// The path of a source that is a file.
pub open spec fn source_path(source: UploadSource) -> Option<String> {
    match source {
        UploadSource::File { filename } => Some(filename),
        UploadSource::Data { .. } => None,
    }
}

/// The path of a thumbnail that is a file and is described.
pub open spec fn thumbnail_path(
    info: Option<ThumbnailInfo>,
    source: Option<UploadSource>,
) -> Option<String> {
    match (info, source) {
        (Some(_), Some(source)) => source_path(source),
        _ => None,
    }
}

fn path_to_read(source: &UploadSource) -> (r: Option<String>)
    ensures
        r == source_path(*source),
{
    match source {
        UploadSource::File { filename } => Some(filename.clone()),
        UploadSource::Data { .. } => None,
    }
}

fn thumbnail_to_read(info: &Option<ThumbnailInfo>, source: &Option<UploadSource>) -> (r: Option<
    String,
>)
    ensures
        r == thumbnail_path(*info, *source),
{
    match (info, source) {
        (Some(_), Some(source)) => path_to_read(source),
        _ => None,
    }
}

impl DraftAttachment {
    /// The files that are needed to store the attachment.
    pub open spec fn needs(self) -> FilesToRead {
        match self {
            DraftAttachment::Audio { audio_info, source } => FilesToRead {
                source: source_path(source),
                thumbnail: None,
            },
            DraftAttachment::File { file_info, source } => FilesToRead {
                source: source_path(source),
                thumbnail: None,
            },
            DraftAttachment::Image { image_info, source, thumbnail_source } => FilesToRead {
                source: source_path(source),
                thumbnail: thumbnail_path(image_info.thumbnail_info, thumbnail_source),
            },
            DraftAttachment::Video { video_info, source, thumbnail_source } => FilesToRead {
                source: source_path(source),
                thumbnail: thumbnail_path(video_info.thumbnail_info, thumbnail_source),
            },
        }
    }

    /// The files that are needed to store the attachment: the thumbnail's comes second, and only if
    /// the attachment's own could be read.
    pub fn files_to_read(&self) -> (r: FilesToRead)
        ensures
            r == self.needs(),
    {
        match self {
            DraftAttachment::Audio { audio_info: _, source } => FilesToRead {
                source: path_to_read(source),
                thumbnail: None,
            },
            DraftAttachment::File { file_info: _, source } => FilesToRead {
                source: path_to_read(source),
                thumbnail: None,
            },
            DraftAttachment::Image { image_info, source, thumbnail_source } => FilesToRead {
                source: path_to_read(source),
                thumbnail: thumbnail_to_read(&image_info.thumbnail_info, thumbnail_source),
            },
            DraftAttachment::Video { video_info, source, thumbnail_source } => FilesToRead {
                source: path_to_read(source),
                thumbnail: thumbnail_to_read(&video_info.thumbnail_info, thumbnail_source),
            },
        }
    }
}

/// What is given for files that are not needed does not matter.
pub proof fn law_files_that_are_not_needed_do_not_matter(
    attachment: DraftAttachment,
    files: AttachmentFiles,
    others: AttachmentFiles,
)
    requires
        attachment.needs().source is Some ==> files.source == others.source,
        attachment.needs().thumbnail is Some ==> files.thumbnail == others.thumbnail,
    ensures
        attachment.error(files) == attachment.error(others),
        attachment.stored(files) == attachment.stored(others),
{
}

/// An attachment that was stored and shown to a client is stored again as it was, whatever the file
/// system holds.
pub proof fn law_attachment_survives(stored: SdkDraftAttachment, files: AttachmentFiles)
    ensures
        shown_attachment(stored).error(files) is None,
        shown_attachment(stored).stored(files) == stored,
{
}

impl SdkComposerDraftType {
    /// The ID of the event that the draft is about, if any.
    pub open spec fn event(self) -> Option<Seq<char>> {
        match self {
            SdkComposerDraftType::NewMessage => None,
            SdkComposerDraftType::Reply { event_id } => Some(event_id@),
            SdkComposerDraftType::Edit { event_id } => Some(event_id@),
        }
    }

    /// The ID of the event was accepted, as every event ID was.
    pub open spec fn accepted(self) -> bool {
        self.event() matches Some(event_id) ==> event_id_problem(event_id) is None
    }
}

impl SdkComposerDraft {
    /// The two drafts have the same texts, are for the same, and have the same attachments in the
    /// same order.
    pub open spec fn same_as(self, other: SdkComposerDraft) -> bool {
        &&& self.plain_text == other.plain_text
        &&& self.html_text == other.html_text
        &&& self.draft_type.event() == other.draft_type.event()
        &&& self.draft_type is Reply <==> other.draft_type is Reply
        &&& self.draft_type is Edit <==> other.draft_type is Edit
        &&& self.attachments@ == other.attachments@
    }
}

/// A draft that was stored and shown to a client can be stored again, whatever the file system holds,
/// and is then the draft that it was. Every event ID of a stored draft is one that was accepted.
pub proof fn law_draft_survives(
    stored: SdkComposerDraft,
    draft: ComposerDraft,
    again: SdkComposerDraft,
    files: Seq<AttachmentFiles>,
)
    requires
        stored.draft_type.accepted(),
        draft.shows(stored),
    ensures
        draft.error(files) is None,
        draft.kept_by(again, files) ==> again.same_as(stored),
{
    match stored.draft_type {
        SdkComposerDraftType::NewMessage => {},
        SdkComposerDraftType::Reply { event_id } => lemma_event_id_string(event_id),
        SdkComposerDraftType::Edit { event_id } => lemma_event_id_string(event_id),
    }
    lemma_shown_attachments_have_no_error(stored.attachments@, draft.attachments@, files);
    if draft.kept_by(again, files) {
        assert forall|i: int| 0 <= i < stored.attachments@.len() implies again.attachments@[i]
            == stored.attachments@[i] by {
            law_attachment_survives(stored.attachments@[i], files[i]);
            assert(draft.attachments@[i] == shown_attachment(stored.attachments@[i]));
        }
        assert(again.attachments@ =~= stored.attachments@);
    }
}

proof fn lemma_shown_attachments_have_no_error(
    stored: Seq<SdkDraftAttachment>,
    shown: Seq<DraftAttachment>,
    files: Seq<AttachmentFiles>,
)
    requires
        shown == stored.map_values(|attachment: SdkDraftAttachment| shown_attachment(attachment)),
    ensures
        attachments_error(shown, files) is None,
    decreases shown.len(),
{
    if shown.len() > 0 {
        assert(shown.drop_last() =~= stored.drop_last().map_values(
            |attachment: SdkDraftAttachment| shown_attachment(attachment),
        ));
        lemma_shown_attachments_have_no_error(stored.drop_last(), shown.drop_last(), files);
        law_attachment_survives(stored.last(), files[shown.len() - 1]);
    }
}

/// A draft to save.
#[derive(Debug)]
pub struct DraftToSave {
    pub draft: SdkComposerDraft,
    pub thread_root: Option<EventId>,
}

/// Accepts the ID of the event that starts a thread, if there is one.
pub fn optional_event(event_id: Option<String>) -> (r: Result<Option<EventId>, ClientError>)
    ensures
        match r {
            Ok(kept) => match (kept, event_id) {
                (Some(kept), Some(event_id)) => kept@ == event_id@ && event_id_problem(event_id@)
                    is None,
                (None, None) => true,
                _ => false,
            },
            Err(error) => event_id matches Some(event_id) && event_id_problem(event_id@) matches Some(
                problem,
            ) && error@ == foreign_client_error(problem),
        },
{
    match event_id {
        Some(event_id) => match EventId::request(event_id.as_str()) {
            Ok(event_id) => Ok(Some(event_id)),
            Err(error) => Err(error),
        },
        None => Ok(None),
    }
}

impl Room {
    /// Saves a draft of a message in the room, or in one of its threads.
    pub fn save_composer_draft(
        &self,
        draft: ComposerDraft,
        thread_root: Option<String>,
        contents: Vec<AttachmentContents>,
    ) -> (r: Result<DraftToSave, ClientError>)
        requires
            contents@.len() == draft.attachments@.len(),
        ensures
            match optional_event_problem(opt_text(thread_root)) {
                Some(problem) => r matches Err(error) && error@ == problem,
                None => exists|files: Seq<AttachmentFiles>| #[trigger]
                    draft.comes_with(contents@, files) && match r {
                        Ok(saved) => {
                            &&& match (saved.thread_root, thread_root) {
                                (Some(kept), Some(event_id)) => kept@ == event_id@,
                                (None, None) => true,
                                _ => false,
                            }
                            &&& draft.error(files) is None
                            &&& draft.kept_by(saved.draft, files)
                        },
                        Err(error) => draft.error(files) == Some(error@),
                    },
            },
    {
        let thread_root = optional_event(thread_root)?;
        let draft = SdkComposerDraft::try_from(draft, contents)?;
        Ok(DraftToSave { draft, thread_root })
    }
}

/// What is stored of a source: its own bytes under their name, or what its file holds under the name
/// that the path gives.
pub open spec fn comes_from(
    source: UploadSource,
    contents: Option<Vec<u8>>,
    data: Vec<u8>,
    filename: String,
) -> bool {
    match source {
        UploadSource::Data { bytes, filename: name } => data == bytes && filename == name,
        UploadSource::File { filename: path } => contents == Some(data) && names(
            path@,
            Some(filename),
        ),
    }
}

/// The bytes of a source can be had on every machine: they are there, or the source is a file that
/// was read and whose path has a name.
pub open spec fn at_hand(source: UploadSource, contents: Option<Vec<u8>>) -> bool {
    match source {
        UploadSource::Data { .. } => true,
        UploadSource::File { filename } => contents is Some && !names(filename@, None),
    }
}

/// The bytes of a source cannot be had, on some machine at least: it is a file that was not read, or
/// whose path may have no name.
pub open spec fn out_of_reach(
    source: UploadSource,
    contents: Option<Vec<u8>>,
    error: ClientText,
) -> bool {
    source matches UploadSource::File { filename } && {
        ||| names(filename@, None) && error == (ClientText::Generic {
            msg: "Invalid attachment path"@,
            details: None,
        })
        ||| contents is None && error == (ClientText::Generic {
            msg: "Could not load file"@,
            details: None,
        })
    }
}

/// A stored attachment is the one that the client gave. In particular an image or a video that has a
/// described thumbnail is stored with it: with the bytes that the thumbnail's source has or, where it
/// is a file, that were read from it, under the name of the file.
pub proof fn law_attachment_is_stored_as_it_was_given(
    attachment: DraftAttachment,
    contents: AttachmentContents,
    kept: SdkDraftAttachment,
)
    requires
        call_ensures(SdkDraftAttachment::try_from, (attachment, contents), Ok(kept)),
    ensures
        match (attachment, kept.content) {
            (
                DraftAttachment::Audio { audio_info, source },
                DraftAttachmentContent::Audio { data, mimetype, size, duration },
            ) => {
                &&& match source {
                    UploadSource::Data { bytes, filename } => data == bytes && kept.filename
                        == filename,
                    UploadSource::File { filename: path } => contents.source == Some(data) && names(
                        path@,
                        Some(kept.filename),
                    ),
                }
                &&& mimetype == audio_info.mimetype
                &&& size == audio_info.size
                &&& duration == audio_info.duration
            },
            (
                DraftAttachment::File { file_info, source },
                DraftAttachmentContent::File { data, mimetype, size },
            ) => {
                &&& match source {
                    UploadSource::Data { bytes, filename } => data == bytes && kept.filename
                        == filename,
                    UploadSource::File { filename: path } => contents.source == Some(data) && names(
                        path@,
                        Some(kept.filename),
                    ),
                }
                &&& mimetype == file_info.mimetype
                &&& size == file_info.size
            },
            (
                DraftAttachment::Image { image_info, source, thumbnail_source },
                DraftAttachmentContent::Image {
                    data,
                    mimetype,
                    size,
                    width,
                    height,
                    blurhash,
                    thumbnail,
                },
            ) => {
                &&& match source {
                    UploadSource::Data { bytes, filename } => data == bytes && kept.filename
                        == filename,
                    UploadSource::File { filename: path } => contents.source == Some(data) && names(
                        path@,
                        Some(kept.filename),
                    ),
                }
                &&& mimetype == image_info.mimetype
                &&& size == image_info.size
                &&& width == image_info.width
                &&& height == image_info.height
                &&& blurhash == image_info.blurhash
                &&& match (image_info.thumbnail_info, thumbnail_source) {
                    (Some(described), Some(bytes)) => {
                        &&& thumbnail matches Some(stored)
                        &&& stored.mimetype == described.mimetype
                        &&& stored.width == described.width
                        &&& stored.height == described.height
                        &&& stored.size == described.size
                        &&& match bytes {
                            UploadSource::Data { bytes, filename } => stored.data == bytes
                                && stored.filename == filename,
                            UploadSource::File { filename: path } => contents.thumbnail == Some(
                                stored.data,
                            ) && names(path@, Some(stored.filename)),
                        }
                    },
                    _ => thumbnail is None,
                }
            },
            (
                DraftAttachment::Video { video_info, source, thumbnail_source },
                DraftAttachmentContent::Video {
                    data,
                    mimetype,
                    size,
                    width,
                    height,
                    duration,
                    blurhash,
                    thumbnail,
                },
            ) => {
                &&& match source {
                    UploadSource::Data { bytes, filename } => data == bytes && kept.filename
                        == filename,
                    UploadSource::File { filename: path } => contents.source == Some(data) && names(
                        path@,
                        Some(kept.filename),
                    ),
                }
                &&& mimetype == video_info.mimetype
                &&& size == video_info.size
                &&& width == video_info.width
                &&& height == video_info.height
                &&& duration == video_info.duration
                &&& blurhash == video_info.blurhash
                &&& match (video_info.thumbnail_info, thumbnail_source) {
                    (Some(described), Some(bytes)) => {
                        &&& thumbnail matches Some(stored)
                        &&& stored.mimetype == described.mimetype
                        &&& stored.width == described.width
                        &&& stored.height == described.height
                        &&& stored.size == described.size
                        &&& match bytes {
                            UploadSource::Data { bytes, filename } => stored.data == bytes
                                && stored.filename == filename,
                            UploadSource::File { filename: path } => contents.thumbnail == Some(
                                stored.data,
                            ) && names(path@, Some(stored.filename)),
                        }
                    },
                    _ => thumbnail is None,
                }
            },
            _ => false,
        },
        attachment matches DraftAttachment::Image { image_info, thumbnail_source, .. } ==> {
            &&& kept.content matches DraftAttachmentContent::Image { thumbnail, .. }
            &&& thumbnail is Some <==> image_info.thumbnail_info is Some && thumbnail_source is Some
        },
        attachment matches DraftAttachment::Video { video_info, thumbnail_source, .. } ==> {
            &&& kept.content matches DraftAttachmentContent::Video { thumbnail, .. }
            &&& thumbnail is Some <==> video_info.thumbnail_info is Some && thumbnail_source is Some
        },
{
}

/// An attachment whose bytes can be had is stored; one that is not stored is not because its own
/// bytes, or else those of its described thumbnail, cannot be had, and the error says so.
pub proof fn law_attachment_is_stored_if_its_bytes_are_there(
    attachment: DraftAttachment,
    contents: AttachmentContents,
    r: Result<SdkDraftAttachment, ClientError>,
)
    requires
        call_ensures(SdkDraftAttachment::try_from, (attachment, contents), r),
    ensures
        ({
            let (source, thumbnail) = match attachment {
                DraftAttachment::Audio { source, .. } => (source, None),
                DraftAttachment::File { source, .. } => (source, None),
                DraftAttachment::Image { image_info, source, thumbnail_source } => (
                    source,
                    if image_info.thumbnail_info is Some {
                        thumbnail_source
                    } else {
                        None
                    },
                ),
                DraftAttachment::Video { video_info, source, thumbnail_source } => (
                    source,
                    if video_info.thumbnail_info is Some {
                        thumbnail_source
                    } else {
                        None
                    },
                ),
            };
            &&& at_hand(source, contents.source) && (thumbnail matches Some(bytes) ==> at_hand(
                bytes,
                contents.thumbnail,
            )) ==> r is Ok
            &&& source is File && contents.source is None ==> r is Err
            &&& thumbnail is Some && thumbnail->0 is File && contents.thumbnail is None ==> r is Err
            &&& r matches Err(error) ==> {
                ||| out_of_reach(source, contents.source, error@)
                ||| thumbnail matches Some(bytes) && out_of_reach(
                    bytes,
                    contents.thumbnail,
                    error@,
                )
            }
        }),
{
}

/// An attachment that lacks its own bytes is refused for that, whatever its thumbnail lacks.
pub proof fn law_own_bytes_come_before_those_of_the_thumbnail(
    attachment: DraftAttachment,
    contents: AttachmentContents,
    path: String,
    error: ClientError,
)
    requires
        call_ensures(SdkDraftAttachment::try_from, (attachment, contents), Err(error)),
        match attachment {
            DraftAttachment::Audio { source, .. } => source == (UploadSource::File {
                filename: path,
            }),
            DraftAttachment::File { source, .. } => source == (UploadSource::File {
                filename: path,
            }),
            DraftAttachment::Image { source, .. } => source == (UploadSource::File {
                filename: path,
            }),
            DraftAttachment::Video { source, .. } => source == (UploadSource::File {
                filename: path,
            }),
        },
    ensures
        contents.source is None && !names(path@, None) ==> error@ == (ClientText::Generic {
            msg: "Could not load file"@,
            details: None,
        }),
        (forall|name: String| !#[trigger] names(path@, Some(name))) ==> error@ == (
        ClientText::Generic { msg: "Invalid attachment path"@, details: None }),
{
    let files = choose|files: AttachmentFiles| #[trigger]
        attachment.comes_with(contents, files) && attachment.error(files) == Some(error@);
    if let Some(name) = files.source.file_name {
        assert(names(path@, Some(name)));
    }
}

/// A source is read as what it holds itself or as what was read from its file, under its name. It is
/// read wherever its bytes are at hand, and refused otherwise.
pub proof fn law_source_is_read_as_it_is(
    source: UploadSource,
    contents: Option<Vec<u8>>,
    r: Result<(Vec<u8>, String), ClientError>,
)
    requires
        call_ensures(read_upload_source, (source, contents), r),
    ensures
        match r {
            Ok((data, filename)) => comes_from(source, contents, data, filename),
            Err(error) => out_of_reach(source, contents, error@),
        },
        at_hand(source, contents) ==> r is Ok,
        source is File && contents is None ==> r is Err,
{
}

/// A saved draft is the draft that a client gave: its texts, what it is for and the thread that it is
/// in, and its attachments, one for one and in order.
pub proof fn law_draft_is_saved_as_it_was_given(
    room: Room,
    draft: ComposerDraft,
    thread_root: Option<String>,
    contents: Vec<AttachmentContents>,
    saved: DraftToSave,
    i: int,
)
    requires
        contents@.len() == draft.attachments@.len(),
        call_ensures(
            Room::save_composer_draft,
            (&room, draft, thread_root, contents),
            Ok(saved),
        ),
        0 <= i < draft.attachments@.len(),
    ensures
        saved.draft.attachments@.len() == draft.attachments@.len(),
        match (draft.attachments@[i], saved.draft.attachments@[i].content) {
            (
                DraftAttachment::Audio { audio_info, source },
                DraftAttachmentContent::Audio { data, mimetype, size, duration },
            ) => {
                &&& match source {
                    UploadSource::Data { bytes, filename } => data == bytes
                        && saved.draft.attachments@[i].filename
                        == filename,
                    UploadSource::File { filename: path } => contents@[i].source == Some(data) && names(
                        path@,
                        Some(saved.draft.attachments@[i].filename),
                    ),
                }
                &&& mimetype == audio_info.mimetype
                &&& size == audio_info.size
                &&& duration == audio_info.duration
            },
            (
                DraftAttachment::File { file_info, source },
                DraftAttachmentContent::File { data, mimetype, size },
            ) => {
                &&& match source {
                    UploadSource::Data { bytes, filename } => data == bytes
                        && saved.draft.attachments@[i].filename
                        == filename,
                    UploadSource::File { filename: path } => contents@[i].source == Some(data) && names(
                        path@,
                        Some(saved.draft.attachments@[i].filename),
                    ),
                }
                &&& mimetype == file_info.mimetype
                &&& size == file_info.size
            },
            (
                DraftAttachment::Image { image_info, source, thumbnail_source },
                DraftAttachmentContent::Image {
                    data,
                    mimetype,
                    size,
                    width,
                    height,
                    blurhash,
                    thumbnail,
                },
            ) => {
                &&& match source {
                    UploadSource::Data { bytes, filename } => data == bytes
                        && saved.draft.attachments@[i].filename
                        == filename,
                    UploadSource::File { filename: path } => contents@[i].source == Some(data) && names(
                        path@,
                        Some(saved.draft.attachments@[i].filename),
                    ),
                }
                &&& mimetype == image_info.mimetype
                &&& size == image_info.size
                &&& width == image_info.width
                &&& height == image_info.height
                &&& blurhash == image_info.blurhash
                &&& match (image_info.thumbnail_info, thumbnail_source) {
                    (Some(described), Some(bytes)) => {
                        &&& thumbnail matches Some(stored)
                        &&& stored.mimetype == described.mimetype
                        &&& stored.width == described.width
                        &&& stored.height == described.height
                        &&& stored.size == described.size
                        &&& match bytes {
                            UploadSource::Data { bytes, filename } => stored.data == bytes
                                && stored.filename == filename,
                            UploadSource::File { filename: path } => contents@[i].thumbnail == Some(
                                stored.data,
                            ) && names(path@, Some(stored.filename)),
                        }
                    },
                    _ => thumbnail is None,
                }
            },
            (
                DraftAttachment::Video { video_info, source, thumbnail_source },
                DraftAttachmentContent::Video {
                    data,
                    mimetype,
                    size,
                    width,
                    height,
                    duration,
                    blurhash,
                    thumbnail,
                },
            ) => {
                &&& match source {
                    UploadSource::Data { bytes, filename } => data == bytes
                        && saved.draft.attachments@[i].filename
                        == filename,
                    UploadSource::File { filename: path } => contents@[i].source == Some(data) && names(
                        path@,
                        Some(saved.draft.attachments@[i].filename),
                    ),
                }
                &&& mimetype == video_info.mimetype
                &&& size == video_info.size
                &&& width == video_info.width
                &&& height == video_info.height
                &&& duration == video_info.duration
                &&& blurhash == video_info.blurhash
                &&& match (video_info.thumbnail_info, thumbnail_source) {
                    (Some(described), Some(bytes)) => {
                        &&& thumbnail matches Some(stored)
                        &&& stored.mimetype == described.mimetype
                        &&& stored.width == described.width
                        &&& stored.height == described.height
                        &&& stored.size == described.size
                        &&& match bytes {
                            UploadSource::Data { bytes, filename } => stored.data == bytes
                                && stored.filename == filename,
                            UploadSource::File { filename: path } => contents@[i].thumbnail == Some(
                                stored.data,
                            ) && names(path@, Some(stored.filename)),
                        }
                    },
                    _ => thumbnail is None,
                }
            },
            _ => false,
        },
{
    let kept = saved.draft.attachments@[i];
    let files = choose|files: Seq<AttachmentFiles>| #[trigger]
        draft.comes_with(contents@, files) && draft.error(files) is None && draft.kept_by(
            saved.draft,
            files,
        );
    let file = files[i];
    lemma_no_error_among(draft.attachments@, files, i);
}

proof fn lemma_no_error_among(attachments: Seq<DraftAttachment>, files: Seq<AttachmentFiles>, i: int)
    requires
        attachments_error(attachments, files) is None,
        0 <= i < attachments.len(),
    ensures
        attachments[i].error(files[i]) is None,
    decreases attachments.len(),
{
    if i < attachments.len() - 1 {
        lemma_no_error_among(attachments.drop_last(), files, i);
    }
}

/// A saved draft has the texts of the draft that a client gave, is for the same and in the same thread.
pub proof fn law_saved_draft_is_for_the_same(
    room: Room,
    draft: ComposerDraft,
    thread_root: Option<String>,
    contents: Vec<AttachmentContents>,
    saved: DraftToSave,
)
    requires
        contents@.len() == draft.attachments@.len(),
        call_ensures(
            Room::save_composer_draft,
            (&room, draft, thread_root, contents),
            Ok(saved),
        ),
    ensures
        saved.draft.plain_text == draft.plain_text,
        saved.draft.html_text == draft.html_text,
        saved.draft.attachments@.len() == draft.attachments@.len(),
        match (draft.draft_type, saved.draft.draft_type) {
            (ComposerDraftType::NewMessage, SdkComposerDraftType::NewMessage) => true,
            (
                ComposerDraftType::Reply { event_id },
                SdkComposerDraftType::Reply { event_id: kept },
            ) => kept@ == event_id@,
            (
                ComposerDraftType::Edit { event_id },
                SdkComposerDraftType::Edit { event_id: kept },
            ) => kept@ == event_id@,
            _ => false,
        },
        match (thread_root, saved.thread_root) {
            (None, None) => true,
            (Some(event_id), Some(kept)) => kept@ == event_id@,
            _ => false,
        },
{
}

/// A draft is saved if the IDs of its thread and of its event are IDs and the bytes of all its
/// attachments are there.
pub proof fn law_sound_draft_is_saved(
    room: Room,
    draft: ComposerDraft,
    thread_root: Option<String>,
    contents: Vec<AttachmentContents>,
    r: Result<DraftToSave, ClientError>,
)
    requires
        contents@.len() == draft.attachments@.len(),
        call_ensures(Room::save_composer_draft, (&room, draft, thread_root, contents), r),
        thread_root matches Some(event_id) ==> event_id_problem(event_id@) is None,
        match draft.draft_type {
            ComposerDraftType::NewMessage => true,
            ComposerDraftType::Reply { event_id } => event_id_problem(event_id@) is None,
            ComposerDraftType::Edit { event_id } => event_id_problem(event_id@) is None,
        },
        forall|i: int|
            0 <= i < draft.attachments@.len() ==> match #[trigger] draft.attachments@[i] {
                DraftAttachment::Audio { source, .. } => at_hand(source, contents@[i].source),
                DraftAttachment::File { source, .. } => at_hand(source, contents@[i].source),
                DraftAttachment::Image { source, thumbnail_source, .. } => {
                    &&& at_hand(source, contents@[i].source)
                    &&& thumbnail_source matches Some(bytes) ==> at_hand(
                        bytes,
                        contents@[i].thumbnail,
                    )
                },
                DraftAttachment::Video { source, thumbnail_source, .. } => {
                    &&& at_hand(source, contents@[i].source)
                    &&& thumbnail_source matches Some(bytes) ==> at_hand(
                        bytes,
                        contents@[i].thumbnail,
                    )
                },
            },
    ensures
        r is Ok,
{
    if let Err(error) = r {
        let files = choose|files: Seq<AttachmentFiles>| #[trigger]
            draft.comes_with(contents@, files) && draft.error(files) == Some(error@);
        assert forall|i: int| 0 <= i < draft.attachments@.len() implies (
        #[trigger] draft.attachments@[i]).error(files[i]) is None by {
            let file = files[i];
            assert(draft.attachments@[i].comes_with(contents@[i], file));
        }
        lemma_no_error_at_all(draft.attachments@, files);
    }
}

proof fn lemma_no_error_at_all(attachments: Seq<DraftAttachment>, files: Seq<AttachmentFiles>)
    requires
        forall|i: int|
            0 <= i < attachments.len() ==> (#[trigger] attachments[i]).error(files[i]) is None,
    ensures
        attachments_error(attachments, files) is None,
    decreases attachments.len(),
{
    if attachments.len() > 0 {
        let shorter = attachments.drop_last();
        assert forall|i: int| 0 <= i < shorter.len() implies (#[trigger] shorter[i]).error(
            files[i],
        ) is None by {
            assert(shorter[i] == attachments[i]);
        }
        lemma_no_error_at_all(shorter, files);
        assert(attachments.last() == attachments[attachments.len() - 1]);
    }
}

/// A draft is not saved where the ID of its thread or of its event is none; the error says what is
/// wrong with it, the thread's first.
pub proof fn law_draft_needs_sound_ids(
    room: Room,
    draft: ComposerDraft,
    thread_root: Option<String>,
    contents: Vec<AttachmentContents>,
    r: Result<DraftToSave, ClientError>,
)
    requires
        contents@.len() == draft.attachments@.len(),
        call_ensures(Room::save_composer_draft, (&room, draft, thread_root, contents), r),
    ensures
        ({
            let root = match thread_root {
                Some(event_id) => event_id_problem(event_id@),
                None => None,
            };
            let about = match draft.draft_type {
                ComposerDraftType::NewMessage => None,
                ComposerDraftType::Reply { event_id } => event_id_problem(event_id@),
                ComposerDraftType::Edit { event_id } => event_id_problem(event_id@),
            };
            match (root, about) {
                (Some(problem), _) => r matches Err(error) && error@ == (ClientText::Generic {
                    msg: problem.message,
                    details: Some(problem.debug),
                }),
                (None, Some(problem)) => r matches Err(error) && error@ == (ClientText::Generic {
                    msg: problem.message,
                    details: Some(problem.debug),
                }),
                (None, None) => true,
            }
        }),
{
}

/// A stored attachment is shown as it is: of the same kind and described alike, with its bytes and
/// those of its thumbnail under their names.
pub proof fn law_stored_attachment_is_shown_as_it_is(
    stored: SdkDraftAttachment,
    shown: DraftAttachment,
)
    requires
        call_ensures(
            <DraftAttachment as From<SdkDraftAttachment>>::from,
            (stored,),
            shown,
        ),
    ensures
        match (stored.content, shown) {
            (
                DraftAttachmentContent::Audio { data, mimetype, size, duration },
                DraftAttachment::Audio { audio_info, source },
            ) => {
                &&& source == (UploadSource::Data { bytes: data, filename: stored.filename })
                &&& audio_info.mimetype == mimetype
                &&& audio_info.size == size
                &&& audio_info.duration == duration
            },
            (
                DraftAttachmentContent::File { data, mimetype, size },
                DraftAttachment::File { file_info, source },
            ) => {
                &&& source == (UploadSource::Data { bytes: data, filename: stored.filename })
                &&& file_info.mimetype == mimetype
                &&& file_info.size == size
                &&& file_info.thumbnail_info is None
                &&& file_info.thumbnail_source is None
            },
            (
                DraftAttachmentContent::Image {
                    data,
                    mimetype,
                    size,
                    width,
                    height,
                    blurhash,
                    thumbnail,
                },
                DraftAttachment::Image { image_info, source, thumbnail_source },
            ) => {
                &&& source == (UploadSource::Data { bytes: data, filename: stored.filename })
                &&& image_info.mimetype == mimetype
                &&& image_info.size == size
                &&& image_info.width == width
                &&& image_info.height == height
                &&& image_info.blurhash == blurhash
                &&& image_info.is_animated is None
                &&& image_info.thumbnail_source is None
                &&& match (thumbnail, thumbnail_source, image_info.thumbnail_info) {
                    (None, None, None) => true,
                    (Some(kept), Some(bytes), Some(info)) => {
                        &&& bytes == (UploadSource::Data {
                            bytes: kept.data,
                            filename: kept.filename,
                        })
                        &&& info.mimetype == kept.mimetype
                        &&& info.width == kept.width
                        &&& info.height == kept.height
                        &&& info.size == kept.size
                    },
                    _ => false,
                }
            },
            (
                DraftAttachmentContent::Video {
                    data,
                    mimetype,
                    size,
                    width,
                    height,
                    duration,
                    blurhash,
                    thumbnail,
                },
                DraftAttachment::Video { video_info, source, thumbnail_source },
            ) => {
                &&& source == (UploadSource::Data { bytes: data, filename: stored.filename })
                &&& video_info.mimetype == mimetype
                &&& video_info.size == size
                &&& video_info.width == width
                &&& video_info.height == height
                &&& video_info.duration == duration
                &&& video_info.blurhash == blurhash
                &&& video_info.thumbnail_source is None
                &&& match (thumbnail, thumbnail_source, video_info.thumbnail_info) {
                    (None, None, None) => true,
                    (Some(kept), Some(bytes), Some(info)) => {
                        &&& bytes == (UploadSource::Data {
                            bytes: kept.data,
                            filename: kept.filename,
                        })
                        &&& info.mimetype == kept.mimetype
                        &&& info.width == kept.width
                        &&& info.height == kept.height
                        &&& info.size == kept.size
                    },
                    _ => false,
                }
            },
            _ => false,
        },
{
}

/// A stored draft is shown as it is: its texts, what it is for, and as many attachments.
pub proof fn law_stored_draft_is_shown_as_it_is(stored: SdkComposerDraft, shown: ComposerDraft)
    requires
        call_ensures(ComposerDraft::from, (stored,), shown),
    ensures
        shown.plain_text == stored.plain_text,
        shown.html_text == stored.html_text,
        shown.attachments@.len() == stored.attachments@.len(),
        match (stored.draft_type, shown.draft_type) {
            (SdkComposerDraftType::NewMessage, ComposerDraftType::NewMessage) => true,
            (
                SdkComposerDraftType::Reply { event_id },
                ComposerDraftType::Reply { event_id: told },
            ) => told@ == event_id@,
            (
                SdkComposerDraftType::Edit { event_id },
                ComposerDraftType::Edit { event_id: told },
            ) => told@ == event_id@,
            _ => false,
        },
{
    match stored.draft_type {
        SdkComposerDraftType::NewMessage => {},
        SdkComposerDraftType::Reply { event_id } => lemma_event_id_string(event_id),
        SdkComposerDraftType::Edit { event_id } => lemma_event_id_string(event_id),
    }
}

/// A draft that was stored and is shown to a client can be saved again, whatever the file system
/// holds, and is then stored as it was: nothing is lost on the way there and back.
pub proof fn law_shown_draft_is_saved_as_it_was(
    room: Room,
    stored: SdkComposerDraft,
    shown: ComposerDraft,
    contents: Vec<AttachmentContents>,
    r: Result<DraftToSave, ClientError>,
)
    requires
        call_ensures(ComposerDraft::from, (stored,), shown),
        contents@.len() == shown.attachments@.len(),
        call_ensures(Room::save_composer_draft, (&room, shown, None, contents), r),
    ensures
        r matches Ok(saved) && {
            &&& saved.thread_root is None
            &&& saved.draft.plain_text == stored.plain_text
            &&& saved.draft.html_text == stored.html_text
            &&& saved.draft.attachments@ == stored.attachments@
            &&& match (saved.draft.draft_type, stored.draft_type) {
                (SdkComposerDraftType::NewMessage, SdkComposerDraftType::NewMessage) => true,
                (
                    SdkComposerDraftType::Reply { event_id },
                    SdkComposerDraftType::Reply { event_id: before },
                ) => event_id@ == before@,
                (
                    SdkComposerDraftType::Edit { event_id },
                    SdkComposerDraftType::Edit { event_id: before },
                ) => event_id@ == before@,
                _ => false,
            }
        },
{
    match stored.draft_type {
        SdkComposerDraftType::NewMessage => {},
        SdkComposerDraftType::Reply { event_id } => lemma_event_id_string(event_id),
        SdkComposerDraftType::Edit { event_id } => lemma_event_id_string(event_id),
    }
}

/// The files to read for an attachment are those that it is in: its own where its source is a file,
/// and its thumbnail's where that is a file and is described.
pub proof fn law_files_to_read_are_those_that_are_needed(
    attachment: DraftAttachment,
    needed: FilesToRead,
)
    requires
        call_ensures(DraftAttachment::files_to_read, (&attachment,), needed),
    ensures
        ({
            let (source, described, thumbnail) = match attachment {
                DraftAttachment::Audio { source, .. } => (source, false, None),
                DraftAttachment::File { source, .. } => (source, false, None),
                DraftAttachment::Image { image_info, source, thumbnail_source } => (
                    source,
                    image_info.thumbnail_info is Some,
                    thumbnail_source,
                ),
                DraftAttachment::Video { video_info, source, thumbnail_source } => (
                    source,
                    video_info.thumbnail_info is Some,
                    thumbnail_source,
                ),
            };
            &&& match source {
                UploadSource::File { filename } => needed.source == Some(filename),
                UploadSource::Data { .. } => needed.source is None,
            }
            &&& match thumbnail {
                Some(UploadSource::File { filename }) => if described {
                    needed.thumbnail == Some(filename)
                } else {
                    needed.thumbnail is None
                },
                _ => needed.thumbnail is None,
            }
        }),
{
}

/// What a draft is for is accepted exactly if the ID of its event, if any, is one, and is then kept.
pub proof fn law_draft_type_needs_a_sound_id(
    draft_type: ComposerDraftType,
    checked: Result<(), ForeignError>,
    kept: Result<SdkComposerDraftType, ForeignError>,
)
    requires
        call_ensures(ComposerDraftType::check, (&draft_type,), checked),
        call_ensures(SdkComposerDraftType::try_from, (draft_type,), kept),
    ensures
        ({
            let problem = match draft_type {
                ComposerDraftType::NewMessage => None,
                ComposerDraftType::Reply { event_id } => event_id_problem(event_id@),
                ComposerDraftType::Edit { event_id } => event_id_problem(event_id@),
            };
            match problem {
                None => {
                    &&& checked is Ok
                    &&& kept matches Ok(stored) && match (draft_type, stored) {
                        (ComposerDraftType::NewMessage, SdkComposerDraftType::NewMessage) => true,
                        (
                            ComposerDraftType::Reply { event_id },
                            SdkComposerDraftType::Reply { event_id: id },
                        ) => id@ == event_id@,
                        (
                            ComposerDraftType::Edit { event_id },
                            SdkComposerDraftType::Edit { event_id: id },
                        ) => id@ == event_id@,
                        _ => false,
                    }
                },
                Some(problem) => {
                    &&& checked matches Err(error) && error@ == problem
                    &&& kept matches Err(error) && error@ == problem
                },
            }
        }),
{
}

/// A draft whose IDs are sound is not saved only because of an attachment whose bytes cannot be had, and
/// the error says so.
pub proof fn law_unsaved_draft_lacks_the_bytes_of_an_attachment(
    room: Room,
    draft: ComposerDraft,
    thread_root: Option<String>,
    contents: Vec<AttachmentContents>,
    error: ClientError,
)
    requires
        contents@.len() == draft.attachments@.len(),
        call_ensures(
            Room::save_composer_draft,
            (&room, draft, thread_root, contents),
            Err(error),
        ),
        thread_root matches Some(event_id) ==> event_id_problem(event_id@) is None,
        match draft.draft_type {
            ComposerDraftType::NewMessage => true,
            ComposerDraftType::Reply { event_id } => event_id_problem(event_id@) is None,
            ComposerDraftType::Edit { event_id } => event_id_problem(event_id@) is None,
        },
    ensures
        exists|i: int|
            #![trigger draft.attachments@[i]]
            0 <= i < draft.attachments@.len() && match draft.attachments@[i] {
                DraftAttachment::Audio { source, .. } => out_of_reach(
                    source,
                    contents@[i].source,
                    error@,
                ),
                DraftAttachment::File { source, .. } => out_of_reach(
                    source,
                    contents@[i].source,
                    error@,
                ),
                DraftAttachment::Image { source, thumbnail_source, .. } => {
                    ||| out_of_reach(source, contents@[i].source, error@)
                    ||| thumbnail_source matches Some(bytes) && out_of_reach(
                        bytes,
                        contents@[i].thumbnail,
                        error@,
                    )
                },
                DraftAttachment::Video { source, thumbnail_source, .. } => {
                    ||| out_of_reach(source, contents@[i].source, error@)
                    ||| thumbnail_source matches Some(bytes) && out_of_reach(
                        bytes,
                        contents@[i].thumbnail,
                        error@,
                    )
                },
            },
{
    let files = choose|files: Seq<AttachmentFiles>| #[trigger]
        draft.comes_with(contents@, files) && draft.error(files) == Some(error@);
    let i = lemma_some_attachment_has_the_error(draft.attachments@, files);
    let file = files[i];
    assert(draft.attachments@[i].comes_with(contents@[i], file));
}

proof fn lemma_some_attachment_has_the_error(
    attachments: Seq<DraftAttachment>,
    files: Seq<AttachmentFiles>,
) -> (i: int)
    requires
        attachments_error(attachments, files) is Some,
    ensures
        0 <= i < attachments.len(),
        attachments[i].error(files[i]) == attachments_error(attachments, files),
    decreases attachments.len(),
{
    if attachments_error(attachments.drop_last(), files) is Some {
        lemma_some_attachment_has_the_error(attachments.drop_last(), files)
    } else {
        attachments.len() - 1
    }
}

/// The ID of the event that starts a thread, if there is one, is kept exactly if it is one.
pub proof fn law_thread_needs_a_sound_id(
    event_id: Option<String>,
    r: Result<Option<EventId>, ClientError>,
)
    requires
        call_ensures(optional_event, (event_id,), r),
    ensures
        match event_id {
            None => r matches Ok(None),
            Some(text) => match event_id_problem(text@) {
                None => r matches Ok(Some(kept)) && kept@ == text@,
                Some(problem) => r matches Err(error) && error@ == (ClientText::Generic {
                    msg: problem.message,
                    details: Some(problem.debug),
                }),
            },
        },
{
}

} // verus!
