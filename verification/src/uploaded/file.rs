//! Uploaded files.

use vstd::prelude::*;

use crate::errors::{FailureText, UploadedFileError};
use crate::media::{
    captions, ffi_media_source, mxc_checkable, mxc_problem, source_problem,
    validate_media_source_matches, FileInfo, FileMessageContent, MediaSource, MessageType,
};
use crate::mimetypes::{media_type, media_type_problem, of_family, parse_file_mimetype};
use crate::numbers::{countable, uint_problem, validate_positive_uint};
use crate::text::decimal;
use crate::uploaded::{
    are_places_checkable, bad_number_is_named, bad_place_is_named, bad_thumbnail_is_named,
    captioned, content_problem, copy_text, either, header_problem, message_thumbnail_info,
    mismatch_problem, places_checkable, refused_as, source_verdicts, thumbnail_in_order,
    thumbnail_info_of, thumbnail_problem, validate_header, validate_same_mimetype,
    validate_thumbnail, verdict_texts, SourceVerdicts, UploadedThumbnailInfo, VerdictTexts,
};

verus! {

/// The layout of the record.
pub const UPLOADED_FILE_SCHEMA_VERSION: u16 = 1;

/// The kind of the record.
pub const UPLOADED_FILE_KIND: &'static str = "file";

/// How an uploaded file is described.
#[derive(Debug)]
pub struct UploadedFileInfo {
    pub mimetype: String,
    pub size: u64,
}

/// The record of an uploaded file.
#[derive(Debug)]
pub struct UploadedFile {
    pub schema_version: u16,
    pub kind: String,
    pub is_encrypted: bool,
    pub filename: String,
    pub media_source: MediaSource,
    pub thumbnail_source: Option<MediaSource>,
    pub file_info: UploadedFileInfo,
    pub thumbnail_info: Option<UploadedThumbnailInfo>,
    pub original_mimetype: String,
}

impl UploadedFile {
    /// What is wrong with the record apart from its places: the first problem in the order in which
    /// they are looked for.
    pub open spec fn description_problem(self) -> Option<FailureText> {
        either(
            header_problem(
                "UploadedFile"@,
                self.schema_version,
                UPLOADED_FILE_SCHEMA_VERSION,
                self.kind@,
                UPLOADED_FILE_KIND@,
                self.filename@,
            ),
            either(
                uint_problem(self.file_info.size, "file_info.size"@),
                either(
                    media_type_problem(self.original_mimetype@, "original_mimetype"@),
                    either(
                        media_type_problem(self.file_info.mimetype@, "file_info.mimetype"@),
                        mismatch_problem(
                            "UploadedFile"@,
                            self.file_info.mimetype@,
                            self.original_mimetype@,
                            "file_info.mimetype"@,
                        ),
                    ),
                ),
            ),
        )
    }

    /// What is wrong with the record, given which places were refused: its description comes first.
    pub open spec fn problem(self, verdicts: VerdictTexts) -> Option<FailureText> {
        either(
            self.description_problem(),
            either(
                source_problem(
                    self.media_source.encrypted(),
                    verdicts.media,
                    self.is_encrypted,
                    "media_source"@,
                    "UploadedFile"@,
                ),
                thumbnail_problem(
                    self.thumbnail_source,
                    self.thumbnail_info,
                    verdicts.thumbnail,
                    self.is_encrypted,
                    "UploadedFile"@,
                ),
            ),
        )
    }

    /// Whether every place that is judged when the record is checked can be judged.
    pub open spec fn checkable(self) -> bool {
        self.description_problem() is None ==> places_checkable(
            self.media_source,
            self.thumbnail_source,
            self.thumbnail_info,
            self.is_encrypted,
        )
    }

    /// What judging the places of the record gives.
    pub open spec fn verdict_texts(self) -> VerdictTexts {
        verdict_texts(self.media_source, self.thumbnail_source)
    }

    pub(crate) fn verdicts(&self) -> (r: SourceVerdicts)
        ensures
            r@ == self.verdict_texts(),
    {
        source_verdicts(&self.media_source, &self.thumbnail_source)
    }

    fn check_description(&self) -> (r: Result<(), UploadedFileError>)
        ensures
            match r {
                Ok(_) => self.description_problem() is None,
                Err(error) => self.description_problem() == Some(error@),
            },
    {
        match validate_header(
            "UploadedFile",
            self.schema_version,
            UPLOADED_FILE_SCHEMA_VERSION,
            self.kind.as_str(),
            UPLOADED_FILE_KIND,
            self.filename.as_str(),
        ) {
            Ok(_) => {},
            Err(error) => return Err(UploadedFileError::from(error)),
        }
        match validate_positive_uint(self.file_info.size, "file_info.size") {
            Ok(_) => {},
            Err(error) => return Err(UploadedFileError::from(error)),
        }
        match parse_file_mimetype(self.original_mimetype.as_str(), "original_mimetype") {
            Ok(_) => {},
            Err(error) => return Err(error),
        }
        match parse_file_mimetype(self.file_info.mimetype.as_str(), "file_info.mimetype") {
            Ok(_) => {},
            Err(error) => return Err(error),
        }
        match validate_same_mimetype(
            "UploadedFile",
            self.file_info.mimetype.as_str(),
            self.original_mimetype.as_str(),
            "file_info.mimetype",
        ) {
            Ok(_) => Ok(()),
            Err(error) => Err(UploadedFileError::from(error)),
        }
    }

    /// Whether every place that is judged when the record is checked can be judged.
    pub fn is_checkable(&self) -> (r: bool)
        ensures
            r == self.checkable(),
    {
        match self.check_description() {
            Ok(_) => are_places_checkable(
                &self.media_source,
                &self.thumbnail_source,
                &self.thumbnail_info,
                self.is_encrypted,
            ),
            Err(_) => true,
        }
    }

    /// Checks the record, given which of its places were refused.
    pub fn validate_with(&self, verdicts: &SourceVerdicts) -> (r: Result<(), UploadedFileError>)
        ensures
            match r {
                Ok(_) => self.problem(verdicts@) is None,
                Err(error) => self.problem(verdicts@) == Some(error@),
            },
    {
        self.check_description()?;
        match validate_media_source_matches(
            &self.media_source,
            copy_text(&verdicts.media),
            self.is_encrypted,
            "media_source",
            "UploadedFile",
        ) {
            Ok(_) => {},
            Err(error) => return Err(UploadedFileError::from(error)),
        }
        match validate_thumbnail(
            &self.thumbnail_source,
            &self.thumbnail_info,
            &verdicts.thumbnail,
            self.is_encrypted,
            "UploadedFile",
        ) {
            Ok(_) => Ok(()),
            Err(error) => Err(UploadedFileError::from(error)),
        }
    }

    /// Checks the record.
    pub fn validate(&self) -> (r: Result<(), UploadedFileError>)
        requires
            self.checkable(),
        ensures
            match r {
                Ok(_) => self.problem(self.verdict_texts()) is None,
                Err(error) => self.problem(self.verdict_texts()) == Some(error@),
            },
    {
        let verdicts = self.verdicts();
        self.validate_with(&verdicts)
    }

    /// Checks the record, unless a place that would have to be judged cannot be.
    pub fn check(&self) -> (r: Option<Result<(), UploadedFileError>>)
        ensures
            match r {
                None => !self.checkable(),
                Some(Ok(_)) => self.checkable() && self.problem(self.verdict_texts()) is None,
                Some(Err(error)) => self.checkable() && self.problem(self.verdict_texts()) == Some(
                    error@,
                ),
            },
    {
        if self.is_checkable() {
            Some(self.validate())
        } else {
            None
        }
    }

    /// How the message describes the file.
    pub open spec fn message_info(self) -> FileInfo {
        FileInfo {
            mimetype: Some(self.original_mimetype),
            size: Some(self.file_info.size),
            thumbnail_info: thumbnail_info_of(self.thumbnail_info),
            thumbnail_source: self.thumbnail_source,
        }
    }

    /// The message shows what the record says, under the captions that were asked for.
    pub open spec fn presents(
        self,
        message: MessageType,
        caption: Option<String>,
        formatted_caption: Option<String>,
    ) -> bool {
        &&& message matches MessageType::File(content)
        &&& content.filename == self.filename
        &&& content.source == self.media_source
        &&& content.info == Some(self.message_info())
        &&& captioned(
            content.caption,
            content.formatted_caption,
            caption,
            formatted_caption,
        )
    }

    /// Turns the record into the message that presents the file.
    pub fn into_message_content(
        self,
        verdicts: SourceVerdicts,
        caption: Option<String>,
        formatted_caption: Option<String>,
    ) -> (r: Result<MessageType, UploadedFileError>)
        ensures
            match r {
                Ok(message) => {
                    &&& content_problem(self.thumbnail_source, verdicts@) is None
                    &&& self.presents(message, caption, formatted_caption)
                },
                Err(error) => content_problem(self.thumbnail_source, verdicts@) == Some(error@),
            },
    {
        let source = match ffi_media_source(self.media_source, verdicts.media, "media_source") {
            Ok(source) => source,
            Err(error) => return Err(UploadedFileError::from(error)),
        };
        let thumbnail_source = match self.thumbnail_source {
            Some(source) => match ffi_media_source(source, verdicts.thumbnail, "thumbnail_source") {
                Ok(source) => Some(source),
                Err(error) => return Err(UploadedFileError::from(error)),
            },
            None => None,
        };
        let captions = captions(caption, formatted_caption);
        Ok(
            MessageType::File(
                FileMessageContent {
                    filename: self.filename,
                    caption: captions.plain,
                    formatted_caption: captions.formatted,
                    source,
                    info: Some(
                        FileInfo {
                        mimetype: Some(self.original_mimetype),
                        size: Some(self.file_info.size),
                        thumbnail_info: message_thumbnail_info(self.thumbnail_info),
                        thumbnail_source,
                    },
                    ),
                },
            ),
        )
    }
}

impl UploadedFile {
    /// What the record says of itself is in order: its head, its numbers and its media types.
    pub open spec fn described_well(self) -> bool {
        &&& self.schema_version == 1
        &&& self.kind@ == "file"@
        &&& self.filename@.len() > 0
        &&& countable(self.file_info.size)
        &&& media_type(self.original_mimetype@) is Ok
        &&& media_type(self.file_info.mimetype@) is Ok
        &&& self.file_info.mimetype@ == self.original_mimetype@
    }

    /// The record of a file that is in order, apart from where its places are.
    pub open spec fn in_order(self) -> bool {
        &&& self.described_well()
        &&& self.media_source is Encrypted <==> self.is_encrypted
        &&& thumbnail_in_order(self.thumbnail_source, self.thumbnail_info, self.is_encrypted)
    }

    /// The first thing that is wrong with a record is the one that is named.
    pub open spec fn fault_is_named(self, verdicts: VerdictTexts, error: Option<FailureText>) -> bool {
        let versioned = self.schema_version == 1;
        let of_kind = versioned && self.kind@ == "file"@;
        let named = of_kind && self.filename@.len() > 0;
        let sized = named && countable(self.file_info.size);
        let typed = sized && media_type(self.original_mimetype@) is Ok;
        let described = typed && media_type(self.file_info.mimetype@) is Ok;
        let matched = described && self.file_info.mimetype@ == self.original_mimetype@;
        let placed = matched && (self.media_source is Encrypted <==> self.is_encrypted)
            && verdicts.media is None;
        &&& self.schema_version != 1 ==> refused_as(
            error,
            "Unsupported "@ + "UploadedFile"@ + " schema_version: "@ + decimal(self.schema_version as nat),
        )
        &&& versioned && self.kind@ != "file"@ ==> refused_as(
            error,
            "Unsupported "@ + "UploadedFile"@ + " kind: "@ + self.kind@,
        )
        &&& of_kind && self.filename@.len() == 0 ==> refused_as(
            error,
            "UploadedFile"@ + " filename is empty"@,
        )
        &&& named ==> bad_number_is_named(error, "file_info.size"@, self.file_info.size)
        &&& sized ==> (media_type(self.original_mimetype@) matches Err(problem) ==> error == Some(
            FailureText::Validation {
                msg: "Invalid "@ + "original_mimetype"@ + ": "@ + self.original_mimetype@,
                details: Some(problem.debug),
            },
        ))
        &&& typed ==> (media_type(self.file_info.mimetype@) matches Err(problem) ==> error == Some(
            FailureText::Validation {
                msg: "Invalid "@ + "file_info.mimetype"@ + ": "@ + self.file_info.mimetype@,
                details: Some(problem.debug),
            },
        ))
        &&& described && self.file_info.mimetype@ != self.original_mimetype@ ==> refused_as(
            error,
            "UploadedFile"@ + " "@ + "file_info.mimetype"@ + " does not match original_mimetype"@,
        )
        &&& matched ==> bad_place_is_named(
            error,
            "media_source"@,
            self.media_source,
            verdicts.media,
            self.is_encrypted,
            "UploadedFile"@,
        )
        &&& placed ==> bad_thumbnail_is_named(
            error,
            self.thumbnail_source,
            self.thumbnail_info,
            verdicts.thumbnail,
            self.is_encrypted,
            "UploadedFile"@,
        )
    }
}

/// A record is accepted exactly if it is in order and none of its places was refused. Otherwise the
/// first thing that is wrong with it is named.
pub proof fn law_file_record_must_be_in_order(
    record: UploadedFile,
    verdicts: SourceVerdicts,
    r: Result<(), UploadedFileError>,
)
    requires
        call_ensures(UploadedFile::validate_with, (&record, &verdicts), r),
    ensures
        r is Ok <==> {
            &&& record.schema_version == 1
            &&& record.kind@ == "file"@
            &&& record.filename@.len() > 0
            &&& countable(record.file_info.size)
            &&& media_type(record.original_mimetype@) is Ok
            &&& media_type(record.file_info.mimetype@) is Ok
            &&& record.file_info.mimetype@ == record.original_mimetype@
            &&& record.media_source is Encrypted <==> record.is_encrypted
            &&& match (record.thumbnail_source, record.thumbnail_info) {
                (None, None) => true,
                (Some(place), Some(info)) => {
                    &&& place is Encrypted <==> record.is_encrypted
                    &&& countable(info.size)
                    &&& countable(info.width)
                    &&& countable(info.height)
                    &&& of_family(info.mimetype@, "image"@)
                },
                _ => false,
            }
            &&& verdicts.media is None
            &&& record.thumbnail_source is Some ==> verdicts.thumbnail is None
        },
        r matches Err(error) ==> record.fault_is_named(verdicts@, Some(error@)),
{
}

/// A record is accepted exactly if it is in order and its places are places of media. Nothing is said
/// of it only where such a place cannot be judged.
pub proof fn law_file_record_is_checked_against_its_places(
    record: UploadedFile,
    r: Option<Result<(), UploadedFileError>>,
)
    requires
        call_ensures(UploadedFile::check, (&record,), r),
    ensures
        r matches Some(Ok(_)) ==> {
            &&& record.in_order()
            &&& mxc_problem(record.media_source.location()) is None
            &&& record.thumbnail_source matches Some(place) ==> mxc_problem(place.location()) is None
        },
        record.in_order() && mxc_problem(record.media_source.location()) is None && mxc_checkable(
            record.media_source.location(),
        ) && (record.thumbnail_source matches Some(place) ==> mxc_problem(place.location()) is None
            && mxc_checkable(place.location())) ==> r matches Some(Ok(_)),
        r is None <==> {
            &&& record.described_well()
            &&& record.media_source is Encrypted <==> record.is_encrypted
            &&& {
                ||| !mxc_checkable(record.media_source.location())
                ||| {
                    &&& mxc_problem(record.media_source.location()) is None
                    &&& record.thumbnail_info is Some
                    &&& record.thumbnail_source matches Some(place)
                    &&& place is Encrypted <==> record.is_encrypted
                    &&& !mxc_checkable(place.location())
                }
            }
        },
        r matches Some(Err(error)) ==> record.fault_is_named(record.verdict_texts(), Some(error@)),
{
}

/// The message shows the file as the record has it: the name, the place, the media type and the rest
/// of the description, the thumbnail with its place and its description, and the captions that were
/// asked for. There is a message exactly if no place was refused.
pub proof fn law_message_shows_the_recorded_file(
    record: UploadedFile,
    verdicts: SourceVerdicts,
    caption: Option<String>,
    formatted_caption: Option<String>,
    r: Result<MessageType, UploadedFileError>,
)
    requires
        call_ensures(
            UploadedFile::into_message_content,
            (record, verdicts, caption, formatted_caption),
            r,
        ),
    ensures
        r is Ok <==> verdicts.media is None && (record.thumbnail_source is Some
            ==> verdicts.thumbnail is None),
        r matches Ok(message) ==> {
            &&& message matches MessageType::File(content)
            &&& content.filename == record.filename
            &&& content.source == record.media_source
            &&& content.info matches Some(info)
            &&& info.mimetype == Some(record.original_mimetype)
            &&& info.size == Some(record.file_info.size)
            &&& info.thumbnail_source == record.thumbnail_source
            &&& match (info.thumbnail_info, record.thumbnail_info) {
                (None, None) => true,
                (Some(shown), Some(recorded)) => {
                    &&& shown.width == Some(recorded.width)
                    &&& shown.height == Some(recorded.height)
                    &&& shown.size == Some(recorded.size)
                    &&& shown.mimetype == Some(recorded.mimetype)
                },
                _ => false,
            }
            &&& match formatted_caption {
                Some(body) => content.formatted_caption matches Some(formatted) && formatted.body
                    == body && formatted.format is Html,
                None => content.formatted_caption is None,
            }
            &&& match caption {
                Some(text) => content.caption == Some(text),
                None => match formatted_caption {
                    Some(_) => content.caption matches Some(empty) && empty@.len() == 0,
                    None => content.caption is None,
                },
            }
        },
        r matches Err(error) ==> match (verdicts.media, verdicts.thumbnail) {
            (Some(debug), _) => error@ == (FailureText::Validation {
                msg: "Invalid "@ + "media_source"@,
                details: Some(debug@),
            }),
            (None, Some(debug)) => error@ == (FailureText::Validation {
                msg: "Invalid "@ + "thumbnail_source"@,
                details: Some(debug@),
            }),
            (None, None) => false,
        },
{
}

/// The ways to check a record agree: it is checked where it can be, and then with the same outcome.
pub proof fn law_file_record_is_checked_alike(
    record: UploadedFile,
    checkable: bool,
    checked: Option<Result<(), UploadedFileError>>,
    validated: Result<(), UploadedFileError>,
)
    requires
        call_ensures(UploadedFile::is_checkable, (&record,), checkable),
        call_ensures(UploadedFile::check, (&record,), checked),
        checkable ==> call_ensures(UploadedFile::validate, (&record,), validated),
    ensures
        checkable <==> checked is Some,
        checked matches Some(Ok(_)) ==> validated is Ok,
        checked matches Some(Err(error)) ==> (validated matches Err(same) && same@ == error@),
{
}

} // verus!
