//! Media that was uploaded ahead of the message that presents it.
//!
//! An upload ends in a record that the client keeps and hands back, possibly much later, to have the
//! message sent. What comes back is checked before it is believed.

use vstd::prelude::*;

use crate::errors::{refusal, FailureText, UploadedImageError};
use crate::media::{
    is_mxc_checkable, mxc_checkable, mxc_problem, refusal_debug, source_problem, source_refusal,
    unusable_source, validate_media_source_matches, FormattedBody, MediaSource, MessageFormat,
    ThumbnailInfo,
};
use crate::mimetypes::{family_problem, media_type, of_family, parse_image_mimetype};
use crate::numbers::{countable, uint_problem, validate_positive_uint};
use crate::text::{decimal, decimal_text, join2, join4, opt_text, same_text};

pub mod file;
pub mod image;
pub mod video;
pub mod voice;

verus! {

/// How an uploaded thumbnail is described.
#[derive(Debug)]
pub struct UploadedThumbnailInfo {
    pub mimetype: String,
    pub size: u64,
    pub width: u64,
    pub height: u64,
}

/// Whether the places of an upload were refused, and how the refusals render. No refusal stands for a
/// place that can be used, or for one that is not there.
#[derive(Debug)]
pub struct SourceVerdicts {
    pub media: Option<String>,
    pub thumbnail: Option<String>,
}

/// The texts of [`SourceVerdicts`].
#[verifier::ext_equal]
pub struct VerdictTexts {
    pub media: Option<Seq<char>>,
    pub thumbnail: Option<Seq<char>>,
}

impl View for SourceVerdicts {
    type V = VerdictTexts;

    open spec fn view(&self) -> VerdictTexts {
        VerdictTexts { media: opt_text(self.media), thumbnail: opt_text(self.thumbnail) }
    }
}

/// The refusal of a place. Of a place that cannot be judged nothing is said: a record with such a
/// place is checked only where the place does not come up.
pub open spec fn place_verdict(source: MediaSource) -> Option<Seq<char>> {
    if mxc_checkable(source.location()) {
        refusal_debug(mxc_problem(source.location()))
    } else {
        None
    }
}

/// What judging the places of an upload gives.
pub open spec fn verdict_texts(media: MediaSource, thumbnail: Option<MediaSource>) -> VerdictTexts {
    VerdictTexts {
        media: place_verdict(media),
        thumbnail: match thumbnail {
            Some(source) => place_verdict(source),
            None => None,
        },
    }
}

/// Whether every place that is judged when a record is checked can be judged, once the rest of the
/// record is in order. The place of the media is judged where it is encrypted as the record says. The
/// place of the thumbnail is judged next, where the thumbnail is described and is encrypted as the
/// record says.
pub open spec fn places_checkable(
    media: MediaSource,
    thumbnail: Option<MediaSource>,
    info: Option<UploadedThumbnailInfo>,
    is_encrypted: bool,
) -> bool {
    media.encrypted() == is_encrypted ==> {
        &&& mxc_checkable(media.location())
        &&& thumbnail matches Some(source) ==> (info is Some && source.encrypted() == is_encrypted
            && mxc_problem(media.location()) is None ==> mxc_checkable(source.location()))
    }
}

fn are_places_checkable(
    media: &MediaSource,
    thumbnail: &Option<MediaSource>,
    info: &Option<UploadedThumbnailInfo>,
    is_encrypted: bool,
) -> (r: bool)
    ensures
        r == places_checkable(*media, *thumbnail, *info, is_encrypted),
{
    if media.is_encrypted() != is_encrypted {
        return true;
    }
    if !is_mxc_checkable(media.url()) {
        return false;
    }
    match (thumbnail, info) {
        (Some(source), Some(_)) => {
            source.is_encrypted() != is_encrypted || source_refusal(media).is_some()
                || is_mxc_checkable(source.url())
        },
        _ => true,
    }
}

fn verdict(source: &MediaSource) -> (r: Option<String>)
    ensures
        opt_text(r) == place_verdict(*source),
{
    if is_mxc_checkable(source.url()) {
        match source_refusal(source) {
            Some(error) => Some(error.debug),
            None => None,
        }
    } else {
        None
    }
}

fn source_verdicts(media: &MediaSource, thumbnail: &Option<MediaSource>) -> (r: SourceVerdicts)
    ensures
        r@ == verdict_texts(*media, *thumbnail),
{
    SourceVerdicts {
        media: verdict(media),
        thumbnail: match thumbnail {
            Some(source) => verdict(source),
            None => None,
        },
    }
}

/// The first of two problems.
pub open spec fn either(
    first: Option<FailureText>,
    second: Option<FailureText>,
) -> Option<FailureText> {
    if first is Some {
        first
    } else {
        second
    }
}

/// What is wrong with the head of a record: the version of its layout, its kind, the name of the
/// file.
pub open spec fn header_problem(
    uploaded_type: Seq<char>,
    schema_version: u16,
    known_version: u16,
    kind: Seq<char>,
    known_kind: Seq<char>,
    filename: Seq<char>,
) -> Option<FailureText> {
    if schema_version != known_version {
        Some(
            refusal(
                "Unsupported "@ + uploaded_type + " schema_version: "@ + decimal(
                    schema_version as nat,
                ),
            ),
        )
    } else if kind != known_kind {
        Some(refusal("Unsupported "@ + uploaded_type + " kind: "@ + kind))
    } else if filename.len() == 0 {
        Some(refusal(uploaded_type + " filename is empty"@))
    } else {
        None
    }
}

fn validate_header(
    uploaded_type: &str,
    schema_version: u16,
    known_version: u16,
    kind: &str,
    known_kind: &str,
    filename: &str,
) -> (r: Result<(), UploadedImageError>)
    ensures
        ({
            let problem = header_problem(
                uploaded_type@,
                schema_version,
                known_version,
                kind@,
                known_kind@,
                filename@,
            );
            match r {
                Ok(_) => problem is None,
                Err(error) => problem == Some(error@),
            }
        }),
{
    if schema_version != known_version {
        return Err(
            UploadedImageError::validation(
                join4(
                    "Unsupported ",
                    uploaded_type,
                    " schema_version: ",
                    decimal_text(schema_version as u64).as_str(),
                ),
                None,
            ),
        );
    }
    if !same_text(kind, known_kind) {
        return Err(
            UploadedImageError::validation(
                join4("Unsupported ", uploaded_type, " kind: ", kind),
                None,
            ),
        );
    }
    if filename.is_empty() {
        return Err(
            UploadedImageError::validation(join2(uploaded_type, " filename is empty"), None),
        );
    }
    Ok(())
}

/// What is wrong where the two media types of a record must be the same.
pub open spec fn mismatch_problem(
    uploaded_type: Seq<char>,
    mimetype: Seq<char>,
    original_mimetype: Seq<char>,
    field_name: Seq<char>,
) -> Option<FailureText> {
    if mimetype != original_mimetype {
        Some(
            refusal(
                uploaded_type + " "@ + field_name + " does not match original_mimetype"@,
            ),
        )
    } else {
        None
    }
}

fn validate_same_mimetype(
    uploaded_type: &str,
    mimetype: &str,
    original_mimetype: &str,
    field_name: &str,
) -> (r: Result<(), UploadedImageError>)
    ensures
        ({
            let problem = mismatch_problem(
                uploaded_type@,
                mimetype@,
                original_mimetype@,
                field_name@,
            );
            match r {
                Ok(_) => problem is None,
                Err(error) => problem == Some(error@),
            }
        }),
{
    if !same_text(mimetype, original_mimetype) {
        return Err(
            UploadedImageError::validation(
                join4(uploaded_type, " ", field_name, " does not match original_mimetype"),
                None,
            ),
        );
    }
    Ok(())
}

/// What is wrong with the thumbnail of a record: where it is kept and how it is described must come
/// together.
pub open spec fn thumbnail_problem(
    source: Option<MediaSource>,
    info: Option<UploadedThumbnailInfo>,
    refused: Option<Seq<char>>,
    is_encrypted: bool,
    uploaded_type: Seq<char>,
) -> Option<FailureText> {
    match (source, info) {
        (Some(source), Some(info)) => either(
            source_problem(
                source.encrypted(),
                refused,
                is_encrypted,
                "thumbnail_source"@,
                uploaded_type,
            ),
            either(
                uint_problem(info.size, "thumbnail_info.size"@),
                either(
                    uint_problem(info.width, "thumbnail_info.width"@),
                    either(
                        uint_problem(info.height, "thumbnail_info.height"@),
                        family_problem(info.mimetype@, "thumbnail_info.mimetype"@, "image"@),
                    ),
                ),
            ),
        ),
        (None, None) => None,
        (Some(_), None) => Some(
            refusal(uploaded_type + " thumbnail_source is present without thumbnail_info"@),
        ),
        (None, Some(_)) => Some(
            refusal(uploaded_type + " thumbnail_info is present without thumbnail_source"@),
        ),
    }
}

fn copy_text(text: &Option<String>) -> (r: Option<String>)
    ensures
        r == *text,
{
    match text {
        Some(text) => Some(text.clone()),
        None => None,
    }
}

fn validate_thumbnail(
    source: &Option<MediaSource>,
    info: &Option<UploadedThumbnailInfo>,
    refused: &Option<String>,
    is_encrypted: bool,
    uploaded_type: &str,
) -> (r: Result<(), UploadedImageError>)
    ensures
        ({
            let problem = thumbnail_problem(
                *source,
                *info,
                opt_text(*refused),
                is_encrypted,
                uploaded_type@,
            );
            match r {
                Ok(_) => problem is None,
                Err(error) => problem == Some(error@),
            }
        }),
{
    match (source, info) {
        (Some(source), Some(info)) => {
            validate_media_source_matches(
                source,
                copy_text(refused),
                is_encrypted,
                "thumbnail_source",
                uploaded_type,
            )?;
            validate_positive_uint(info.size, "thumbnail_info.size")?;
            validate_positive_uint(info.width, "thumbnail_info.width")?;
            validate_positive_uint(info.height, "thumbnail_info.height")?;
            parse_image_mimetype(info.mimetype.as_str(), "thumbnail_info.mimetype")?;
            Ok(())
        },
        (None, None) => Ok(()),
        (Some(_), None) => Err(
            UploadedImageError::validation(
                join2(uploaded_type, " thumbnail_source is present without thumbnail_info"),
                None,
            ),
        ),
        (None, Some(_)) => Err(
            UploadedImageError::validation(
                join2(uploaded_type, " thumbnail_info is present without thumbnail_source"),
                None,
            ),
        ),
    }
}

/// How a message describes an uploaded thumbnail.
pub open spec fn thumbnail_info_of(info: Option<UploadedThumbnailInfo>) -> Option<ThumbnailInfo> {
    match info {
        Some(info) => Some(
            ThumbnailInfo {
                height: Some(info.height),
                width: Some(info.width),
                mimetype: Some(info.mimetype),
                size: Some(info.size),
            },
        ),
        None => None,
    }
}

fn message_thumbnail_info(info: Option<UploadedThumbnailInfo>) -> (r: Option<ThumbnailInfo>)
    ensures
        r == thumbnail_info_of(info),
{
    match info {
        Some(info) => Some(
            ThumbnailInfo {
                height: Some(info.height),
                width: Some(info.width),
                mimetype: Some(info.mimetype),
                size: Some(info.size),
            },
        ),
        None => None,
    }
}

/// What keeps the places of an upload out of a message.
pub open spec fn content_problem(
    thumbnail_source: Option<MediaSource>,
    verdicts: VerdictTexts,
) -> Option<FailureText> {
    match verdicts.media {
        Some(debug) => Some(unusable_source(debug, "media_source"@)),
        None => match (thumbnail_source, verdicts.thumbnail) {
            (Some(_), Some(debug)) => Some(unusable_source(debug, "thumbnail_source"@)),
            _ => None,
        },
    }
}

/// The captions of a message are those that the client asked for; where it gave markup alone, the
/// plain caption is empty.
pub open spec fn captioned(
    plain: Option<String>,
    formatted: Option<FormattedBody>,
    caption: Option<String>,
    formatted_caption: Option<String>,
) -> bool {
    &&& match formatted_caption {
        Some(body) => formatted == Some(FormattedBody { format: MessageFormat::Html, body }),
        None => formatted is None,
    }
    &&& match (caption, formatted_caption) {
        (None, Some(_)) => plain matches Some(empty) && empty@ == Seq::<char>::empty(),
        _ => plain == caption,
    }
}

/// A message with a caption in markup always has a plain caption too.
pub proof fn law_markup_comes_with_plain_caption(
    plain: Option<String>,
    formatted: Option<FormattedBody>,
    caption: Option<String>,
    formatted_caption: Option<String>,
)
    requires
        captioned(plain, formatted, caption, formatted_caption),
    ensures
        formatted is Some ==> plain is Some,
        formatted is Some <==> formatted_caption is Some,
{
}

/// A refusal under a message and nothing else.
pub open spec fn refused_as(error: Option<FailureText>, msg: Seq<char>) -> bool {
    error == Some(FailureText::Validation { msg, details: None })
}

/// A number that is zero, or too large for the protocol, is refused under its name.
pub open spec fn bad_number_is_named(
    error: Option<FailureText>,
    field: Seq<char>,
    value: u64,
) -> bool {
    &&& value == 0 ==> refused_as(error, field + " must be greater than 0"@)
    &&& value > 0x1F_FFFF_FFFF_FFFF ==> refused_as(error, field + " is too large for Matrix UInt"@)
}

/// A text that is no media type, or one of another family, is refused under its name.
pub open spec fn bad_type_is_named(
    error: Option<FailureText>,
    field: Seq<char>,
    text: Seq<char>,
    family: Seq<char>,
) -> bool {
    match media_type(text) {
        Err(problem) => error == Some(
            FailureText::Validation {
                msg: "Invalid "@ + field + ": "@ + text,
                details: Some(problem.debug),
            },
        ),
        Ok(parsed) => parsed.family != family ==> refused_as(
            error,
            field + " must be "@ + family + "/*, got "@ + parsed.essence,
        ),
    }
}

/// A place that is not encrypted as the record says, or that was refused, is refused under its name.
pub open spec fn bad_place_is_named(
    error: Option<FailureText>,
    field: Seq<char>,
    place: MediaSource,
    refused: Option<Seq<char>>,
    is_encrypted: bool,
    uploaded_type: Seq<char>,
) -> bool {
    &&& place is Encrypted && !is_encrypted ==> refused_as(
        error,
        field + " encryption mismatch: source is_encrypted="@ + "true"@ + ", "@ + uploaded_type
            + " is_encrypted="@ + "false"@,
    )
    &&& place is Plain && is_encrypted ==> refused_as(
        error,
        field + " encryption mismatch: source is_encrypted="@ + "false"@ + ", "@ + uploaded_type
            + " is_encrypted="@ + "true"@,
    )
    &&& (place is Encrypted <==> is_encrypted) ==> (refused matches Some(debug) ==> error == Some(
        FailureText::Validation { msg: "Invalid "@ + field, details: Some(debug) },
    ))
}

/// A thumbnail that comes with its place and its description, both of them in order apart from where
/// the place is, or that is not there at all.
pub open spec fn thumbnail_in_order(
    source: Option<MediaSource>,
    info: Option<UploadedThumbnailInfo>,
    is_encrypted: bool,
) -> bool {
    match (source, info) {
        (None, None) => true,
        (Some(place), Some(info)) => {
            &&& place is Encrypted <==> is_encrypted
            &&& countable(info.size)
            &&& countable(info.width)
            &&& countable(info.height)
            &&& of_family(info.mimetype@, "image"@)
        },
        _ => false,
    }
}

/// What is wrong with the thumbnail of a record is refused under its name.
pub open spec fn bad_thumbnail_is_named(
    error: Option<FailureText>,
    source: Option<MediaSource>,
    info: Option<UploadedThumbnailInfo>,
    refused: Option<Seq<char>>,
    is_encrypted: bool,
    uploaded_type: Seq<char>,
) -> bool {
    match (source, info) {
        (None, None) => true,
        (Some(_), None) => refused_as(
            error,
            uploaded_type + " thumbnail_source is present without thumbnail_info"@,
        ),
        (None, Some(_)) => refused_as(
            error,
            uploaded_type + " thumbnail_info is present without thumbnail_source"@,
        ),
        (Some(place), Some(info)) => {
            &&& bad_place_is_named(
                error,
                "thumbnail_source"@,
                place,
                refused,
                is_encrypted,
                uploaded_type,
            )
            &&& (place is Encrypted <==> is_encrypted) && refused is None ==> {
                &&& bad_number_is_named(error, "thumbnail_info.size"@, info.size)
                &&& countable(info.size) ==> {
                    &&& bad_number_is_named(error, "thumbnail_info.width"@, info.width)
                    &&& countable(info.width) ==> {
                        &&& bad_number_is_named(error, "thumbnail_info.height"@, info.height)
                        &&& countable(info.height) ==> bad_type_is_named(
                            error,
                            "thumbnail_info.mimetype"@,
                            info.mimetype@,
                            "image"@,
                        )
                    }
                }
            }
        },
    }
}

} // verus!
