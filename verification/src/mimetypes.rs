//! Media types.

use vstd::prelude::*;

use crate::errors::{
    foreign_client_error, refusal, refusal_because, ClientError, FailureText, ForeignError,
    ForeignText, UploadedFileError, UploadedImageError, UploadedVideoError, UploadedVoiceError,
};
use crate::text::{join2, join4, same_text};

verus! {

/// A parsed media type, such as `image/png; q=1`.
#[derive(Debug)]
pub struct MediaType {
    /// The family, such as `image`.
    pub family: String,
    /// The media type without its parameters, such as `image/png`.
    pub essence: String,
}

/// The texts of a [`MediaType`].
#[verifier::ext_equal]
pub struct MediaTypeText {
    pub family: Seq<char>,
    pub essence: Seq<char>,
}

impl View for MediaType {
    type V = MediaTypeText;

    open spec fn view(&self) -> MediaTypeText {
        MediaTypeText { family: self.family@, essence: self.essence@ }
    }
}

/// What parsing a text as a `mime::Mime` gives: the type and the essence of the media type, or the
/// parser's error.
pub uninterp spec fn media_type(text: Seq<char>) -> Result<MediaTypeText, ForeignText>;

/// Parsing a `mime::Mime` from a text, with its `type_` and its `essence_str`. The result depends on
/// the text alone. An essence is a media type itself, and parsing it again changes neither the type
/// nor the essence.
#[verifier::external_body]
fn parse_mime(text: &str) -> (r: Result<MediaType, ForeignError>)
    ensures
        match r {
            Ok(parsed) => media_type(text@) == Ok::<MediaTypeText, ForeignText>(parsed@)
                && media_type(parsed.essence@) == Ok::<MediaTypeText, ForeignText>(parsed@),
            Err(error) => media_type(text@) == Err::<MediaTypeText, ForeignText>(error@),
        },
{
    match text.parse::<mime::Mime>() {
        Ok(parsed) => Ok(MediaType {
            family: parsed.type_().as_str().to_owned(),
            essence: parsed.essence_str().to_owned(),
        }),
        Err(error) => Err(ForeignError { message: error.to_string(), debug: format!("{error:?}") }),
    }
}

/// What is wrong with a text that must be some media type.
pub open spec fn media_type_problem(text: Seq<char>, field_name: Seq<char>) -> Option<FailureText> {
    match media_type(text) {
        Ok(_) => None,
        Err(error) => Some(
            refusal_because("Invalid "@ + field_name + ": "@ + text, error.debug),
        ),
    }
}

/// What is wrong with a text that must be a media type of a family.
pub open spec fn family_problem(
    text: Seq<char>,
    field_name: Seq<char>,
    family: Seq<char>,
) -> Option<FailureText> {
    match media_type(text) {
        Ok(parsed) => if parsed.family != family {
            Some(refusal(field_name + " must be "@ + family + "/*, got "@ + parsed.essence))
        } else {
            None
        },
        Err(_) => media_type_problem(text, field_name),
    }
}

/// A media type that was read from a text: it is what the text says, and its essence says it too.
pub open spec fn read_from(parsed: MediaType, text: Seq<char>) -> bool {
    &&& media_type(text) == Ok::<MediaTypeText, ForeignText>(parsed@)
    &&& media_type(parsed.essence@) == Ok::<MediaTypeText, ForeignText>(parsed@)
}

fn parse_any(mimetype: &str, field_name: &str) -> (r: Result<MediaType, UploadedImageError>)
    ensures
        match r {
            Ok(parsed) => read_from(parsed, mimetype@),
            Err(error) => media_type_problem(mimetype@, field_name@) == Some(error@),
        },
{
    match parse_mime(mimetype) {
        Ok(parsed) => Ok(parsed),
        Err(error) => Err(
            UploadedImageError::validation(
                join4("Invalid ", field_name, ": ", mimetype),
                Some(error.debug),
            ),
        ),
    }
}

fn parse_family(mimetype: &str, field_name: &str, family: &str) -> (r: Result<
    MediaType,
    UploadedImageError,
>)
    ensures
        match r {
            Ok(parsed) => read_from(parsed, mimetype@) && parsed.family@ == family@,
            Err(error) => family_problem(mimetype@, field_name@, family@) == Some(error@),
        },
{
    let parsed = parse_any(mimetype, field_name)?;
    if !same_text(parsed.family.as_str(), family) {
        let start = join4(field_name, " must be ", family, "/*, got ");
        return Err(
            UploadedImageError::validation(
                join2(start.as_str(), parsed.essence.as_str()),
                None,
            ),
        );
    }
    Ok(parsed)
}

/// Reads a media type that must describe an image.
pub fn parse_image_mimetype(mimetype: &str, field_name: &str) -> (r: Result<
    MediaType,
    UploadedImageError,
>)
    ensures
        match r {
            Ok(parsed) => read_from(parsed, mimetype@) && parsed.family@ == "image"@,
            Err(error) => family_problem(mimetype@, field_name@, "image"@) == Some(error@),
        },
{
    parse_family(mimetype, field_name, "image")
}

/// Reads a media type that must describe audio.
pub fn parse_audio_mimetype(mimetype: &str, field_name: &str) -> (r: Result<
    MediaType,
    UploadedVoiceError,
>)
    ensures
        match r {
            Ok(parsed) => read_from(parsed, mimetype@) && parsed.family@ == "audio"@,
            Err(error) => family_problem(mimetype@, field_name@, "audio"@) == Some(error@),
        },
{
    match parse_family(mimetype, field_name, "audio") {
        Ok(parsed) => Ok(parsed),
        Err(error) => Err(UploadedVoiceError::from(error)),
    }
}

/// Reads a media type that must describe a video.
pub fn parse_video_mimetype(mimetype: &str, field_name: &str) -> (r: Result<
    MediaType,
    UploadedVideoError,
>)
    ensures
        match r {
            Ok(parsed) => read_from(parsed, mimetype@) && parsed.family@ == "video"@,
            Err(error) => family_problem(mimetype@, field_name@, "video"@) == Some(error@),
        },
{
    match parse_family(mimetype, field_name, "video") {
        Ok(parsed) => Ok(parsed),
        Err(error) => Err(UploadedVideoError::from(error)),
    }
}

/// Reads a media type that may describe any file.
pub fn parse_file_mimetype(mimetype: &str, field_name: &str) -> (r: Result<
    MediaType,
    UploadedFileError,
>)
    ensures
        match r {
            Ok(parsed) => read_from(parsed, mimetype@),
            Err(error) => media_type_problem(mimetype@, field_name@) == Some(error@),
        },
{
    match parse_any(mimetype, field_name) {
        Ok(parsed) => Ok(parsed),
        Err(error) => Err(UploadedFileError::from(error)),
    }
}

/// Reads a media type that a client sent along with a request.
pub fn request_mimetype(mimetype: &str) -> (r: Result<MediaType, ClientError>)
    ensures
        match r {
            Ok(parsed) => read_from(parsed, mimetype@),
            Err(error) => media_type(mimetype@) matches Err(problem) && error@
                == foreign_client_error(problem),
        },
{
    match parse_mime(mimetype) {
        Ok(parsed) => Ok(parsed),
        Err(error) => Err(ClientError::from_err(error)),
    }
}

/// A text that is a media type of a family.
pub open spec fn of_family(text: Seq<char>, family: Seq<char>) -> bool {
    media_type(text) matches Ok(parsed) && parsed.family == family
}

/// A text is read as the media type of an image, of audio or of a video exactly if it is one, and as
/// that of a file exactly if it is any. What is read is what the text says.
pub proof fn law_media_types_are_told_apart(
    mimetype: &str,
    field_name: &str,
    image: Result<MediaType, UploadedImageError>,
    audio: Result<MediaType, UploadedVoiceError>,
    video: Result<MediaType, UploadedVideoError>,
    file: Result<MediaType, UploadedFileError>,
)
    requires
        call_ensures(parse_image_mimetype, (mimetype, field_name), image),
        call_ensures(parse_audio_mimetype, (mimetype, field_name), audio),
        call_ensures(parse_video_mimetype, (mimetype, field_name), video),
        call_ensures(parse_file_mimetype, (mimetype, field_name), file),
    ensures
        image is Ok <==> (media_type(mimetype@) matches Ok(parsed) && parsed.family == "image"@),
        audio is Ok <==> (media_type(mimetype@) matches Ok(parsed) && parsed.family == "audio"@),
        video is Ok <==> (media_type(mimetype@) matches Ok(parsed) && parsed.family == "video"@),
        file is Ok <==> media_type(mimetype@) is Ok,
        image matches Ok(parsed) ==> media_type(mimetype@) == Ok::<MediaTypeText, ForeignText>(
            parsed@,
        ),
        audio matches Ok(parsed) ==> media_type(mimetype@) == Ok::<MediaTypeText, ForeignText>(
            parsed@,
        ),
        video matches Ok(parsed) ==> media_type(mimetype@) == Ok::<MediaTypeText, ForeignText>(
            parsed@,
        ),
        file matches Ok(parsed) ==> media_type(mimetype@) == Ok::<MediaTypeText, ForeignText>(
            parsed@,
        ),
{
}

} // verus!
