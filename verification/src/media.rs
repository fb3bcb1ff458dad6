//! Media: where it is kept, how it is described, and how a message presents it.

use vstd::prelude::*;
use vstd::string::*;

use crate::errors::{
    refusal, refusal_because, FailureText, ForeignError, ForeignText, UploadedImageError,
    UploadedVideoError, UploadedVoiceError,
};
use crate::ids::{server_name_problem, ServerName};
use crate::text::{join2, join4, opt_text, same_text, truth, truth_text};

verus! {

/// A span of time.
#[derive(Debug, Clone, Copy, PartialEq, Eq, Structural)]
pub struct Duration {
    pub secs: u64,
    /// The part below one second.
    pub nanos: u32,
}

impl Duration {
    /// Whether the span is empty.
    pub open spec fn empty(self) -> bool {
        self.secs == 0 && self.nanos == 0
    }

    /// Whether the span is empty.
    pub fn is_zero(&self) -> (r: bool)
        ensures
            r == self.empty(),
    {
        self.secs == 0 && self.nanos == 0
    }
}

/// What is wrong with a span of time that must not be empty.
pub open spec fn duration_problem(duration: Duration, field_name: Seq<char>) -> Option<FailureText> {
    if duration.empty() {
        Some(refusal(field_name + " must be greater than 0"@))
    } else {
        None
    }
}

/// Accepts the length of a voice message, which must not be zero.
pub fn validate_duration(duration: Duration, field_name: &str) -> (r: Result<
    (),
    UploadedVoiceError,
>)
    ensures
        match r {
            Ok(_) => duration_problem(duration, field_name@) is None,
            Err(error) => duration_problem(duration, field_name@) == Some(error@),
        },
{
    if duration.is_zero() {
        return Err(
            UploadedVoiceError::validation(join2(field_name, " must be greater than 0"), None),
        );
    }
    Ok(())
}

/// Accepts the length of a video, which must not be zero.
pub fn validate_video_duration(duration: Duration, field_name: &str) -> (r: Result<
    (),
    UploadedVideoError,
>)
    ensures
        match r {
            Ok(_) => duration_problem(duration, field_name@) is None,
            Err(error) => duration_problem(duration, field_name@) == Some(error@),
        },
{
    if duration.is_zero() {
        return Err(
            UploadedVideoError::validation(join2(field_name, " must be greater than 0"), None),
        );
    }
    Ok(())
}

/// A file that was encrypted before it was uploaded.
#[derive(Debug)]
pub struct EncryptedFile {
    /// Where the file is kept.
    pub url: String,
    /// The whole description of the file, keys included, as JSON.
    pub json: String,
}

/// Where the bytes of a piece of media are kept.
#[derive(Debug)]
pub enum MediaSource {
    /// Anyone who knows the URI can read the bytes.
    Plain { url: String },
    /// The bytes are encrypted.
    Encrypted { file: EncryptedFile },
}

impl MediaSource {
    /// Whether the bytes are encrypted.
    pub open spec fn encrypted(self) -> bool {
        self is Encrypted
    }

    /// The URI under which the bytes are kept.
    pub open spec fn location(self) -> Seq<char> {
        match self {
            MediaSource::Plain { url } => url@,
            MediaSource::Encrypted { file } => file.url@,
        }
    }

    /// Whether the bytes are encrypted.
    pub fn is_encrypted(&self) -> (r: bool)
        ensures
            r == self.encrypted(),
    {
        match self {
            MediaSource::Plain { .. } => false,
            MediaSource::Encrypted { .. } => true,
        }
    }

    /// The URI under which the bytes are kept.
    pub fn url(&self) -> (r: &str)
        ensures
            r@ == self.location(),
    {
        match self {
            MediaSource::Plain { url } => url.as_str(),
            MediaSource::Encrypted { file } => file.url.as_str(),
        }
    }
}

/// Why a text is not the URI of a piece of media: what `ruma::MxcUri::validate` reports of it, or
/// nothing where the text is accepted.
pub uninterp spec fn mxc_problem(url: Seq<char>) -> Option<ForeignText>;

/// The characters that the identifier of a piece of media is made of.
pub open spec fn media_id_char(c: char) -> bool {
    ||| 'a' <= c <= 'z'
    ||| 'A' <= c <= 'Z'
    ||| '0' <= c <= '9'
    ||| c == '-'
    ||| c == '_'
}

/// The place of the first slash at or after `from`, or the length of the text where there is none.
pub open spec fn slash_from(url: Seq<char>, from: int) -> int
    decreases url.len() - from,
{
    if from < 0 || from >= url.len() || url[from] == '/' {
        from
    } else {
        slash_from(url, from + 1)
    }
}

/// The URIs that `ruma::MxcUri::validate` can judge. It keeps the place of the slash that ends the
/// server name in one byte which must not be zero: where the place is a multiple of 256 and the rest
/// of the URI is in order, it does not return.
pub open spec fn mxc_checkable(url: Seq<char>) -> bool {
    let slash = slash_from(url, 6);
    !({
        &&& 6 <= slash < url.len()
        &&& slash % 256 == 0
        &&& url.take(6) == "mxc://"@
        &&& server_name_problem(url.subrange(6, slash)) is None
        &&& forall|i: int| slash < i < url.len() ==> media_id_char(#[trigger] url[i])
    })
}

/// `ruma::MxcUri::validate`: it accepts the URI or reports one problem, which depends on the text
/// alone.
#[verifier::external_body]
fn ruma_mxc_check(url: &str) -> (r: Option<ForeignError>)
    requires
        mxc_checkable(url@),
    ensures
        match r {
            None => mxc_problem(url@) is None,
            Some(error) => mxc_problem(url@) == Some(error@),
        },
{
    match <&ruma::MxcUri>::from(url).validate() {
        Ok(()) => None,
        Err(error) => Some(
            ForeignError { message: error.to_string(), debug: format!("{error:?}") },
        ),
    }
}

proof fn lemma_slash_from(url: Seq<char>, from: int, slash: int)
    requires
        0 <= from <= slash <= url.len(),
        forall|i: int| from <= i < slash ==> #[trigger] url[i] != '/',
        slash < url.len() ==> url[slash] == '/',
    ensures
        slash_from(url, from) == slash,
    decreases slash - from,
{
    if from < slash {
        lemma_slash_from(url, from + 1, slash);
    }
}

fn is_media_id_char(c: char) -> (r: bool)
    ensures
        r == media_id_char(c),
{
    ('a' <= c && c <= 'z') || ('A' <= c && c <= 'Z') || ('0' <= c && c <= '9') || c == '-' || c
        == '_'
}

/// Whether a URI can be judged at all.
pub fn is_mxc_checkable(url: &str) -> (r: bool)
    ensures
        r == mxc_checkable(url@),
{
    proof {
        reveal_strlit("mxc://");
    }
    let len: usize = url.unicode_len();
    if len < 6 {
        assert(slash_from(url@, 6) == 6);
        return true;
    }
    if !same_text(url.substring_char(0, 6), "mxc://") {
        assert(url@.take(6) == url@.subrange(0, 6));
        return true;
    }
    let mut slash: usize = 6;
    while slash < len && url.get_char(slash) != '/'
        invariant
            len == url@.len(),
            6 <= slash <= len,
            forall|i: int| 6 <= i < slash ==> #[trigger] url@[i] != '/',
        decreases len - slash,
    {
        slash = slash + 1;
    }
    proof {
        lemma_slash_from(url@, 6, slash as int);
    }
    if slash == len || slash % 256 != 0 {
        return true;
    }
    if ServerName::parse(url.substring_char(6, slash)).is_err() {
        return true;
    }
    let mut i: usize = slash + 1;
    while i < len
        invariant
            len == url@.len(),
            slash < i <= len,
            forall|k: int| slash < k < i ==> media_id_char(#[trigger] url@[k]),
            slash_from(url@, 6) == slash,
        decreases len - i,
    {
        if !is_media_id_char(url.get_char(i)) {
            assert(!media_id_char(url@[i as int]));
            return true;
        }
        i = i + 1;
    }
    assert(url@.take(6) == url@.subrange(0, 6));
    false
}

/// Judges where a piece of media is kept: says why the place cannot be used, if it cannot.
pub fn source_refusal(source: &MediaSource) -> (r: Option<ForeignError>)
    requires
        mxc_checkable(source.location()),
    ensures
        match r {
            None => mxc_problem(source.location()) is None,
            Some(error) => mxc_problem(source.location()) == Some(error@),
        },
{
    ruma_mxc_check(source.url())
}

/// What the judgement of a place says in a failure: the error's rendering.
pub open spec fn refusal_debug(problem: Option<ForeignText>) -> Option<Seq<char>> {
    match problem {
        Some(problem) => Some(problem.debug),
        None => None,
    }
}

/// The failure that reports a place that cannot be used.
pub open spec fn unusable_source(debug: Seq<char>, field_name: Seq<char>) -> FailureText {
    refusal_because("Invalid "@ + field_name, debug)
}

/// What is wrong with where a piece of media is kept, given whether the place itself was refused.
pub open spec fn source_problem(
    encrypted: bool,
    refused: Option<Seq<char>>,
    is_encrypted: bool,
    field_name: Seq<char>,
    uploaded_type: Seq<char>,
) -> Option<FailureText> {
    if encrypted != is_encrypted {
        Some(
            refusal(
                field_name + " encryption mismatch: source is_encrypted="@ + truth(encrypted) + ", "@
                    + uploaded_type + " is_encrypted="@ + truth(is_encrypted),
            ),
        )
    } else {
        match refused {
            Some(debug) => Some(unusable_source(debug, field_name)),
            None => None,
        }
    }
}

/// Accepts where a piece of media is kept: it must be encrypted exactly if the upload says so, and
/// the place must not have been refused.
pub fn validate_media_source_matches(
    source: &MediaSource,
    refused: Option<String>,
    is_encrypted: bool,
    field_name: &str,
    uploaded_type: &str,
) -> (r: Result<(), UploadedImageError>)
    ensures
        ({
            let problem = source_problem(
                source.encrypted(),
                opt_text(refused),
                is_encrypted,
                field_name@,
                uploaded_type@,
            );
            match r {
                Ok(_) => problem is None,
                Err(error) => problem == Some(error@),
            }
        }),
{
    let source_is_encrypted = source.is_encrypted();
    if source_is_encrypted != is_encrypted {
        let start = join4(
            field_name,
            " encryption mismatch: source is_encrypted=",
            truth_text(source_is_encrypted),
            ", ",
        );
        return Err(
            UploadedImageError::validation(
                join4(start.as_str(), uploaded_type, " is_encrypted=", truth_text(is_encrypted)),
                None,
            ),
        );
    }
    match refused {
        Some(debug) => Err(
            UploadedImageError::validation(join2("Invalid ", field_name), Some(debug)),
        ),
        None => Ok(()),
    }
}

/// Takes a place over into a message, unless it was refused.
pub fn ffi_media_source(
    source: MediaSource,
    refused: Option<String>,
    field_name: &str,
) -> (r: Result<MediaSource, UploadedImageError>)
    ensures
        match (r, refused) {
            (Ok(kept), None) => kept == source,
            (Err(error), Some(debug)) => error@ == unusable_source(debug@, field_name@),
            _ => false,
        },
{
    match refused {
        Some(debug) => Err(
            UploadedImageError::validation(join2("Invalid ", field_name), Some(debug)),
        ),
        None => Ok(source),
    }
}

/// How a thumbnail is described.
#[derive(Debug)]
pub struct ThumbnailInfo {
    pub height: Option<u64>,
    pub width: Option<u64>,
    pub mimetype: Option<String>,
    pub size: Option<u64>,
}

/// How an image is described.
#[derive(Debug)]
pub struct ImageInfo {
    pub height: Option<u64>,
    pub width: Option<u64>,
    pub mimetype: Option<String>,
    pub size: Option<u64>,
    pub thumbnail_info: Option<ThumbnailInfo>,
    pub thumbnail_source: Option<MediaSource>,
    pub blurhash: Option<String>,
    pub is_animated: Option<bool>,
}

/// How a video is described.
#[derive(Debug)]
pub struct VideoInfo {
    pub duration: Option<Duration>,
    pub height: Option<u64>,
    pub width: Option<u64>,
    pub mimetype: Option<String>,
    pub size: Option<u64>,
    pub thumbnail_info: Option<ThumbnailInfo>,
    pub thumbnail_source: Option<MediaSource>,
    pub blurhash: Option<String>,
}

/// How a piece of audio is described.
#[derive(Debug)]
pub struct AudioInfo {
    pub duration: Option<Duration>,
    pub size: Option<u64>,
    pub mimetype: Option<String>,
}

/// How a file is described.
#[derive(Debug)]
pub struct FileInfo {
    pub mimetype: Option<String>,
    pub size: Option<u64>,
    pub thumbnail_info: Option<ThumbnailInfo>,
    pub thumbnail_source: Option<MediaSource>,
}

/// The markup of a formatted text.
#[derive(Debug, Clone, Copy, PartialEq, Eq, Structural)]
pub enum MessageFormat {
    Html,
}

/// A text with markup.
#[derive(Debug)]
pub struct FormattedBody {
    pub format: MessageFormat,
    pub body: String,
}

/// The content of an image message.
#[derive(Debug)]
pub struct ImageMessageContent {
    pub filename: String,
    pub caption: Option<String>,
    pub formatted_caption: Option<FormattedBody>,
    pub source: MediaSource,
    pub info: Option<ImageInfo>,
}

/// The content of a video message.
#[derive(Debug)]
pub struct VideoMessageContent {
    pub filename: String,
    pub caption: Option<String>,
    pub formatted_caption: Option<FormattedBody>,
    pub source: MediaSource,
    pub info: Option<VideoInfo>,
}

/// The content of a file message.
#[derive(Debug)]
pub struct FileMessageContent {
    pub filename: String,
    pub caption: Option<String>,
    pub formatted_caption: Option<FormattedBody>,
    pub source: MediaSource,
    pub info: Option<FileInfo>,
}

/// The length and the loudness of a voice message.
#[derive(Debug)]
pub struct UnstableAudioDetailsContent {
    pub duration: Duration,
    pub waveform: Vec<u16>,
}

/// The mark of a voice message.
#[derive(Debug)]
pub struct UnstableVoiceContent {}

/// The content of an audio message.
#[derive(Debug)]
pub struct AudioMessageContent {
    pub filename: String,
    pub caption: Option<String>,
    pub formatted_caption: Option<FormattedBody>,
    pub source: MediaSource,
    pub info: Option<AudioInfo>,
    pub audio: Option<UnstableAudioDetailsContent>,
    pub voice: Option<UnstableVoiceContent>,
}

/// The content of a message that presents media.
#[derive(Debug)]
pub enum MessageType {
    Image(ImageMessageContent),
    Audio(AudioMessageContent),
    Video(VideoMessageContent),
    File(FileMessageContent),
}

/// The captions under a piece of media: the plain one, and the one with markup.
pub struct Captions {
    pub plain: Option<String>,
    pub formatted: Option<FormattedBody>,
}

/// The captions that a client asked for. Where it gave markup alone, the plain caption is empty.
pub fn captions(caption: Option<String>, formatted_caption: Option<String>) -> (r: Captions)
    ensures
        match formatted_caption {
            Some(body) => r.formatted == Some(FormattedBody { format: MessageFormat::Html, body }),
            None => r.formatted is None,
        },
        match (caption, formatted_caption) {
            (None, Some(_)) => r.plain matches Some(empty) && empty@ == Seq::<char>::empty(),
            _ => r.plain == caption,
        },
{
    match formatted_caption {
        Some(body) => Captions {
            plain: match caption {
                Some(caption) => Some(caption),
                None => Some(String::new()),
            },
            formatted: Some(FormattedBody { format: MessageFormat::Html, body }),
        },
        None => Captions { plain: caption, formatted: None },
    }
}

/// A span of time is refused exactly if it is empty, for voice messages and for videos alike, under the
/// name of its field.
pub proof fn law_empty_spans_are_refused(
    duration: Duration,
    field_name: &str,
    voice: Result<(), UploadedVoiceError>,
    video: Result<(), UploadedVideoError>,
)
    requires
        call_ensures(validate_duration, (duration, field_name), voice),
        call_ensures(validate_video_duration, (duration, field_name), video),
    ensures
        voice is Ok <==> duration.secs > 0 || duration.nanos > 0,
        video is Ok <==> duration.secs > 0 || duration.nanos > 0,
        voice matches Err(error) ==> error@ == (FailureText::Validation {
            msg: field_name@ + " must be greater than 0"@,
            details: None,
        }),
        video matches Err(error) ==> error@ == (FailureText::Validation {
            msg: field_name@ + " must be greater than 0"@,
            details: None,
        }),
{
}

/// A place is accepted exactly if it is encrypted as the upload says and was not refused.
pub proof fn law_place_must_be_encrypted_as_the_upload_says(
    source: MediaSource,
    refused: Option<String>,
    is_encrypted: bool,
    field_name: &str,
    uploaded_type: &str,
    r: Result<(), UploadedImageError>,
)
    requires
        call_ensures(
            validate_media_source_matches,
            (&source, refused, is_encrypted, field_name, uploaded_type),
            r,
        ),
    ensures
        r is Ok <==> (source is Encrypted <==> is_encrypted) && refused is None,
{
}

/// A place comes into a message as it is, unless it was refused.
pub proof fn law_place_comes_into_a_message_as_it_is(
    source: MediaSource,
    refused: Option<String>,
    field_name: &str,
    r: Result<MediaSource, UploadedImageError>,
)
    requires
        call_ensures(ffi_media_source, (source, refused, field_name), r),
    ensures
        match (refused, r) {
            (None, Ok(kept)) => kept == source,
            (Some(debug), Err(error)) => error@ == (FailureText::Validation {
                msg: "Invalid "@ + field_name@,
                details: Some(debug@),
            }),
            _ => false,
        },
{
}

/// A place is judged by the URI that the bytes are kept under, be they encrypted or not.
pub proof fn law_place_is_judged_by_its_uri(source: MediaSource, r: Option<ForeignError>)
    requires
        call_ensures(source_refusal, (&source,), r),
        mxc_checkable(source.location()),
    ensures
        match source {
            MediaSource::Plain { url } => r is Some <==> mxc_problem(url@) is Some,
            MediaSource::Encrypted { file } => r is Some <==> mxc_problem(file.url@) is Some,
        },
        r matches Some(error) ==> mxc_problem(source.location()) == Some(error@),
{
}

/// The place of the first slash after the scheme of a URI.
pub open spec fn ends_server(url: Seq<char>, slash: int) -> bool {
    &&& 6 <= slash < url.len()
    &&& url[slash] == '/'
    &&& forall|i: int| 6 <= i < slash ==> #[trigger] url[i] != '/'
}

/// A URI can be judged unless it is a URI of media whose server name ends at a place that is a multiple
/// of 256. In particular every URI of up to 256 characters can be.
pub proof fn law_uris_that_cannot_be_judged(url: &str, r: bool)
    requires
        call_ensures(is_mxc_checkable, (url,), r),
    ensures
        !r <==> exists|slash: int| #[trigger]
            ends_server(url@, slash) && slash % 256 == 0 && url@.take(6) == "mxc://"@
                && server_name_problem(url@.subrange(6, slash)) is None && forall|i: int|
                slash < i < url@.len() ==> {
                    let c = #[trigger] url@[i];
                    ||| 'a' <= c <= 'z'
                    ||| 'A' <= c <= 'Z'
                    ||| '0' <= c <= '9'
                    ||| c == '-'
                    ||| c == '_'
                },
        url@.len() <= 256 ==> r,
{
    let slash = slash_from(url@, 6);
    lemma_slash_is_first(url@, 6);
    if !r {
        assert(ends_server(url@, slash));
        assert forall|i: int| slash < i < url@.len() implies {
            let c = #[trigger] url@[i];
            ||| 'a' <= c <= 'z'
            ||| 'A' <= c <= 'Z'
            ||| '0' <= c <= '9'
            ||| c == '-'
            ||| c == '_'
        } by {
            assert(media_id_char(url@[i]));
        }
    }
    if exists|at: int| #[trigger] ends_server(url@, at) {
        let at = choose|at: int| #[trigger] ends_server(url@, at);
        assert forall|at: int| #[trigger] ends_server(url@, at) implies at == slash by {
            lemma_slash_from(url@, 6, at);
        }
    }
}

proof fn lemma_slash_is_first(url: Seq<char>, from: int)
    requires
        0 <= from,
    ensures
        slash_from(url, from) >= from,
        slash_from(url, from) < url.len() ==> url[slash_from(url, from)] == '/',
        forall|i: int| from <= i < slash_from(url, from) ==> #[trigger] url[i] != '/',
    decreases url.len() - from,
{
    if from < url.len() && url[from] != '/' {
        lemma_slash_is_first(url, from + 1);
    }
}

/// The captions are those that a client asked for. Markup alone comes with an empty plain caption.
pub proof fn law_captions_are_those_that_were_asked_for(
    caption: Option<String>,
    formatted_caption: Option<String>,
    r: Captions,
)
    requires
        call_ensures(captions, (caption, formatted_caption), r),
    ensures
        r.formatted is Some <==> formatted_caption is Some,
        r.formatted matches Some(formatted) ==> formatted_caption == Some(formatted.body)
            && formatted.format is Html,
        caption is Some ==> r.plain == caption,
        caption is None ==> match formatted_caption {
            Some(_) => r.plain matches Some(empty) && empty@.len() == 0,
            None => r.plain is None,
        },
{
}

} // verus!
