//! The errors of room operations.

use vstd::prelude::*;

use crate::text::opt_text;

verus! {

/// What an error of another crate says of itself.
#[derive(Debug)]
pub struct ForeignError {
    /// The message meant for people.
    pub message: String,
    /// The developer's rendering.
    pub debug: String,
}

/// The texts of a [`ForeignError`].
#[verifier::ext_equal]
pub struct ForeignText {
    pub message: Seq<char>,
    pub debug: Seq<char>,
}

impl View for ForeignError {
    type V = ForeignText;

    open spec fn view(&self) -> ForeignText {
        ForeignText { message: self.message@, debug: self.debug@ }
    }
}

/// Problems with the media attached to a room.
#[derive(Debug, Clone, Copy, PartialEq, Eq, Structural)]
pub enum RoomError {
    InvalidMediaInfo,
}

/// The error of an operation on a room.
#[derive(Debug)]
pub enum ClientError {
    /// Anything that is told by a message alone.
    Generic { msg: String, details: Option<String> },
    /// A problem with the room's own data.
    Room(RoomError),
}

/// The texts of a [`ClientError`].
#[verifier::ext_equal]
pub enum ClientText {
    Generic { msg: Seq<char>, details: Option<Seq<char>> },
    Room(RoomError),
}

impl View for ClientError {
    type V = ClientText;

    open spec fn view(&self) -> ClientText {
        match *self {
            ClientError::Generic { msg, details } => ClientText::Generic {
                msg: msg@,
                details: opt_text(details),
            },
            ClientError::Room(error) => ClientText::Room(error),
        }
    }
}

/// The client error that reports an error of another crate.
pub open spec fn foreign_client_error(error: ForeignText) -> ClientText {
    ClientText::Generic { msg: error.message, details: Some(error.debug) }
}

/// The client error that holds a message and nothing else.
pub open spec fn plain_client_error(msg: Seq<char>) -> ClientText {
    ClientText::Generic { msg, details: None }
}

impl ClientError {
    /// Reports an error of another crate.
    pub fn from_err(error: ForeignError) -> (r: ClientError)
        ensures
            r@ == foreign_client_error(error@),
    {
        ClientError::Generic { msg: error.message, details: Some(error.debug) }
    }

    /// Reports a message.
    pub fn plain(msg: &str) -> (r: ClientError)
        ensures
            r@ == plain_client_error(msg@),
    {
        ClientError::Generic { msg: msg.to_owned(), details: None }
    }
}

/// A conversion that has no counterpart on the other side.
#[derive(Debug, Clone, Copy, PartialEq, Eq, Structural)]
pub struct NotYetImplemented;

/// A media description that cannot be used.
#[derive(Debug, Clone, Copy, PartialEq, Eq, Structural)]
pub enum MediaInfoError {
    InvalidField,
}

/// Why uploading media, or sending what was uploaded, failed.
#[derive(Debug)]
pub enum UploadFailure {
    /// The input is at fault: trying again is of no use.
    Validation { msg: String, details: Option<String> },
    /// Something on the way failed: trying again may help.
    Retryable { msg: String, details: Option<String> },
}

/// The texts of an [`UploadFailure`].
#[verifier::ext_equal]
pub enum FailureText {
    Validation { msg: Seq<char>, details: Option<Seq<char>> },
    Retryable { msg: Seq<char>, details: Option<Seq<char>> },
}

impl View for UploadFailure {
    type V = FailureText;

    open spec fn view(&self) -> FailureText {
        match *self {
            UploadFailure::Validation { msg, details } => FailureText::Validation {
                msg: msg@,
                details: opt_text(details),
            },
            UploadFailure::Retryable { msg, details } => FailureText::Retryable {
                msg: msg@,
                details: opt_text(details),
            },
        }
    }
}

/// The validation failure with a message and nothing else.
pub open spec fn refusal(msg: Seq<char>) -> FailureText {
    FailureText::Validation { msg, details: None }
}

/// The validation failure that also shows the error of another crate.
pub open spec fn refusal_because(msg: Seq<char>, debug: Seq<char>) -> FailureText {
    FailureText::Validation { msg, details: Some(debug) }
}

/// The validation failure that reports an error of another crate.
pub open spec fn foreign_refusal(error: ForeignText) -> FailureText {
    refusal_because(error.message, error.debug)
}

impl UploadFailure {
    /// Refuses an input.
    pub fn validation(msg: String, details: Option<String>) -> (r: UploadFailure)
        ensures
            r@ == (FailureText::Validation { msg: msg@, details: opt_text(details) }),
    {
        UploadFailure::Validation { msg, details }
    }

    /// Reports a failure that may pass.
    pub fn retryable(msg: String, details: Option<String>) -> (r: UploadFailure)
        ensures
            r@ == (FailureText::Retryable { msg: msg@, details: opt_text(details) }),
    {
        UploadFailure::Retryable { msg, details }
    }

    /// Refuses an input because another crate does.
    pub fn validation_err(error: ForeignError) -> (r: UploadFailure)
        ensures
            r@ == foreign_refusal(error@),
    {
        UploadFailure::Validation { msg: error.message, details: Some(error.debug) }
    }
}

/// Why uploading an image, or sending it once uploaded, failed.
#[derive(Debug)]
pub struct UploadedImageError {
    pub failure: UploadFailure,
}

impl View for UploadedImageError {
    type V = FailureText;

    open spec fn view(&self) -> FailureText {
        self.failure@
    }
}

impl UploadedImageError {
    /// Refuses an input.
    pub fn validation(msg: String, details: Option<String>) -> (r: UploadedImageError)
        ensures
            r@ == (FailureText::Validation { msg: msg@, details: opt_text(details) }),
    {
        UploadedImageError { failure: UploadFailure::validation(msg, details) }
    }

    /// Reports a failure that may pass.
    pub fn retryable(msg: String, details: Option<String>) -> (r: UploadedImageError)
        ensures
            r@ == (FailureText::Retryable { msg: msg@, details: opt_text(details) }),
    {
        UploadedImageError { failure: UploadFailure::retryable(msg, details) }
    }

    /// Refuses an input because another crate does.
    pub fn validation_err(error: ForeignError) -> (r: UploadedImageError)
        ensures
            r@ == foreign_refusal(error@),
    {
        UploadedImageError { failure: UploadFailure::validation_err(error) }
    }
}

/// Why uploading a voice message, or sending it once uploaded, failed.
#[derive(Debug)]
pub struct UploadedVoiceError {
    pub failure: UploadFailure,
}

impl View for UploadedVoiceError {
    type V = FailureText;

    open spec fn view(&self) -> FailureText {
        self.failure@
    }
}

impl UploadedVoiceError {
    /// Refuses an input.
    pub fn validation(msg: String, details: Option<String>) -> (r: UploadedVoiceError)
        ensures
            r@ == (FailureText::Validation { msg: msg@, details: opt_text(details) }),
    {
        UploadedVoiceError { failure: UploadFailure::validation(msg, details) }
    }

    /// Reports a failure that may pass.
    pub fn retryable(msg: String, details: Option<String>) -> (r: UploadedVoiceError)
        ensures
            r@ == (FailureText::Retryable { msg: msg@, details: opt_text(details) }),
    {
        UploadedVoiceError { failure: UploadFailure::retryable(msg, details) }
    }

    /// Refuses an input because another crate does.
    pub fn validation_err(error: ForeignError) -> (r: UploadedVoiceError)
        ensures
            r@ == foreign_refusal(error@),
    {
        UploadedVoiceError { failure: UploadFailure::validation_err(error) }
    }
}

/// Why uploading a video, or sending it once uploaded, failed.
#[derive(Debug)]
pub struct UploadedVideoError {
    pub failure: UploadFailure,
}

impl View for UploadedVideoError {
    type V = FailureText;

    open spec fn view(&self) -> FailureText {
        self.failure@
    }
}

impl UploadedVideoError {
    /// Refuses an input.
    pub fn validation(msg: String, details: Option<String>) -> (r: UploadedVideoError)
        ensures
            r@ == (FailureText::Validation { msg: msg@, details: opt_text(details) }),
    {
        UploadedVideoError { failure: UploadFailure::validation(msg, details) }
    }

    /// Reports a failure that may pass.
    pub fn retryable(msg: String, details: Option<String>) -> (r: UploadedVideoError)
        ensures
            r@ == (FailureText::Retryable { msg: msg@, details: opt_text(details) }),
    {
        UploadedVideoError { failure: UploadFailure::retryable(msg, details) }
    }

    /// Refuses an input because another crate does.
    pub fn validation_err(error: ForeignError) -> (r: UploadedVideoError)
        ensures
            r@ == foreign_refusal(error@),
    {
        UploadedVideoError { failure: UploadFailure::validation_err(error) }
    }
}

/// Why uploading a file, or sending it once uploaded, failed.
#[derive(Debug)]
pub struct UploadedFileError {
    pub failure: UploadFailure,
}

impl View for UploadedFileError {
    type V = FailureText;

    open spec fn view(&self) -> FailureText {
        self.failure@
    }
}

impl UploadedFileError {
    /// Refuses an input.
    pub fn validation(msg: String, details: Option<String>) -> (r: UploadedFileError)
        ensures
            r@ == (FailureText::Validation { msg: msg@, details: opt_text(details) }),
    {
        UploadedFileError { failure: UploadFailure::validation(msg, details) }
    }

    /// Reports a failure that may pass.
    pub fn retryable(msg: String, details: Option<String>) -> (r: UploadedFileError)
        ensures
            r@ == (FailureText::Retryable { msg: msg@, details: opt_text(details) }),
    {
        UploadedFileError { failure: UploadFailure::retryable(msg, details) }
    }

    /// Refuses an input because another crate does.
    pub fn validation_err(error: ForeignError) -> (r: UploadedFileError)
        ensures
            r@ == foreign_refusal(error@),
    {
        UploadedFileError { failure: UploadFailure::validation_err(error) }
    }
}

impl From<UploadedImageError> for UploadedVoiceError {
    fn from(error: UploadedImageError) -> (r: UploadedVoiceError) {
        UploadedVoiceError { failure: error.failure }
    }
}

impl vstd::std_specs::convert::FromSpecImpl<UploadedImageError> for UploadedVoiceError {
    open spec fn obeys_from_spec() -> bool {
        true
    }

    open spec fn from_spec(error: UploadedImageError) -> UploadedVoiceError {
        UploadedVoiceError { failure: error.failure }
    }
}

impl From<UploadedImageError> for UploadedVideoError {
    fn from(error: UploadedImageError) -> (r: UploadedVideoError) {
        UploadedVideoError { failure: error.failure }
    }
}

impl vstd::std_specs::convert::FromSpecImpl<UploadedImageError> for UploadedVideoError {
    open spec fn obeys_from_spec() -> bool {
        true
    }

    open spec fn from_spec(error: UploadedImageError) -> UploadedVideoError {
        UploadedVideoError { failure: error.failure }
    }
}

impl From<UploadedImageError> for UploadedFileError {
    fn from(error: UploadedImageError) -> (r: UploadedFileError) {
        UploadedFileError { failure: error.failure }
    }
}

impl vstd::std_specs::convert::FromSpecImpl<UploadedImageError> for UploadedFileError {
    open spec fn obeys_from_spec() -> bool {
        true
    }

    open spec fn from_spec(error: UploadedImageError) -> UploadedFileError {
        UploadedFileError { failure: error.failure }
    }
}

/// An error of another crate reaches a client in its own words: its message as the message, and its
/// rendering as the details.
pub proof fn law_foreign_errors_keep_their_words(
    error: ForeignError,
    client: ClientError,
    failure: UploadFailure,
)
    requires
        call_ensures(ClientError::from_err, (error,), client),
        call_ensures(UploadFailure::validation_err, (error,), failure),
    ensures
        client matches ClientError::Generic { msg, details: Some(details) } && msg@ == error.message@
            && details@ == error.debug@,
        failure matches UploadFailure::Validation { msg, details: Some(details) } && msg@
            == error.message@ && details@ == error.debug@,
{
}

/// A refused input and a failure that may pass are told apart, and both keep their words.
pub proof fn law_failures_are_told_apart(
    msg: String,
    details: Option<String>,
    refused: UploadFailure,
    failed: UploadFailure,
)
    requires
        call_ensures(UploadFailure::validation, (msg, details), refused),
        call_ensures(UploadFailure::retryable, (msg, details), failed),
    ensures
        refused is Validation,
        failed is Retryable,
        refused@ == (FailureText::Validation {
            msg: msg@,
            details: match details {
                Some(details) => Some(details@),
                None => None,
            },
        }),
        failed@ == (FailureText::Retryable {
            msg: msg@,
            details: match details {
                Some(details) => Some(details@),
                None => None,
            },
        }),
{
}

/// An error about media in general stays what it is when it is reported of one kind of media.
pub proof fn law_errors_stay_what_they_are(
    error: UploadedImageError,
    voice: UploadedVoiceError,
    video: UploadedVideoError,
    file: UploadedFileError,
)
    requires
        call_ensures(<UploadedVoiceError as From<UploadedImageError>>::from, (error,), voice),
        call_ensures(<UploadedVideoError as From<UploadedImageError>>::from, (error,), video),
        call_ensures(<UploadedFileError as From<UploadedImageError>>::from, (error,), file),
    ensures
        voice.failure == error.failure,
        video.failure == error.failure,
        file.failure == error.failure,
{
}

/// What went wrong with an image is told apart and keeps its words: a refused input, a failure that may
/// pass, and what another crate refuses.
pub proof fn law_image_errors_keep_their_words(
    msg: String,
    details: Option<String>,
    error: ForeignError,
    refused: UploadedImageError,
    failed: UploadedImageError,
    foreign: UploadedImageError,
)
    requires
        call_ensures(UploadedImageError::validation, (msg, details), refused),
        call_ensures(UploadedImageError::retryable, (msg, details), failed),
        call_ensures(UploadedImageError::validation_err, (error,), foreign),
    ensures
        refused.failure@ == (FailureText::Validation {
            msg: msg@,
            details: match details {
                Some(details) => Some(details@),
                None => None,
            },
        }),
        failed.failure@ == (FailureText::Retryable {
            msg: msg@,
            details: match details {
                Some(details) => Some(details@),
                None => None,
            },
        }),
        foreign.failure@ == (FailureText::Validation {
            msg: error.message@,
            details: Some(error.debug@),
        }),
{
}

/// What went wrong with a voice message is told apart and keeps its words: a refused input, a failure that may
/// pass, and what another crate refuses.
pub proof fn law_voice_errors_keep_their_words(
    msg: String,
    details: Option<String>,
    error: ForeignError,
    refused: UploadedVoiceError,
    failed: UploadedVoiceError,
    foreign: UploadedVoiceError,
)
    requires
        call_ensures(UploadedVoiceError::validation, (msg, details), refused),
        call_ensures(UploadedVoiceError::retryable, (msg, details), failed),
        call_ensures(UploadedVoiceError::validation_err, (error,), foreign),
    ensures
        refused.failure@ == (FailureText::Validation {
            msg: msg@,
            details: match details {
                Some(details) => Some(details@),
                None => None,
            },
        }),
        failed.failure@ == (FailureText::Retryable {
            msg: msg@,
            details: match details {
                Some(details) => Some(details@),
                None => None,
            },
        }),
        foreign.failure@ == (FailureText::Validation {
            msg: error.message@,
            details: Some(error.debug@),
        }),
{
}

/// What went wrong with a video is told apart and keeps its words: a refused input, a failure that may
/// pass, and what another crate refuses.
pub proof fn law_video_errors_keep_their_words(
    msg: String,
    details: Option<String>,
    error: ForeignError,
    refused: UploadedVideoError,
    failed: UploadedVideoError,
    foreign: UploadedVideoError,
)
    requires
        call_ensures(UploadedVideoError::validation, (msg, details), refused),
        call_ensures(UploadedVideoError::retryable, (msg, details), failed),
        call_ensures(UploadedVideoError::validation_err, (error,), foreign),
    ensures
        refused.failure@ == (FailureText::Validation {
            msg: msg@,
            details: match details {
                Some(details) => Some(details@),
                None => None,
            },
        }),
        failed.failure@ == (FailureText::Retryable {
            msg: msg@,
            details: match details {
                Some(details) => Some(details@),
                None => None,
            },
        }),
        foreign.failure@ == (FailureText::Validation {
            msg: error.message@,
            details: Some(error.debug@),
        }),
{
}

/// What went wrong with a file is told apart and keeps its words: a refused input, a failure that may
/// pass, and what another crate refuses.
pub proof fn law_file_errors_keep_their_words(
    msg: String,
    details: Option<String>,
    error: ForeignError,
    refused: UploadedFileError,
    failed: UploadedFileError,
    foreign: UploadedFileError,
)
    requires
        call_ensures(UploadedFileError::validation, (msg, details), refused),
        call_ensures(UploadedFileError::retryable, (msg, details), failed),
        call_ensures(UploadedFileError::validation_err, (error,), foreign),
    ensures
        refused.failure@ == (FailureText::Validation {
            msg: msg@,
            details: match details {
                Some(details) => Some(details@),
                None => None,
            },
        }),
        failed.failure@ == (FailureText::Retryable {
            msg: msg@,
            details: match details {
                Some(details) => Some(details@),
                None => None,
            },
        }),
        foreign.failure@ == (FailureText::Validation {
            msg: error.message@,
            details: Some(error.debug@),
        }),
{
}

} // verus!
