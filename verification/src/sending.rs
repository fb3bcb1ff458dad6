//! Sending media that was uploaded before.
//!
//! As with uploading, the decisions are made here, and a step names the work that is done elsewhere:
//! asking the room whether it is encrypted, building a reply, sending the message.

use vstd::prelude::*;

use crate::errors::{
    foreign_refusal, refusal, FailureText, UploadFailure, UploadedFileError, UploadedImageError,
    UploadedVideoError, UploadedVoiceError,
};
use crate::ids::{event_id_problem, EventId};
use crate::media::{mxc_checkable, mxc_problem, MediaSource, MessageType};
use crate::room::Room;
use crate::text::{join4, truth, truth_text};
use crate::upload::{MediaDetails, MediaPlan, UploadedMedia};
use crate::uploaded::file::UploadedFile;
use crate::uploaded::image::UploadedImage;
use crate::uploaded::video::UploadedVideo;
use crate::uploaded::voice::UploadedVoice;
use crate::uploaded::{
    content_problem, SourceVerdicts, UploadedThumbnailInfo, VerdictTexts,
};
use crate::waveform::scale_voice_waveform;

verus! {

/// Why a reply could not be built.
#[derive(Debug, Clone, Copy, PartialEq, Eq, Structural)]
pub enum ReplyError {
    /// The event could not be fetched.
    Fetch,
    /// The event could not be read.
    Deserialization,
    /// The event is a state event.
    StateEvent,
}

/// Whether a reply goes into the thread of the event that it answers.
#[derive(Debug, Clone, Copy, PartialEq, Eq, Structural)]
pub enum EnforceThread {
    /// It starts or continues a thread.
    Threaded,
    /// It goes into the thread that the event is in, if any.
    MaybeThreaded,
    /// It stays out of threads.
    Unthreaded,
}

/// Whether the sender of the event that is answered is mentioned.
#[derive(Debug, Clone, Copy, PartialEq, Eq, Structural)]
pub enum AddMentions {
    Yes,
    No,
}

/// What to reply to, and how.
#[derive(Debug)]
pub struct Reply {
    pub event_id: EventId,
    pub enforce_thread: EnforceThread,
    pub add_mentions: AddMentions,
}

impl Reply {
    /// A reply to an event that stays in the event's thread and mentions its sender.
    pub open spec fn answers(self, event_id: Seq<char>) -> bool {
        &&& self.event_id@ == event_id
        &&& self.enforce_thread == EnforceThread::MaybeThreaded
        &&& self.add_mentions == AddMentions::Yes
    }

    /// Replies to an event.
    pub fn to(event_id: EventId) -> (r: Reply)
        ensures
            r.answers(event_id@),
    {
        Reply {
            event_id,
            enforce_thread: EnforceThread::MaybeThreaded,
            add_mentions: AddMentions::Yes,
        }
    }
}

/// The failure that reports a reply that could not be built. Only an event that could not be fetched
/// may be there the next time.
pub open spec fn reply_problem(error: ReplyError, debug: Seq<char>) -> FailureText {
    match error {
        ReplyError::Fetch => FailureText::Retryable {
            msg: "Failed to fetch replied-to event"@,
            details: Some(debug),
        },
        ReplyError::Deserialization => FailureText::Validation {
            msg: "Failed to deserialize replied-to event"@,
            details: Some(debug),
        },
        ReplyError::StateEvent => FailureText::Validation {
            msg: "Cannot reply to a state event"@,
            details: Some(debug),
        },
    }
}

fn reply_failure(error: ReplyError, debug: String) -> (r: UploadFailure)
    ensures
        r@ == reply_problem(error, debug@),
{
    match error {
        ReplyError::Fetch => UploadFailure::retryable(
            "Failed to fetch replied-to event".to_owned(),
            Some(debug),
        ),
        ReplyError::Deserialization => UploadFailure::validation(
            "Failed to deserialize replied-to event".to_owned(),
            Some(debug),
        ),
        ReplyError::StateEvent => UploadFailure::validation(
            "Cannot reply to a state event".to_owned(),
            Some(debug),
        ),
    }
}

/// Reports that an image could not be sent as a reply.
pub fn map_reply_error(error: ReplyError, debug: String) -> (r: UploadedImageError)
    ensures
        r@ == reply_problem(error, debug@),
{
    UploadedImageError { failure: reply_failure(error, debug) }
}

/// Reports that a voice message could not be sent as a reply.
pub fn map_reply_error_for_voice(error: ReplyError, debug: String) -> (r: UploadedVoiceError)
    ensures
        r@ == reply_problem(error, debug@),
{
    UploadedVoiceError { failure: reply_failure(error, debug) }
}

/// Reports that a video could not be sent as a reply.
pub fn map_reply_error_for_video(error: ReplyError, debug: String) -> (r: UploadedVideoError)
    ensures
        r@ == reply_problem(error, debug@),
{
    UploadedVideoError { failure: reply_failure(error, debug) }
}

/// Reports that a file could not be sent as a reply.
pub fn map_reply_error_for_file(error: ReplyError, debug: String) -> (r: UploadedFileError)
    ensures
        r@ == reply_problem(error, debug@),
{
    UploadedFileError { failure: reply_failure(error, debug) }
}

/// Trying again is offered for a reply exactly where the event could not be fetched.
pub proof fn law_only_a_failed_fetch_may_pass(error: ReplyError, debug: Seq<char>)
    ensures
        reply_problem(error, debug) is Retryable <==> error == ReplyError::Fetch,
{
}

/// The kinds of media.
#[derive(Debug, Clone, Copy, PartialEq, Eq, Structural)]
pub enum MediaKind {
    Image,
    Voice,
    Video,
    File,
}

impl MediaKind {
    /// What failures call the kind.
    pub open spec fn label(self) -> Seq<char> {
        match self {
            MediaKind::Image => "image"@,
            MediaKind::Voice => "voice"@,
            MediaKind::Video => "video"@,
            MediaKind::File => "file"@,
        }
    }

    fn name(self) -> (r: &'static str)
        ensures
            r@ == self.label(),
    {
        match self {
            MediaKind::Image => "image",
            MediaKind::Voice => "voice",
            MediaKind::Video => "video",
            MediaKind::File => "file",
        }
    }

    fn reply_failure(self, error: ReplyError, debug: String) -> (r: UploadFailure)
        ensures
            r@ == reply_problem(error, debug@),
    {
        match self {
            MediaKind::Image => map_reply_error(error, debug).failure,
            MediaKind::Voice => map_reply_error_for_voice(error, debug).failure,
            MediaKind::Video => map_reply_error_for_video(error, debug).failure,
            MediaKind::File => map_reply_error_for_file(error, debug).failure,
        }
    }
}

impl UploadedMedia {
    /// The kind of media.
    pub open spec fn kind(self) -> MediaKind {
        match self {
            UploadedMedia::Image(_) => MediaKind::Image,
            UploadedMedia::Voice(_) => MediaKind::Voice,
            UploadedMedia::Video(_) => MediaKind::Video,
            UploadedMedia::File(_) => MediaKind::File,
        }
    }

    /// Whether the media was uploaded for an encrypted room.
    pub open spec fn encrypted(self) -> bool {
        match self {
            UploadedMedia::Image(record) => record.is_encrypted,
            UploadedMedia::Voice(record) => record.is_encrypted,
            UploadedMedia::Video(record) => record.is_encrypted,
            UploadedMedia::File(record) => record.is_encrypted,
        }
    }

    /// Where the media is.
    pub open spec fn media_source(self) -> MediaSource {
        match self {
            UploadedMedia::Image(record) => record.media_source,
            UploadedMedia::Voice(record) => record.media_source,
            UploadedMedia::Video(record) => record.media_source,
            UploadedMedia::File(record) => record.media_source,
        }
    }

    /// Where the thumbnail is, if the media has one.
    pub open spec fn thumbnail_source(self) -> Option<MediaSource> {
        match self {
            UploadedMedia::Image(record) => record.thumbnail_source,
            UploadedMedia::Voice(record) => None,
            UploadedMedia::Video(record) => record.thumbnail_source,
            UploadedMedia::File(record) => record.thumbnail_source,
        }
    }

    /// Whether every place that is judged when the record is checked can be judged.
    pub open spec fn checkable(self) -> bool {
        match self {
            UploadedMedia::Image(record) => record.checkable(),
            UploadedMedia::Voice(record) => record.checkable(),
            UploadedMedia::Video(record) => record.checkable(),
            UploadedMedia::File(record) => record.checkable(),
        }
    }

    /// What judging the places of the record gives.
    pub open spec fn verdict_texts(self) -> VerdictTexts {
        match self {
            UploadedMedia::Image(record) => record.verdict_texts(),
            UploadedMedia::Voice(record) => record.verdict_texts(),
            UploadedMedia::Video(record) => record.verdict_texts(),
            UploadedMedia::File(record) => record.verdict_texts(),
        }
    }

    /// The message shows what the record says, under the captions that were asked for. A voice
    /// message has no captions.
    pub open spec fn presents(
        self,
        message: MessageType,
        caption: Option<String>,
        formatted_caption: Option<String>,
    ) -> bool {
        match self {
            UploadedMedia::Image(record) => record.presents(message, caption, formatted_caption),
            UploadedMedia::Voice(record) => record.presents(message),
            UploadedMedia::Video(record) => record.presents(message, caption, formatted_caption),
            UploadedMedia::File(record) => record.presents(message, caption, formatted_caption),
        }
    }

    fn is_checkable(&self) -> (r: bool)
        ensures
            r == self.checkable(),
    {
        match self {
            UploadedMedia::Image(record) => record.is_checkable(),
            UploadedMedia::Voice(record) => record.is_checkable(),
            UploadedMedia::Video(record) => record.is_checkable(),
            UploadedMedia::File(record) => record.is_checkable(),
        }
    }

    fn media_kind(&self) -> (r: MediaKind)
        ensures
            r == self.kind(),
    {
        match self {
            UploadedMedia::Image(_) => MediaKind::Image,
            UploadedMedia::Voice(_) => MediaKind::Voice,
            UploadedMedia::Video(_) => MediaKind::Video,
            UploadedMedia::File(_) => MediaKind::File,
        }
    }

    fn is_encrypted(&self) -> (r: bool)
        ensures
            r == self.encrypted(),
    {
        match self {
            UploadedMedia::Image(record) => record.is_encrypted,
            UploadedMedia::Voice(record) => record.is_encrypted,
            UploadedMedia::Video(record) => record.is_encrypted,
            UploadedMedia::File(record) => record.is_encrypted,
        }
    }

    fn verdicts(&self) -> (r: SourceVerdicts)
        ensures
            r@ == self.verdict_texts(),
    {
        match self {
            UploadedMedia::Image(record) => record.verdicts(),
            UploadedMedia::Voice(record) => record.verdicts(),
            UploadedMedia::Video(record) => record.verdicts(),
            UploadedMedia::File(record) => record.verdicts(),
        }
    }

    /// Checks the record, given which of its places were refused.
    pub fn validate_with(&self, verdicts: &SourceVerdicts) -> (r: Result<(), UploadFailure>)
        ensures
            match r {
                Ok(_) => self.problem(verdicts@) is None,
                Err(failure) => self.problem(verdicts@) == Some(failure@),
            },
    {
        match self {
            UploadedMedia::Image(record) => match record.validate_with(verdicts) {
                Ok(_) => Ok(()),
                Err(error) => Err(error.failure),
            },
            UploadedMedia::Voice(record) => match record.validate_with(verdicts) {
                Ok(_) => Ok(()),
                Err(error) => Err(error.failure),
            },
            UploadedMedia::Video(record) => match record.validate_with(verdicts) {
                Ok(_) => Ok(()),
                Err(error) => Err(error.failure),
            },
            UploadedMedia::File(record) => match record.validate_with(verdicts) {
                Ok(_) => Ok(()),
                Err(error) => Err(error.failure),
            },
        }
    }

    /// Turns the record into the message that presents the media.
    pub fn into_message_content(
        self,
        verdicts: SourceVerdicts,
        caption: Option<String>,
        formatted_caption: Option<String>,
    ) -> (r: Result<MessageType, UploadFailure>)
        ensures
            match r {
                Ok(message) => {
                    &&& content_problem(self.thumbnail_source(), verdicts@) is None
                    &&& self.presents(message, caption, formatted_caption)
                },
                Err(failure) => content_problem(self.thumbnail_source(), verdicts@) == Some(
                    failure@,
                ),
            },
    {
        match self {
            UploadedMedia::Image(record) => match record.into_message_content(
                verdicts,
                caption,
                formatted_caption,
            ) {
                Ok(message) => Ok(message),
                Err(error) => Err(error.failure),
            },
            UploadedMedia::Voice(record) => match record.into_message_content(verdicts) {
                Ok(message) => Ok(message),
                Err(error) => Err(error.failure),
            },
            UploadedMedia::Video(record) => match record.into_message_content(
                verdicts,
                caption,
                formatted_caption,
            ) {
                Ok(message) => Ok(message),
                Err(error) => Err(error.failure),
            },
            UploadedMedia::File(record) => match record.into_message_content(
                verdicts,
                caption,
                formatted_caption,
            ) {
                Ok(message) => Ok(message),
                Err(error) => Err(error.failure),
            },
        }
    }
}

/// A record that is accepted can be turned into a message.
pub proof fn law_accepted_record_becomes_a_message(media: UploadedMedia, verdicts: VerdictTexts)
    requires
        media.problem(verdicts) is None,
    ensures
        content_problem(media.thumbnail_source(), verdicts) is None,
{
}

/// The failure of media that was uploaded for another kind of room.
pub open spec fn encryption_mismatch(kind: MediaKind, uploaded: bool, current: bool) -> FailureText {
    refusal(
        "Uploaded "@ + kind.label() + " encryption mismatch: uploaded is_encrypted="@ + truth(
            uploaded,
        ) + ", current room is_encrypted="@ + truth(current),
    )
}

fn mismatch_failure(kind: MediaKind, uploaded: bool, current: bool) -> (r: UploadFailure)
    ensures
        r@ == encryption_mismatch(kind, uploaded, current),
{
    let start = join4(
        "Uploaded ",
        kind.name(),
        " encryption mismatch: uploaded is_encrypted=",
        truth_text(uploaded),
    );
    let msg = join4(start.as_str(), ", current room is_encrypted=", truth_text(current), "");
    proof {
        reveal_strlit("");
        assert(msg@ =~= start@ + ", current room is_encrypted="@ + truth(current));
    }
    UploadFailure::validation(msg, None)
}

/// What goes out: a message of its own, or the reply that was built around it.
#[derive(Debug)]
pub enum Outgoing<M, T> {
    Message(M),
    Reply(T),
}

/// What to do next.
#[derive(Debug)]
pub enum SendStep<T> {
    /// Ask the room whether it is encrypted.
    AskEncryption { next: EncryptionCheck },
    /// Build a reply around the message.
    MakeReply { message: MessageType, reply: Reply, next: ReplyRequest },
    /// Send the message under the transaction ID, and report the ID of the event.
    Send { content: Outgoing<MessageType, T>, transaction_id: String },
    /// Nothing: the message cannot be sent.
    Failed { failure: UploadFailure },
}

/// The sending goes on once it is known whether the room is encrypted.
#[derive(Debug)]
pub struct EncryptionCheck {
    pub media: UploadedMedia,
    pub verdicts: SourceVerdicts,
    pub transaction_id: String,
    pub caption: Option<String>,
    pub formatted_caption: Option<String>,
    pub reply_event_id: Option<String>,
}

/// The sending goes on once the reply was built.
#[derive(Debug)]
pub struct ReplyRequest {
    pub kind: MediaKind,
    pub transaction_id: String,
}

impl<T> SendStep<T> {
    /// The message cannot be sent.
    pub open spec fn fails(self, problem: FailureText) -> bool {
        self matches SendStep::Failed { failure } && failure@ == problem
    }

    /// The first step: a record that is at fault cannot be sent; otherwise the room is asked
    /// whether it is encrypted.
    pub open spec fn begins(
        self,
        media: UploadedMedia,
        transaction_id: String,
        caption: Option<String>,
        formatted_caption: Option<String>,
        reply_event_id: Option<String>,
    ) -> bool {
        match media.problem(media.verdict_texts()) {
            Some(problem) => self.fails(problem),
            None => {
                &&& self matches SendStep::AskEncryption { next }
                &&& next.media == media
                &&& next.verdicts@ == media.verdict_texts()
                &&& next.transaction_id == transaction_id
                &&& next.caption == caption
                &&& next.formatted_caption == formatted_caption
                &&& next.reply_event_id == reply_event_id
            },
        }
    }

    /// The message is sent, or a reply to an event is built around it first.
    pub open spec fn goes_out(self, check: EncryptionCheck) -> bool {
        match check.reply_event_id {
            None => {
                &&& self matches SendStep::Send { content: Outgoing::Message(message), transaction_id }
                &&& check.media.presents(message, check.caption, check.formatted_caption)
                &&& transaction_id == check.transaction_id
            },
            Some(event_id) => match event_id_problem(event_id@) {
                Some(problem) => self.fails(foreign_refusal(problem)),
                None => {
                    &&& self matches SendStep::MakeReply { message, reply, next }
                    &&& check.media.presents(message, check.caption, check.formatted_caption)
                    &&& reply.answers(event_id@)
                    &&& next.kind == check.media.kind()
                    &&& next.transaction_id == check.transaction_id
                },
            },
        }
    }
}

fn begin<T>(
    media: UploadedMedia,
    transaction_id: String,
    caption: Option<String>,
    formatted_caption: Option<String>,
    reply_event_id: Option<String>,
) -> (r: SendStep<T>)
    requires
        media.checkable(),
    ensures
        r.begins(media, transaction_id, caption, formatted_caption, reply_event_id),
{
    let verdicts = media.verdicts();
    match media.validate_with(&verdicts) {
        Err(failure) => SendStep::Failed { failure },
        Ok(_) => SendStep::AskEncryption {
            next: EncryptionCheck {
                media,
                verdicts,
                transaction_id,
                caption,
                formatted_caption,
                reply_event_id,
            },
        },
    }
}

impl EncryptionCheck {
    /// Goes on with whether the room is encrypted now.
    pub fn answer<T>(self, encryption: Result<bool, UploadFailure>) -> (r: SendStep<T>)
        ensures
            match encryption {
                Err(failure) => r.fails(failure@),
                Ok(current) => if self.media.encrypted() != current {
                    r.fails(
                        encryption_mismatch(self.media.kind(), self.media.encrypted(), current),
                    )
                } else {
                    match content_problem(self.media.thumbnail_source(), self.verdicts@) {
                        Some(problem) => r.fails(problem),
                        None => r.goes_out(self),
                    }
                },
            },
    {
        let current = match encryption {
            Ok(current) => current,
            Err(failure) => return SendStep::Failed { failure },
        };
        let kind = self.media.media_kind();
        let uploaded = self.media.is_encrypted();
        if uploaded != current {
            return SendStep::Failed { failure: mismatch_failure(kind, uploaded, current) };
        }
        let message = match self.media.into_message_content(
            self.verdicts,
            self.caption,
            self.formatted_caption,
        ) {
            Ok(message) => message,
            Err(failure) => return SendStep::Failed { failure },
        };
        match self.reply_event_id {
            None => SendStep::Send {
                content: Outgoing::Message(message),
                transaction_id: self.transaction_id,
            },
            Some(event_id) => match EventId::parse(event_id.as_str()) {
                Err(error) => SendStep::Failed { failure: UploadFailure::validation_err(error) },
                Ok(event_id) => SendStep::MakeReply {
                    message,
                    reply: Reply::to(event_id),
                    next: ReplyRequest { kind, transaction_id: self.transaction_id },
                },
            },
        }
    }
}

impl ReplyRequest {
    /// Goes on with the reply, or with why it could not be built.
    pub fn answer<T>(self, made: Result<T, (ReplyError, String)>) -> (r: SendStep<T>)
        ensures
            match made {
                Ok(reply) => r == (SendStep::Send {
                    content: Outgoing::Reply(reply),
                    transaction_id: self.transaction_id,
                }),
                Err((error, debug)) => r.fails(reply_problem(error, debug@)),
            },
    {
        match made {
            Ok(reply) => SendStep::Send {
                content: Outgoing::Reply(reply),
                transaction_id: self.transaction_id,
            },
            Err((error, debug)) => SendStep::Failed {
                failure: self.kind.reply_failure(error, debug),
            },
        }
    }
}

impl Room {
    /// Begins to send an image that was uploaded.
    pub fn send_uploaded_image_with_transaction_id_returning_event_id<T>(
        &self,
        uploaded: UploadedImage,
        transaction_id: String,
        caption: Option<String>,
        formatted_caption: Option<String>,
        reply_event_id: Option<String>,
    ) -> (r: SendStep<T>)
        requires
            uploaded.checkable(),
        ensures
            r.begins(
                UploadedMedia::Image(uploaded),
                transaction_id,
                caption,
                formatted_caption,
                reply_event_id,
            ),
    {
        begin(
            UploadedMedia::Image(uploaded),
            transaction_id,
            caption,
            formatted_caption,
            reply_event_id,
        )
    }

    /// Begins to send a voice message that was uploaded.
    pub fn send_uploaded_voice_with_transaction_id_returning_event_id<T>(
        &self,
        uploaded: UploadedVoice,
        transaction_id: String,
        reply_event_id: Option<String>,
    ) -> (r: SendStep<T>)
        requires
            uploaded.checkable(),
        ensures
            r.begins(UploadedMedia::Voice(uploaded), transaction_id, None, None, reply_event_id),
    {
        begin(UploadedMedia::Voice(uploaded), transaction_id, None, None, reply_event_id)
    }

    /// Begins to send a video that was uploaded.
    pub fn send_uploaded_video_with_transaction_id_returning_event_id<T>(
        &self,
        uploaded: UploadedVideo,
        transaction_id: String,
        caption: Option<String>,
        formatted_caption: Option<String>,
        reply_event_id: Option<String>,
    ) -> (r: SendStep<T>)
        requires
            uploaded.checkable(),
        ensures
            r.begins(
                UploadedMedia::Video(uploaded),
                transaction_id,
                caption,
                formatted_caption,
                reply_event_id,
            ),
    {
        begin(
            UploadedMedia::Video(uploaded),
            transaction_id,
            caption,
            formatted_caption,
            reply_event_id,
        )
    }

    /// Begins to send a file that was uploaded.
    pub fn send_uploaded_file_with_transaction_id_returning_event_id<T>(
        &self,
        uploaded: UploadedFile,
        transaction_id: String,
        caption: Option<String>,
        formatted_caption: Option<String>,
        reply_event_id: Option<String>,
    ) -> (r: SendStep<T>)
        requires
            uploaded.checkable(),
        ensures
            r.begins(
                UploadedMedia::File(uploaded),
                transaction_id,
                caption,
                formatted_caption,
                reply_event_id,
            ),
    {
        begin(
            UploadedMedia::File(uploaded),
            transaction_id,
            caption,
            formatted_caption,
            reply_event_id,
        )
    }
}

impl Room {
    /// Begins to send media that was uploaded, unless a place that would have to be judged cannot
    /// be. A voice message goes without captions.
    pub fn send_uploaded_media<T>(
        &self,
        uploaded: UploadedMedia,
        transaction_id: String,
        caption: Option<String>,
        formatted_caption: Option<String>,
        reply_event_id: Option<String>,
    ) -> (r: Option<SendStep<T>>)
        ensures
            match r {
                None => !uploaded.checkable(),
                Some(step) => uploaded.checkable() && if uploaded is Voice {
                    step.begins(uploaded, transaction_id, None, None, reply_event_id)
                } else {
                    step.begins(
                        uploaded,
                        transaction_id,
                        caption,
                        formatted_caption,
                        reply_event_id,
                    )
                },
            },
    {
        if !uploaded.is_checkable() {
            return None;
        }
        Some(
            match uploaded {
                UploadedMedia::Image(record) => {
                    self.send_uploaded_image_with_transaction_id_returning_event_id(
                        record,
                        transaction_id,
                        caption,
                        formatted_caption,
                        reply_event_id,
                    )
                },
                UploadedMedia::Voice(record) => {
                    self.send_uploaded_voice_with_transaction_id_returning_event_id(
                        record,
                        transaction_id,
                        reply_event_id,
                    )
                },
                UploadedMedia::Video(record) => {
                    self.send_uploaded_video_with_transaction_id_returning_event_id(
                        record,
                        transaction_id,
                        caption,
                        formatted_caption,
                        reply_event_id,
                    )
                },
                UploadedMedia::File(record) => {
                    self.send_uploaded_file_with_transaction_id_returning_event_id(
                        record,
                        transaction_id,
                        caption,
                        formatted_caption,
                        reply_event_id,
                    )
                },
            },
        )
    }
}

/// Media that was just uploaded is sent in the same room without a further question once the room
/// turns out to be encrypted as it was: nothing in the record stands in the way.
pub proof fn law_uploaded_media_goes_out(record: UploadedMedia, verdicts: VerdictTexts)
    requires
        record.sound(),
        verdicts == (VerdictTexts { media: None, thumbnail: None }),
    ensures
        record.problem(verdicts) is None,
        content_problem(record.thumbnail_source(), verdicts) is None,
{
    law_accepted_record_becomes_a_message(record, verdicts);
}

/// The message tells what was uploaded: under the name that the path gave, with the size, the media
/// type and the measures that the client described, at the place that the media store chose, and with
/// the thumbnail that was uploaded along with it.
pub proof fn law_message_tells_what_was_uploaded(
    plan: MediaPlan,
    is_encrypted: bool,
    source: MediaSource,
    thumbnail: Option<(MediaSource, UploadedThumbnailInfo)>,
    record: UploadedMedia,
    message: MessageType,
    caption: Option<String>,
    formatted_caption: Option<String>,
)
    requires
        record.records(plan, is_encrypted, source, thumbnail),
        record.presents(message, caption, formatted_caption),
    ensures
        record.encrypted() == is_encrypted,
        match message {
            MessageType::Image(content) => {
                &&& plan.details is Image
                &&& content.filename == plan.filename
                &&& content.source == source
                &&& content.info matches Some(info)
                &&& info.size == Some(plan.size)
                &&& info.mimetype == Some(plan.mimetype.essence)
                &&& plan.details matches MediaDetails::Image { width, height, blurhash }
                &&& info.width == Some(width)
                &&& info.height == Some(height)
                &&& info.blurhash == blurhash
                &&& match (thumbnail, info.thumbnail_source, info.thumbnail_info) {
                    (None, None, None) => true,
                    (Some((place, description)), Some(shown), Some(shown_info)) => {
                        &&& shown == place
                        &&& shown_info.width == Some(description.width)
                        &&& shown_info.height == Some(description.height)
                        &&& shown_info.size == Some(description.size)
                        &&& shown_info.mimetype == Some(description.mimetype)
                    },
                    _ => false,
                }
            },
            MessageType::Audio(content) => {
                &&& plan.details is Voice
                &&& content.filename == plan.filename
                &&& content.source == source
                &&& content.info matches Some(info)
                &&& info.size == Some(plan.size)
                &&& info.mimetype == Some(plan.mimetype.essence)
                &&& plan.details matches MediaDetails::Voice { duration, waveform }
                &&& info.duration == Some(duration)
                &&& content.audio matches Some(audio)
                &&& audio.duration == duration
                &&& audio.waveform@.len() == waveform@.len()
            },
            MessageType::Video(content) => {
                &&& plan.details is Video
                &&& content.filename == plan.filename
                &&& content.source == source
                &&& content.info matches Some(info)
                &&& info.size == Some(plan.size)
                &&& info.mimetype == Some(plan.mimetype.essence)
                &&& plan.details matches MediaDetails::Video { duration, width, height, blurhash }
                &&& info.duration == Some(duration)
                &&& info.width == Some(width)
                &&& info.height == Some(height)
                &&& info.blurhash == blurhash
                &&& match (thumbnail, info.thumbnail_source, info.thumbnail_info) {
                    (None, None, None) => true,
                    (Some((place, description)), Some(shown), Some(shown_info)) => {
                        &&& shown == place
                        &&& shown_info.width == Some(description.width)
                        &&& shown_info.height == Some(description.height)
                        &&& shown_info.size == Some(description.size)
                        &&& shown_info.mimetype == Some(description.mimetype)
                    },
                    _ => false,
                }
            },
            MessageType::File(content) => {
                &&& plan.details is File
                &&& content.filename == plan.filename
                &&& content.source == source
                &&& content.info matches Some(info)
                &&& info.size == Some(plan.size)
                &&& info.mimetype == Some(plan.mimetype.essence)
                &&& match (thumbnail, info.thumbnail_source, info.thumbnail_info) {
                    (None, None, None) => true,
                    (Some((place, description)), Some(shown), Some(shown_info)) => {
                        &&& shown == place
                        &&& shown_info.width == Some(description.width)
                        &&& shown_info.height == Some(description.height)
                        &&& shown_info.size == Some(description.size)
                        &&& shown_info.mimetype == Some(description.mimetype)
                    },
                    _ => false,
                }
            },
        },
{
}

/// A client asks to send media that was uploaded, and the sending begins with a step.
pub open spec fn begins_to_send<T>(
    room: Room,
    media: UploadedMedia,
    transaction_id: String,
    caption: Option<String>,
    formatted_caption: Option<String>,
    reply_event_id: Option<String>,
    step: SendStep<T>,
) -> bool {
    ||| call_ensures(
        Room::send_uploaded_media::<T>,
        (&room, media, transaction_id, caption, formatted_caption, reply_event_id),
        Some(step),
    )
    ||| match media {
        UploadedMedia::Image(record) => record.checkable() && call_ensures(
            Room::send_uploaded_image_with_transaction_id_returning_event_id::<T>,
            (&room, record, transaction_id, caption, formatted_caption, reply_event_id),
            step,
        ),
        UploadedMedia::Voice(record) => record.checkable() && call_ensures(
            Room::send_uploaded_voice_with_transaction_id_returning_event_id::<T>,
            (&room, record, transaction_id, reply_event_id),
            step,
        ),
        UploadedMedia::Video(record) => record.checkable() && call_ensures(
            Room::send_uploaded_video_with_transaction_id_returning_event_id::<T>,
            (&room, record, transaction_id, caption, formatted_caption, reply_event_id),
            step,
        ),
        UploadedMedia::File(record) => record.checkable() && call_ensures(
            Room::send_uploaded_file_with_transaction_id_returning_event_id::<T>,
            (&room, record, transaction_id, caption, formatted_caption, reply_event_id),
            step,
        ),
    }
}

/// A client asks to send media that was uploaded, and is answered whether the room is encrypted.
pub open spec fn is_sent<T>(
    room: Room,
    media: UploadedMedia,
    transaction_id: String,
    caption: Option<String>,
    formatted_caption: Option<String>,
    reply_event_id: Option<String>,
    first: SendStep<T>,
    encryption: Result<bool, UploadFailure>,
    step: SendStep<T>,
) -> bool {
    &&& begins_to_send(
        room,
        media,
        transaction_id,
        caption,
        formatted_caption,
        reply_event_id,
        first,
    )
    &&& first matches SendStep::AskEncryption { next }
    &&& call_ensures(EncryptionCheck::answer::<T>, (next, encryption), step)
}

/// Whether a record is in order, apart from where its places are.
pub open spec fn record_in_order(media: UploadedMedia) -> bool {
    match media {
        UploadedMedia::Image(record) => record.in_order(),
        UploadedMedia::Voice(record) => record.in_order(),
        UploadedMedia::Video(record) => record.in_order(),
        UploadedMedia::File(record) => record.in_order(),
    }
}

/// The places of a record.
pub open spec fn places_of(media: UploadedMedia) -> (MediaSource, Option<MediaSource>) {
    match media {
        UploadedMedia::Image(record) => (record.media_source, record.thumbnail_source),
        UploadedMedia::Voice(record) => (record.media_source, None),
        UploadedMedia::Video(record) => (record.media_source, record.thumbnail_source),
        UploadedMedia::File(record) => (record.media_source, record.thumbnail_source),
    }
}

/// The sending of media goes on to ask whether the room is encrypted exactly if the record is in order
/// and its places are places of media; otherwise it fails. It is not begun only where such a place
/// cannot be judged.
pub proof fn law_only_sound_records_are_sent<T>(
    room: Room,
    media: UploadedMedia,
    transaction_id: String,
    caption: Option<String>,
    formatted_caption: Option<String>,
    reply_event_id: Option<String>,
    begun: Option<SendStep<T>>,
)
    requires
        call_ensures(
            Room::send_uploaded_media::<T>,
            (&room, media, transaction_id, caption, formatted_caption, reply_event_id),
            begun,
        ),
    ensures
        match begun {
            Some(SendStep::AskEncryption { .. }) => {
                &&& record_in_order(media)
                &&& mxc_problem(places_of(media).0.location()) is None
                &&& places_of(media).1 matches Some(place) ==> mxc_problem(place.location()) is None
            },
            Some(SendStep::Failed { failure }) => {
                &&& failure@ is Validation
                &&& {
                    ||| !record_in_order(media)
                    ||| mxc_problem(places_of(media).0.location()) is Some
                    ||| places_of(media).1 matches Some(place) && mxc_problem(place.location()) is Some
                }
            },
            Some(_) => false,
            None => {
                ||| !mxc_checkable(places_of(media).0.location())
                ||| places_of(media).1 matches Some(place) && !mxc_checkable(place.location())
            },
        },
{
}

/// A record that is refused when it is checked is refused in the same words when it is sent.
pub proof fn law_sending_refuses_as_checking_does<T>(
    room: Room,
    media: UploadedMedia,
    transaction_id: String,
    caption: Option<String>,
    formatted_caption: Option<String>,
    reply_event_id: Option<String>,
    step: SendStep<T>,
    failure: UploadFailure,
    error: FailureText,
)
    requires
        begins_to_send(
            room,
            media,
            transaction_id,
            caption,
            formatted_caption,
            reply_event_id,
            step,
        ),
        step == (SendStep::<T>::Failed { failure }),
        match media {
            UploadedMedia::Image(record) => exists|refused: UploadedImageError| #[trigger]
                call_ensures(UploadedImage::check, (&record,), Some(Err(refused))) && refused@
                    == error,
            UploadedMedia::Voice(record) => exists|refused: UploadedVoiceError| #[trigger]
                call_ensures(UploadedVoice::check, (&record,), Some(Err(refused))) && refused@
                    == error,
            UploadedMedia::Video(record) => exists|refused: UploadedVideoError| #[trigger]
                call_ensures(UploadedVideo::check, (&record,), Some(Err(refused))) && refused@
                    == error,
            UploadedMedia::File(record) => exists|refused: UploadedFileError| #[trigger]
                call_ensures(UploadedFile::check, (&record,), Some(Err(refused))) && refused@
                    == error,
        },
    ensures
        failure@ == error,
{
}

/// What the kind of a record is called.
pub open spec fn kind_word(media: UploadedMedia) -> Seq<char> {
    match media {
        UploadedMedia::Image(_) => "image"@,
        UploadedMedia::Voice(_) => "voice"@,
        UploadedMedia::Video(_) => "video"@,
        UploadedMedia::File(_) => "file"@,
    }
}

/// Media goes out only into a room that is encrypted exactly if the media is: the sending goes on once
/// the room says so, and fails where the room is of the other kind or cannot tell. A reply goes on
/// only if there is an ID of an event to answer.
pub proof fn law_media_goes_out_only_where_encryption_matches<T>(
    room: Room,
    media: UploadedMedia,
    transaction_id: String,
    caption: Option<String>,
    formatted_caption: Option<String>,
    reply_event_id: Option<String>,
    first: SendStep<T>,
    encryption: Result<bool, UploadFailure>,
    step: SendStep<T>,
)
    requires
        is_sent(
            room,
            media,
            transaction_id,
            caption,
            formatted_caption,
            reply_event_id,
            first,
            encryption,
            step,
        ),
    ensures
        ({
            let uploaded = places_of(media).0 is Encrypted;
            match encryption {
                Err(problem) => step matches SendStep::Failed { failure } && failure@ == problem@,
                Ok(current) => if current != uploaded {
                    step matches SendStep::Failed { failure } && failure@ == (
                    FailureText::Validation {
                        msg: "Uploaded "@ + kind_word(media)
                            + " encryption mismatch: uploaded is_encrypted="@ + (if uploaded {
                            "true"@
                        } else {
                            "false"@
                        }) + ", current room is_encrypted="@ + (if current {
                            "true"@
                        } else {
                            "false"@
                        }),
                        details: None,
                    })
                } else {
                    match reply_event_id {
                        None => step matches SendStep::Send {
                            content: Outgoing::Message(_),
                            transaction_id: id,
                        } && id == transaction_id,
                        Some(event_id) => match event_id_problem(event_id@) {
                            Some(problem) => step matches SendStep::Failed { failure } && failure@
                                == (FailureText::Validation {
                                msg: problem.message,
                                details: Some(problem.debug),
                            }),
                            None => {
                                &&& step matches SendStep::MakeReply { reply, next, .. }
                                &&& reply.event_id@ == event_id@
                                &&& reply.enforce_thread is MaybeThreaded
                                &&& reply.add_mentions is Yes
                                &&& next.transaction_id == transaction_id
                                &&& next.kind is Image <==> media is Image
                                &&& next.kind is Voice <==> media is Voice
                                &&& next.kind is Video <==> media is Video
                            },
                        },
                    }
                },
            }
        }),
{
}

/// The message that goes out, or that a reply is built around.
pub open spec fn outgoing_message<T>(step: SendStep<T>) -> Option<MessageType> {
    match step {
        SendStep::Send { content: Outgoing::Message(message), .. } => Some(message),
        SendStep::MakeReply { message, .. } => Some(message),
        _ => None,
    }
}

/// The message that a recorded image is sent in shows it as the record has it, with its thumbnail and
/// under the captions that were asked for.
pub proof fn law_sent_image_is_the_recorded_one<T>(
    room: Room,
    record: UploadedImage,
    transaction_id: String,
    caption: Option<String>,
    formatted_caption: Option<String>,
    reply_event_id: Option<String>,
    first: SendStep<T>,
    encryption: Result<bool, UploadFailure>,
    step: SendStep<T>,
)
    requires
        is_sent(
            room,
            UploadedMedia::Image(record),
            transaction_id,
            caption,
            formatted_caption,
            reply_event_id,
            first,
            encryption,
            step,
        ),
    ensures
        outgoing_message(step) matches Some(message) ==> {
            &&& message matches MessageType::Image(content)
            &&& content.filename == record.filename
            &&& content.source == record.media_source
            &&& content.info matches Some(info)
            &&& info.mimetype == Some(record.original_mimetype)
            &&& info.width == Some(record.image_info.width)
            &&& info.height == Some(record.image_info.height)
            &&& info.size == Some(record.image_info.size)
            &&& info.blurhash == record.image_info.blurhash
            &&& info.is_animated == record.image_info.is_animated
            &&& info.thumbnail_source == record.thumbnail_source
            &&& match (info.thumbnail_info, record.thumbnail_info) {
                (None, None) => true,
                (Some(shown), Some(recorded)) => {
                    &&& shown.width == Some(recorded.width)
                    &&& shown.height == Some(recorded.height)
                    &&& shown.size == Some(recorded.size)
                    &&& shown.mimetype == Some(recorded.mimetype)
                },
                _ => false,
            }
            &&& match formatted_caption {
                Some(body) => content.formatted_caption matches Some(formatted) && formatted.body
                    == body && formatted.format is Html,
                None => content.formatted_caption is None,
            }
            &&& match caption {
                Some(text) => content.caption == Some(text),
                None => match formatted_caption {
                    Some(_) => content.caption matches Some(empty) && empty@.len() == 0,
                    None => content.caption is None,
                },
            }
        },
{
}

/// The message that a recorded video is sent in shows it as the record has it, with its thumbnail and
/// under the captions that were asked for.
pub proof fn law_sent_video_is_the_recorded_one<T>(
    room: Room,
    record: UploadedVideo,
    transaction_id: String,
    caption: Option<String>,
    formatted_caption: Option<String>,
    reply_event_id: Option<String>,
    first: SendStep<T>,
    encryption: Result<bool, UploadFailure>,
    step: SendStep<T>,
)
    requires
        is_sent(
            room,
            UploadedMedia::Video(record),
            transaction_id,
            caption,
            formatted_caption,
            reply_event_id,
            first,
            encryption,
            step,
        ),
    ensures
        outgoing_message(step) matches Some(message) ==> {
            &&& message matches MessageType::Video(content)
            &&& content.filename == record.filename
            &&& content.source == record.media_source
            &&& content.info matches Some(info)
            &&& info.mimetype == Some(record.original_mimetype)
            &&& info.width == Some(record.video_info.width)
            &&& info.height == Some(record.video_info.height)
            &&& info.size == Some(record.video_info.size)
            &&& info.duration == Some(record.video_info.duration)
            &&& info.blurhash == record.video_info.blurhash
            &&& info.thumbnail_source == record.thumbnail_source
            &&& match (info.thumbnail_info, record.thumbnail_info) {
                (None, None) => true,
                (Some(shown), Some(recorded)) => {
                    &&& shown.width == Some(recorded.width)
                    &&& shown.height == Some(recorded.height)
                    &&& shown.size == Some(recorded.size)
                    &&& shown.mimetype == Some(recorded.mimetype)
                },
                _ => false,
            }
            &&& match formatted_caption {
                Some(body) => content.formatted_caption matches Some(formatted) && formatted.body
                    == body && formatted.format is Html,
                None => content.formatted_caption is None,
            }
            &&& match caption {
                Some(text) => content.caption == Some(text),
                None => match formatted_caption {
                    Some(_) => content.caption matches Some(empty) && empty@.len() == 0,
                    None => content.caption is None,
                },
            }
        },
{
}

/// The message that a recorded file is sent in shows it as the record has it, with its thumbnail and
/// under the captions that were asked for.
pub proof fn law_sent_file_is_the_recorded_one<T>(
    room: Room,
    record: UploadedFile,
    transaction_id: String,
    caption: Option<String>,
    formatted_caption: Option<String>,
    reply_event_id: Option<String>,
    first: SendStep<T>,
    encryption: Result<bool, UploadFailure>,
    step: SendStep<T>,
)
    requires
        is_sent(
            room,
            UploadedMedia::File(record),
            transaction_id,
            caption,
            formatted_caption,
            reply_event_id,
            first,
            encryption,
            step,
        ),
    ensures
        outgoing_message(step) matches Some(message) ==> {
            &&& message matches MessageType::File(content)
            &&& content.filename == record.filename
            &&& content.source == record.media_source
            &&& content.info matches Some(info)
            &&& info.mimetype == Some(record.original_mimetype)
            &&& info.size == Some(record.file_info.size)
            &&& info.thumbnail_source == record.thumbnail_source
            &&& match (info.thumbnail_info, record.thumbnail_info) {
                (None, None) => true,
                (Some(shown), Some(recorded)) => {
                    &&& shown.width == Some(recorded.width)
                    &&& shown.height == Some(recorded.height)
                    &&& shown.size == Some(recorded.size)
                    &&& shown.mimetype == Some(recorded.mimetype)
                },
                _ => false,
            }
            &&& match formatted_caption {
                Some(body) => content.formatted_caption matches Some(formatted) && formatted.body
                    == body && formatted.format is Html,
                None => content.formatted_caption is None,
            }
            &&& match caption {
                Some(text) => content.caption == Some(text),
                None => match formatted_caption {
                    Some(_) => content.caption matches Some(empty) && empty@.len() == 0,
                    None => content.caption is None,
                },
            }
        },
{
}

/// The message that a recorded voice message is sent in shows it as the record has it, as a voice
/// message and without captions. Its waveform is the recorded one, scaled.
pub proof fn law_sent_voice_is_the_recorded_one<T>(
    room: Room,
    record: UploadedVoice,
    transaction_id: String,
    caption: Option<String>,
    formatted_caption: Option<String>,
    reply_event_id: Option<String>,
    first: SendStep<T>,
    encryption: Result<bool, UploadFailure>,
    step: SendStep<T>,
    scaled: Vec<u16>,
)
    requires
        is_sent(
            room,
            UploadedMedia::Voice(record),
            transaction_id,
            caption,
            formatted_caption,
            reply_event_id,
            first,
            encryption,
            step,
        ),
        call_ensures(scale_voice_waveform, (&record.voice_info.waveform,), scaled),
    ensures
        outgoing_message(step) matches Some(message) ==> {
            &&& message matches MessageType::Audio(content)
            &&& content.filename == record.filename
            &&& content.source == record.media_source
            &&& content.caption is None
            &&& content.formatted_caption is None
            &&& content.voice is Some
            &&& content.info matches Some(info)
            &&& info.duration == Some(record.voice_info.duration)
            &&& info.size == Some(record.voice_info.size)
            &&& info.mimetype == Some(record.original_mimetype)
            &&& content.audio matches Some(audio)
            &&& audio.duration == record.voice_info.duration
            &&& audio.waveform@ == scaled@
        },
{
}

/// A reply that was built goes out as it is, under the transaction ID that was given; one that could
/// not be built fails, and may be tried again exactly where the event could not be fetched.
pub proof fn law_reply_goes_out_as_it_was_built<T>(
    request: ReplyRequest,
    made: Result<T, (ReplyError, String)>,
    step: SendStep<T>,
)
    requires
        call_ensures(ReplyRequest::answer::<T>, (request, made), step),
    ensures
        match made {
            Ok(reply) => {
                &&& step matches SendStep::Send { content: Outgoing::Reply(sent), transaction_id }
                &&& sent == reply
                &&& transaction_id == request.transaction_id
            },
            Err((error, debug)) => step matches SendStep::Failed { failure } && failure@ == match error {
                ReplyError::Fetch => FailureText::Retryable {
                    msg: "Failed to fetch replied-to event"@,
                    details: Some(debug@),
                },
                ReplyError::Deserialization => FailureText::Validation {
                    msg: "Failed to deserialize replied-to event"@,
                    details: Some(debug@),
                },
                ReplyError::StateEvent => FailureText::Validation {
                    msg: "Cannot reply to a state event"@,
                    details: Some(debug@),
                },
            },
        },
{
}

/// A reply that could not be built is reported alike for every kind of media, and may be tried again
/// exactly where the event could not be fetched.
pub proof fn law_reply_errors_are_reported_alike(
    error: ReplyError,
    debug: String,
    image: UploadedImageError,
    voice: UploadedVoiceError,
    video: UploadedVideoError,
    file: UploadedFileError,
)
    requires
        call_ensures(map_reply_error, (error, debug), image),
        call_ensures(map_reply_error_for_voice, (error, debug), voice),
        call_ensures(map_reply_error_for_video, (error, debug), video),
        call_ensures(map_reply_error_for_file, (error, debug), file),
    ensures
        image@ is Retryable <==> error is Fetch,
        voice@ == image@,
        video@ == image@,
        file@ == image@,
        match image@ {
            FailureText::Retryable { details, .. } => details == Some(debug@),
            FailureText::Validation { details, .. } => details == Some(debug@),
        },
{
}

/// The sending of a record is begun exactly where the record can be checked.
pub proof fn law_only_records_that_can_be_checked_are_sent<T>(
    room: Room,
    media: UploadedMedia,
    transaction_id: String,
    caption: Option<String>,
    formatted_caption: Option<String>,
    reply_event_id: Option<String>,
    begun: Option<SendStep<T>>,
    checkable: bool,
)
    requires
        call_ensures(
            Room::send_uploaded_media::<T>,
            (&room, media, transaction_id, caption, formatted_caption, reply_event_id),
            begun,
        ),
        match media {
            UploadedMedia::Image(record) => call_ensures(
                UploadedImage::is_checkable,
                (&record,),
                checkable,
            ),
            UploadedMedia::Voice(record) => call_ensures(
                UploadedVoice::is_checkable,
                (&record,),
                checkable,
            ),
            UploadedMedia::Video(record) => call_ensures(
                UploadedVideo::is_checkable,
                (&record,),
                checkable,
            ),
            UploadedMedia::File(record) => call_ensures(
                UploadedFile::is_checkable,
                (&record,),
                checkable,
            ),
        },
    ensures
        begun is Some <==> checkable,
{
}

} // verus!
