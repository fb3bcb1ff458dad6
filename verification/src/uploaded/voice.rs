//! Uploaded voice messages.

use vstd::prelude::*;

use crate::errors::{FailureText, UploadedVoiceError};
use crate::media::{
    duration_problem, ffi_media_source, mxc_checkable, mxc_problem, source_problem,
    validate_duration, validate_media_source_matches, AudioInfo, AudioMessageContent, Duration,
    MediaSource, MessageType, UnstableAudioDetailsContent, UnstableVoiceContent,
};
use crate::mimetypes::{family_problem, of_family, parse_audio_mimetype};
use crate::numbers::{countable, uint_problem, validate_positive_uint};
use crate::text::decimal;
use crate::uploaded::{
    are_places_checkable, bad_number_is_named, bad_place_is_named, bad_type_is_named,
    content_problem, copy_text, either, header_problem, mismatch_problem, places_checkable,
    refused_as, source_verdicts, validate_header, validate_same_mimetype, verdict_texts,
    SourceVerdicts, VerdictTexts,
};
use crate::waveform::{amplitude, finite, scale_voice_waveform, validate_waveform, waveform_problem};

verus! {

/// The layout of the record.
pub const UPLOADED_VOICE_SCHEMA_VERSION: u16 = 1;

/// The kind of the record.
pub const UPLOADED_VOICE_KIND: &'static str = "voice";

/// How an uploaded voice message is described.
#[derive(Debug)]
pub struct UploadedVoiceInfo {
    pub mimetype: String,
    pub size: u64,
    pub duration: Duration,
    /// The loudness over time, as samples.
    pub waveform: Vec<u32>,
}

/// The record of an uploaded voice message.
#[derive(Debug)]
pub struct UploadedVoice {
    pub schema_version: u16,
    pub kind: String,
    pub is_encrypted: bool,
    pub filename: String,
    pub media_source: MediaSource,
    pub voice_info: UploadedVoiceInfo,
    pub original_mimetype: String,
}

impl UploadedVoice {
    /// What is wrong with the record apart from its places: the first problem in the order in which
    /// they are looked for.
    pub open spec fn description_problem(self) -> Option<FailureText> {
        either(
            header_problem(
                "UploadedVoice"@,
                self.schema_version,
                UPLOADED_VOICE_SCHEMA_VERSION,
                self.kind@,
                UPLOADED_VOICE_KIND@,
                self.filename@,
            ),
            either(
                uint_problem(self.voice_info.size, "voice_info.size"@),
                either(
                    duration_problem(self.voice_info.duration, "voice_info.duration"@),
                    either(
                        waveform_problem(self.voice_info.waveform@, "voice_info.waveform"@),
                        either(
                            family_problem(self.original_mimetype@, "original_mimetype"@, "audio"@),
                            either(
                                family_problem(self.voice_info.mimetype@, "voice_info.mimetype"@, "audio"@),
                                mismatch_problem(
                                    "UploadedVoice"@,
                                    self.voice_info.mimetype@,
                                    self.original_mimetype@,
                                    "voice_info.mimetype"@,
                                ),
                            ),
                        ),
                    ),
                ),
            ),
        )
    }

    /// What is wrong with the record, given which places were refused: its description comes first.
    pub open spec fn problem(self, verdicts: VerdictTexts) -> Option<FailureText> {
        either(
            self.description_problem(),
            source_problem(
                self.media_source.encrypted(),
                verdicts.media,
                self.is_encrypted,
                "media_source"@,
                "UploadedVoice"@,
            ),
        )
    }

    /// Whether every place that is judged when the record is checked can be judged.
    pub open spec fn checkable(self) -> bool {
        self.description_problem() is None ==> places_checkable(
            self.media_source,
            None,
            None,
            self.is_encrypted,
        )
    }

    /// What judging the places of the record gives.
    pub open spec fn verdict_texts(self) -> VerdictTexts {
        verdict_texts(self.media_source, None)
    }

    pub(crate) fn verdicts(&self) -> (r: SourceVerdicts)
        ensures
            r@ == self.verdict_texts(),
    {
        source_verdicts(&self.media_source, &None)
    }

    fn check_description(&self) -> (r: Result<(), UploadedVoiceError>)
        ensures
            match r {
                Ok(_) => self.description_problem() is None,
                Err(error) => self.description_problem() == Some(error@),
            },
    {
        match validate_header(
            "UploadedVoice",
            self.schema_version,
            UPLOADED_VOICE_SCHEMA_VERSION,
            self.kind.as_str(),
            UPLOADED_VOICE_KIND,
            self.filename.as_str(),
        ) {
            Ok(_) => {},
            Err(error) => return Err(UploadedVoiceError::from(error)),
        }
        match validate_positive_uint(self.voice_info.size, "voice_info.size") {
            Ok(_) => {},
            Err(error) => return Err(UploadedVoiceError::from(error)),
        }
        match validate_duration(self.voice_info.duration, "voice_info.duration") {
            Ok(_) => {},
            Err(error) => return Err(error),
        }
        match validate_waveform(&self.voice_info.waveform, "voice_info.waveform") {
            Ok(_) => {},
            Err(error) => return Err(error),
        }
        match parse_audio_mimetype(self.original_mimetype.as_str(), "original_mimetype") {
            Ok(_) => {},
            Err(error) => return Err(error),
        }
        match parse_audio_mimetype(self.voice_info.mimetype.as_str(), "voice_info.mimetype") {
            Ok(_) => {},
            Err(error) => return Err(error),
        }
        match validate_same_mimetype(
            "UploadedVoice",
            self.voice_info.mimetype.as_str(),
            self.original_mimetype.as_str(),
            "voice_info.mimetype",
        ) {
            Ok(_) => Ok(()),
            Err(error) => Err(UploadedVoiceError::from(error)),
        }
    }

    /// Whether every place that is judged when the record is checked can be judged.
    pub fn is_checkable(&self) -> (r: bool)
        ensures
            r == self.checkable(),
    {
        match self.check_description() {
            Ok(_) => are_places_checkable(
                &self.media_source,
                &None,
                &None,
                self.is_encrypted,
            ),
            Err(_) => true,
        }
    }

    /// Checks the record, given which of its places were refused.
    pub fn validate_with(&self, verdicts: &SourceVerdicts) -> (r: Result<(), UploadedVoiceError>)
        ensures
            match r {
                Ok(_) => self.problem(verdicts@) is None,
                Err(error) => self.problem(verdicts@) == Some(error@),
            },
    {
        self.check_description()?;
        match validate_media_source_matches(
            &self.media_source,
            copy_text(&verdicts.media),
            self.is_encrypted,
            "media_source",
            "UploadedVoice",
        ) {
            Ok(_) => Ok(()),
            Err(error) => Err(UploadedVoiceError::from(error)),
        }
    }

    /// Checks the record.
    pub fn validate(&self) -> (r: Result<(), UploadedVoiceError>)
        requires
            self.checkable(),
        ensures
            match r {
                Ok(_) => self.problem(self.verdict_texts()) is None,
                Err(error) => self.problem(self.verdict_texts()) == Some(error@),
            },
    {
        let verdicts = self.verdicts();
        self.validate_with(&verdicts)
    }

    /// Checks the record, unless a place that would have to be judged cannot be.
    pub fn check(&self) -> (r: Option<Result<(), UploadedVoiceError>>)
        ensures
            match r {
                None => !self.checkable(),
                Some(Ok(_)) => self.checkable() && self.problem(self.verdict_texts()) is None,
                Some(Err(error)) => self.checkable() && self.problem(self.verdict_texts()) == Some(
                    error@,
                ),
            },
    {
        if self.is_checkable() {
            Some(self.validate())
        } else {
            None
        }
    }

    /// How the message describes the voice message.
    pub open spec fn message_info(self) -> AudioInfo {
        AudioInfo {
            duration: Some(self.voice_info.duration),
            size: Some(self.voice_info.size),
            mimetype: Some(self.original_mimetype),
        }
    }

    /// The message shows what the record says.
    pub open spec fn presents(self, message: MessageType) -> bool {
        &&& message matches MessageType::Audio(content)
        &&& content.filename == self.filename
        &&& content.caption is None
        &&& content.formatted_caption is None
        &&& content.source == self.media_source
        &&& content.info == Some(self.message_info())
        &&& content.voice is Some
        &&& content.audio matches Some(audio)
        &&& audio.duration == self.voice_info.duration
        &&& audio.waveform@.len() == self.voice_info.waveform@.len()
        &&& forall|i: int|
            0 <= i < audio.waveform@.len() ==> #[trigger] audio.waveform@[i]
                == amplitude(self.voice_info.waveform@[i])
    }

    /// Turns the record into the message that presents the voice message.
    pub fn into_message_content(self, verdicts: SourceVerdicts) -> (r: Result<
        MessageType,
        UploadedVoiceError,
    >)
        ensures
            match r {
                Ok(message) => {
                    &&& content_problem(None, verdicts@) is None
                    &&& self.presents(message)
                },
                Err(error) => content_problem(None, verdicts@) == Some(error@),
            },
    {
        let source = match ffi_media_source(self.media_source, verdicts.media, "media_source") {
            Ok(source) => source,
            Err(error) => return Err(UploadedVoiceError::from(error)),
        };
        let duration = self.voice_info.duration;
        Ok(
            MessageType::Audio(
                AudioMessageContent {
                    filename: self.filename,
                    caption: None,
                    formatted_caption: None,
                    source,
                    info: Some(
                        AudioInfo {
                        duration: Some(self.voice_info.duration),
                        size: Some(self.voice_info.size),
                        mimetype: Some(self.original_mimetype),
                    },
                    ),
                    audio: Some(
                        UnstableAudioDetailsContent {
                            duration,
                            waveform: scale_voice_waveform(&self.voice_info.waveform),
                        },
                    ),
                    voice: Some(UnstableVoiceContent {  }),
                },
            ),
        )
    }
}

impl UploadedVoice {
    /// What the record says of itself is in order: its head, its numbers and its media types.
    pub open spec fn described_well(self) -> bool {
        &&& self.schema_version == 1
        &&& self.kind@ == "voice"@
        &&& self.filename@.len() > 0
        &&& countable(self.voice_info.size)
        &&& self.voice_info.duration.secs > 0 || self.voice_info.duration.nanos > 0
        &&& (forall|i: int| 0 <= i < self.voice_info.waveform@.len() ==> finite(#[trigger] self.voice_info.waveform@[i]))
        &&& of_family(self.original_mimetype@, "audio"@)
        &&& of_family(self.voice_info.mimetype@, "audio"@)
        &&& self.voice_info.mimetype@ == self.original_mimetype@
    }

    /// The record of a voice message that is in order, apart from where its places are.
    pub open spec fn in_order(self) -> bool {
        &&& self.described_well()
        &&& self.media_source is Encrypted <==> self.is_encrypted
    }

    /// The first thing that is wrong with a record is the one that is named.
    pub open spec fn fault_is_named(self, verdicts: VerdictTexts, error: Option<FailureText>) -> bool {
        let versioned = self.schema_version == 1;
        let of_kind = versioned && self.kind@ == "voice"@;
        let named = of_kind && self.filename@.len() > 0;
        let sized = named && countable(self.voice_info.size);
        let timed = sized && (self.voice_info.duration.secs > 0 || self.voice_info.duration.nanos > 0);
        let heard = timed && (forall|i: int|
            0 <= i < self.voice_info.waveform@.len() ==> finite(#[trigger] self.voice_info.waveform@[i]));
        let typed = heard && of_family(self.original_mimetype@, "audio"@);
        let described = typed && of_family(self.voice_info.mimetype@, "audio"@);
        let matched = described && self.voice_info.mimetype@ == self.original_mimetype@;
        &&& self.schema_version != 1 ==> refused_as(
            error,
            "Unsupported "@ + "UploadedVoice"@ + " schema_version: "@ + decimal(self.schema_version as nat),
        )
        &&& versioned && self.kind@ != "voice"@ ==> refused_as(
            error,
            "Unsupported "@ + "UploadedVoice"@ + " kind: "@ + self.kind@,
        )
        &&& of_kind && self.filename@.len() == 0 ==> refused_as(
            error,
            "UploadedVoice"@ + " filename is empty"@,
        )
        &&& named ==> bad_number_is_named(error, "voice_info.size"@, self.voice_info.size)
        &&& sized && self.voice_info.duration.secs == 0 && self.voice_info.duration.nanos == 0 ==> refused_as(
            error,
            "voice_info.duration"@ + " must be greater than 0"@,
        )
        &&& heard ==> bad_type_is_named(
            error,
            "original_mimetype"@,
            self.original_mimetype@,
            "audio"@,
        )
        &&& typed ==> bad_type_is_named(
            error,
            "voice_info.mimetype"@,
            self.voice_info.mimetype@,
            "audio"@,
        )
        &&& described && self.voice_info.mimetype@ != self.original_mimetype@ ==> refused_as(
            error,
            "UploadedVoice"@ + " "@ + "voice_info.mimetype"@ + " does not match original_mimetype"@,
        )
        &&& matched ==> bad_place_is_named(
            error,
            "media_source"@,
            self.media_source,
            verdicts.media,
            self.is_encrypted,
            "UploadedVoice"@,
        )
    }
}

/// A record is accepted exactly if it is in order and none of its places was refused. Otherwise the
/// first thing that is wrong with it is named.
pub proof fn law_voice_record_must_be_in_order(
    record: UploadedVoice,
    verdicts: SourceVerdicts,
    r: Result<(), UploadedVoiceError>,
)
    requires
        call_ensures(UploadedVoice::validate_with, (&record, &verdicts), r),
    ensures
        r is Ok <==> {
            &&& record.schema_version == 1
            &&& record.kind@ == "voice"@
            &&& record.filename@.len() > 0
            &&& countable(record.voice_info.size)
            &&& record.voice_info.duration.secs > 0 || record.voice_info.duration.nanos > 0
            &&& (forall|i: int| 0 <= i < record.voice_info.waveform@.len() ==> finite(#[trigger] record.voice_info.waveform@[i]))
            &&& of_family(record.original_mimetype@, "audio"@)
            &&& of_family(record.voice_info.mimetype@, "audio"@)
            &&& record.voice_info.mimetype@ == record.original_mimetype@
            &&& record.media_source is Encrypted <==> record.is_encrypted
            &&& verdicts.media is None
        },
        r matches Err(error) ==> record.fault_is_named(verdicts@, Some(error@)),
{
}

/// A record is accepted exactly if it is in order and its places are places of media. Nothing is said
/// of it only where such a place cannot be judged.
pub proof fn law_voice_record_is_checked_against_its_places(
    record: UploadedVoice,
    r: Option<Result<(), UploadedVoiceError>>,
)
    requires
        call_ensures(UploadedVoice::check, (&record,), r),
    ensures
        r matches Some(Ok(_)) ==> {
            &&& record.in_order()
            &&& mxc_problem(record.media_source.location()) is None
        },
        record.in_order() && mxc_problem(record.media_source.location()) is None && mxc_checkable(
            record.media_source.location(),
        ) ==> r matches Some(Ok(_)),
        r is None <==> {
            &&& record.described_well()
            &&& record.media_source is Encrypted <==> record.is_encrypted
            &&& {
                ||| !mxc_checkable(record.media_source.location())
            }
        },
        r matches Some(Err(error)) ==> record.fault_is_named(record.verdict_texts(), Some(error@)),
{
}

/// The message shows the voice message as the record has it: the name, the place, the media type, the
/// size and the length, the mark of a voice message, the waveform scaled sample by sample, and no
/// captions. There is a message exactly if the place was not refused.
pub proof fn law_message_shows_the_recorded_voice(
    record: UploadedVoice,
    verdicts: SourceVerdicts,
    scaled: Vec<u16>,
    r: Result<MessageType, UploadedVoiceError>,
)
    requires
        call_ensures(scale_voice_waveform, (&record.voice_info.waveform,), scaled),
        call_ensures(UploadedVoice::into_message_content, (record, verdicts), r),
    ensures
        r is Ok <==> verdicts.media is None,
        r matches Ok(message) ==> {
            &&& message matches MessageType::Audio(content)
            &&& content.filename == record.filename
            &&& content.source == record.media_source
            &&& content.caption is None
            &&& content.formatted_caption is None
            &&& content.voice is Some
            &&& content.info matches Some(info)
            &&& info.duration == Some(record.voice_info.duration)
            &&& info.size == Some(record.voice_info.size)
            &&& info.mimetype == Some(record.original_mimetype)
            &&& content.audio matches Some(audio)
            &&& audio.duration == record.voice_info.duration
            &&& audio.waveform@ == scaled@
        },
        r matches Err(error) ==> verdicts.media matches Some(debug) && error@ == (
        FailureText::Validation { msg: "Invalid "@ + "media_source"@, details: Some(debug@) }),
{
}

/// The ways to check a record agree: it is checked where it can be, and then with the same outcome.
pub proof fn law_voice_record_is_checked_alike(
    record: UploadedVoice,
    checkable: bool,
    checked: Option<Result<(), UploadedVoiceError>>,
    validated: Result<(), UploadedVoiceError>,
)
    requires
        call_ensures(UploadedVoice::is_checkable, (&record,), checkable),
        call_ensures(UploadedVoice::check, (&record,), checked),
        checkable ==> call_ensures(UploadedVoice::validate, (&record,), validated),
    ensures
        checkable <==> checked is Some,
        checked matches Some(Ok(_)) ==> validated is Ok,
        checked matches Some(Err(error)) ==> (validated matches Err(same) && same@ == error@),
{
}

} // verus!
