//! The queue of events that wait to be sent.

use vstd::prelude::*;

use crate::errors::{foreign_client_error, ClientError, ClientText};
use crate::media::{is_mxc_checkable, mxc_checkable, mxc_problem, source_refusal, MediaSource};
use crate::room::Room;

verus! {

/// How far something has come.
#[derive(Debug, Clone, Copy, PartialEq, Eq, Structural)]
pub struct AbstractProgress {
    pub current: u64,
    pub total: u64,
}

/// An event that waits in the queue.
#[derive(Debug)]
pub struct LocalEcho {
    pub transaction_id: String,
}

/// What the queue reports. `E` is the error of an event that could not be sent.
#[derive(Debug)]
pub enum QueueReport<E> {
    NewLocalEvent(LocalEcho),
    CancelledLocalEvent { transaction_id: String },
    ReplacedLocalEvent { transaction_id: String },
    SendError { transaction_id: String, error: E, is_recoverable: bool },
    RetryEvent { transaction_id: String },
    SentEvent { transaction_id: String, event_id: String },
    MediaUpload {
        related_to: String,
        file: Option<MediaSource>,
        index: u64,
        progress: AbstractProgress,
    },
}

/// What a client hears of the queue. `E` is the error of an event that could not be sent.
#[derive(Debug)]
pub enum RoomSendQueueUpdate<E> {
    /// An event is about to be sent.
    NewLocalEvent { transaction_id: String },
    /// An event was cancelled before it was sent.
    CancelledLocalEvent { transaction_id: String },
    /// The content of an event was replaced.
    ReplacedLocalEvent { transaction_id: String },
    /// An event could not be sent. It stays in the queue. An error that is recoverable disables the
    /// queue; after another the event waits until it is cancelled.
    SendError { transaction_id: String, error: E, is_recoverable: bool },
    /// An event is sent again.
    RetryEvent { transaction_id: String },
    /// An event was sent.
    SentEvent { transaction_id: String, event_id: String },
    /// An upload has come further.
    MediaUpload {
        /// The event that the media is for.
        related_to: String,
        /// Where the file is, once it is uploaded.
        file: Option<MediaSource>,
        /// Which of the event's media it is. A file and its thumbnail count as one.
        index: u64,
        /// How far the file and its thumbnail have come together.
        progress: AbstractProgress,
    },
}

/// Someone who wants to hear of the queue.
pub trait SendQueueListener<E> {
    /// Called with each update.
    fn on_update(&self, update: RoomSendQueueUpdate<E>);
}

impl<E> QueueReport<E> {
    /// The place of a file that is uploaded.
    pub open spec fn file_location(self) -> Option<Seq<char>> {
        match self {
            QueueReport::MediaUpload { file: Some(source), .. } => Some(source.location()),
            _ => None,
        }
    }

    /// What the client hears.
    pub open spec fn told(self) -> RoomSendQueueUpdate<E> {
        match self {
            QueueReport::NewLocalEvent(echo) => RoomSendQueueUpdate::NewLocalEvent {
                transaction_id: echo.transaction_id,
            },
            QueueReport::CancelledLocalEvent { transaction_id } => {
                RoomSendQueueUpdate::CancelledLocalEvent { transaction_id }
            },
            QueueReport::ReplacedLocalEvent { transaction_id } => {
                RoomSendQueueUpdate::ReplacedLocalEvent { transaction_id }
            },
            QueueReport::SendError { transaction_id, error, is_recoverable } => {
                RoomSendQueueUpdate::SendError { transaction_id, error, is_recoverable }
            },
            QueueReport::RetryEvent { transaction_id } => RoomSendQueueUpdate::RetryEvent {
                transaction_id,
            },
            QueueReport::SentEvent { transaction_id, event_id } => RoomSendQueueUpdate::SentEvent {
                transaction_id,
                event_id,
            },
            QueueReport::MediaUpload { related_to, file, index, progress } => {
                RoomSendQueueUpdate::MediaUpload { related_to, file, index, progress }
            },
        }
    }
}

impl<E> RoomSendQueueUpdate<E> {
    /// Tells a client what the queue reports. An upload whose place cannot be used is an error.
    pub fn from_report(value: QueueReport<E>) -> (r: Result<RoomSendQueueUpdate<E>, ClientError>)
        requires
            value.file_location() matches Some(location) ==> mxc_checkable(location),
        ensures
            match r {
                Ok(update) => update == value.told() && (value.file_location() matches Some(location)
                    ==> mxc_problem(location) is None),
                Err(error) => value.file_location() matches Some(location) && mxc_problem(
                    location,
                ) matches Some(problem) && error@ == foreign_client_error(problem),
            },
    {
        match value {
            QueueReport::CancelledLocalEvent { transaction_id } => Ok(
                RoomSendQueueUpdate::CancelledLocalEvent { transaction_id },
            ),
            QueueReport::MediaUpload { related_to, file, index, progress } => {
                let file = match file {
                    Some(source) => match source_refusal(&source) {
                        None => Some(source),
                        Some(error) => return Err(ClientError::from_err(error)),
                    },
                    None => None,
                };
                Ok(RoomSendQueueUpdate::MediaUpload { related_to, file, index, progress })
            },
            QueueReport::NewLocalEvent(echo) => Ok(
                RoomSendQueueUpdate::NewLocalEvent { transaction_id: echo.transaction_id },
            ),
            QueueReport::ReplacedLocalEvent { transaction_id } => Ok(
                RoomSendQueueUpdate::ReplacedLocalEvent { transaction_id },
            ),
            QueueReport::RetryEvent { transaction_id } => Ok(
                RoomSendQueueUpdate::RetryEvent { transaction_id },
            ),
            QueueReport::SendError { transaction_id, error, is_recoverable } => Ok(
                RoomSendQueueUpdate::SendError { transaction_id, error, is_recoverable },
            ),
            QueueReport::SentEvent { transaction_id, event_id } => Ok(
                RoomSendQueueUpdate::SentEvent { transaction_id, event_id },
            ),
        }
    }
}

impl<E> RoomSendQueueUpdate<E> {
    /// Tells a client what the queue reports, unless the place of an upload cannot be judged.
    pub fn tell(value: QueueReport<E>) -> (r: Option<Result<RoomSendQueueUpdate<E>, ClientError>>)
        ensures
            match r {
                None => value.file_location() matches Some(location) && !mxc_checkable(location),
                Some(Ok(update)) => {
                    &&& update == value.told()
                    &&& value.file_location() matches Some(location) ==> mxc_checkable(location)
                        && mxc_problem(location) is None
                },
                Some(Err(error)) => {
                    &&& value.file_location() matches Some(location)
                    &&& mxc_checkable(location)
                    &&& mxc_problem(location) matches Some(problem)
                    &&& error@ == foreign_client_error(problem)
                },
            },
    {
        if let QueueReport::MediaUpload { file: Some(source), .. } = &value {
            if !is_mxc_checkable(source.url()) {
                return None;
            }
        }
        Some(RoomSendQueueUpdate::from_report(value))
    }
}

impl Room {
    /// What a client that begins to listen hears at once: of each event that waits in the queue, in
    /// order, that it is about to be sent.
    pub fn subscribe_to_send_queue_updates<E>(&self, local_echoes: Vec<LocalEcho>) -> (r: Vec<
        RoomSendQueueUpdate<E>,
    >)
        ensures
            r@.len() == local_echoes@.len(),
            forall|i: int|
                0 <= i < r@.len() ==> #[trigger] r@[i] == (RoomSendQueueUpdate::NewLocalEvent::<E> {
                    transaction_id: local_echoes@[i].transaction_id,
                }),
    {
        let ghost all = local_echoes@;
        let mut updates: Vec<RoomSendQueueUpdate<E>> = Vec::new();
        for echo in list: local_echoes
            invariant
                list.seq() == all,
                updates@.len() == list.index(),
                forall|i: int|
                    0 <= i < list.index() ==> #[trigger] updates@[i] == (
                    RoomSendQueueUpdate::NewLocalEvent::<E> {
                        transaction_id: all[i].transaction_id,
                    }),
        {
            updates.push(
                RoomSendQueueUpdate::NewLocalEvent { transaction_id: echo.transaction_id },
            );
        }
        updates
    }
}

/// The update names the event that the report is about: nothing is told under another event's name.
pub proof fn law_update_keeps_the_event<E>(report: QueueReport<E>, update: RoomSendQueueUpdate<E>)
    requires
        update == report.told(),
    ensures
        update.subject() == report.subject(),
{
}

impl<E> QueueReport<E> {
    /// The transaction ID of the event that the report is about.
    pub open spec fn subject(self) -> String {
        match self {
            QueueReport::NewLocalEvent(echo) => echo.transaction_id,
            QueueReport::CancelledLocalEvent { transaction_id } => transaction_id,
            QueueReport::ReplacedLocalEvent { transaction_id } => transaction_id,
            QueueReport::SendError { transaction_id, .. } => transaction_id,
            QueueReport::RetryEvent { transaction_id } => transaction_id,
            QueueReport::SentEvent { transaction_id, .. } => transaction_id,
            QueueReport::MediaUpload { related_to, .. } => related_to,
        }
    }
}

impl<E> RoomSendQueueUpdate<E> {
    /// The transaction ID of the event that the update is about.
    pub open spec fn subject(self) -> String {
        match self {
            RoomSendQueueUpdate::NewLocalEvent { transaction_id } => transaction_id,
            RoomSendQueueUpdate::CancelledLocalEvent { transaction_id } => transaction_id,
            RoomSendQueueUpdate::ReplacedLocalEvent { transaction_id } => transaction_id,
            RoomSendQueueUpdate::SendError { transaction_id, .. } => transaction_id,
            RoomSendQueueUpdate::RetryEvent { transaction_id } => transaction_id,
            RoomSendQueueUpdate::SentEvent { transaction_id, .. } => transaction_id,
            RoomSendQueueUpdate::MediaUpload { related_to, .. } => related_to,
        }
    }
}

/// A client hears what the queue reports, as it is: of the same event, with the same error, the same
/// place and the same progress.
pub proof fn law_report_is_told_as_it_is<E>(report: QueueReport<E>, update: RoomSendQueueUpdate<E>)
    requires
        call_ensures(RoomSendQueueUpdate::<E>::tell, (report,), Some(Ok(update))),
    ensures
        match (report, update) {
            (
                QueueReport::NewLocalEvent(echo),
                RoomSendQueueUpdate::NewLocalEvent { transaction_id },
            ) => transaction_id == echo.transaction_id,
            (
                QueueReport::CancelledLocalEvent { transaction_id },
                RoomSendQueueUpdate::CancelledLocalEvent { transaction_id: told },
            ) => told == transaction_id,
            (
                QueueReport::ReplacedLocalEvent { transaction_id },
                RoomSendQueueUpdate::ReplacedLocalEvent { transaction_id: told },
            ) => told == transaction_id,
            (
                QueueReport::SendError { transaction_id, error, is_recoverable },
                RoomSendQueueUpdate::SendError {
                    transaction_id: told,
                    error: told_error,
                    is_recoverable: told_recoverable,
                },
            ) => {
                &&& told == transaction_id
                &&& told_error == error
                &&& told_recoverable == is_recoverable
            },
            (
                QueueReport::RetryEvent { transaction_id },
                RoomSendQueueUpdate::RetryEvent { transaction_id: told },
            ) => told == transaction_id,
            (
                QueueReport::SentEvent { transaction_id, event_id },
                RoomSendQueueUpdate::SentEvent { transaction_id: told, event_id: told_event },
            ) => told == transaction_id && told_event == event_id,
            (
                QueueReport::MediaUpload { related_to, file, index, progress },
                RoomSendQueueUpdate::MediaUpload {
                    related_to: told,
                    file: told_file,
                    index: told_index,
                    progress: told_progress,
                },
            ) => {
                &&& told == related_to
                &&& told_file == file
                &&& told_index == index
                &&& told_progress.current == progress.current
                &&& told_progress.total == progress.total
            },
            _ => false,
        },
{
}

/// A report is kept from the client only where it is about an upload whose place is no place of media,
/// which is an error, or cannot be judged.
pub proof fn law_only_uploads_in_bad_places_are_not_told<E>(
    report: QueueReport<E>,
    told: Option<Result<RoomSendQueueUpdate<E>, ClientError>>,
)
    requires
        call_ensures(RoomSendQueueUpdate::<E>::tell, (report,), told),
    ensures
        match report {
            QueueReport::MediaUpload { file: Some(source), .. } => {
                &&& told is None <==> !mxc_checkable(source.location())
                &&& told is Some ==> match mxc_problem(source.location()) {
                    None => told->0 is Ok,
                    Some(problem) => told->0 matches Err(error) && error@ == (ClientText::Generic {
                        msg: problem.message,
                        details: Some(problem.debug),
                    }),
                }
            },
            _ => told matches Some(Ok(_)),
        },
{
}

/// A client that begins to listen hears of each event that waits, one for one and in order, that it is
/// about to be sent.
pub proof fn law_waiting_events_are_told_of<E>(
    room: Room,
    local_echoes: Vec<LocalEcho>,
    updates: Vec<RoomSendQueueUpdate<E>>,
    i: int,
)
    requires
        call_ensures(
            Room::subscribe_to_send_queue_updates::<E>,
            (&room, local_echoes),
            updates,
        ),
        0 <= i < local_echoes@.len(),
    ensures
        updates@.len() == local_echoes@.len(),
        updates@[i] matches RoomSendQueueUpdate::NewLocalEvent { transaction_id }
            && transaction_id == local_echoes@[i].transaction_id,
{
}

} // verus!
