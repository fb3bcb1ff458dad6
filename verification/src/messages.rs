//! Messages that a client composes itself.

use vstd::prelude::*;

use crate::errors::{foreign_client_error, ClientError, ClientText, ForeignError, ForeignText};
use crate::ids::{event_id_problem, EventId};
use crate::room::Room;
use crate::sending::{Outgoing, Reply};
use crate::text::join2;

verus! {

/// Why a text is not JSON: what `serde_json::from_str` reports of it when it reads any value, or
/// nothing where the text is accepted.
pub uninterp spec fn json_problem(text: Seq<char>) -> Option<ForeignText>;

/// `serde_json::from_str`, asked for any value: it reports one problem, which depends on the text
/// alone, or none.
#[verifier::external_body]
fn serde_json_check(text: &str) -> (r: Option<ForeignError>)
    ensures
        match r {
            Some(error) => json_problem(text@) == Some(error@),
            None => json_problem(text@) is None,
        },
{
    match serde_json::from_str::<serde_json::Value>(text) {
        Ok(_) => None,
        Err(error) => Some(
            ForeignError { message: error.to_string(), debug: format!("{error:?}") },
        ),
    }
}

/// The error that reports content that is not JSON.
pub open spec fn content_refusal(problem: ForeignText) -> ClientText {
    ClientText::Generic {
        msg: "Failed to parse JSON: "@ + problem.message,
        details: Some(problem.debug),
    }
}

/// Refuses content, given why it is not JSON.
pub fn refuse_content(problem: Option<ForeignError>) -> (r: Result<(), ClientError>)
    ensures
        match (r, problem) {
            (Ok(_), None) => true,
            (Err(error), Some(problem)) => error@ == content_refusal(problem@),
            _ => false,
        },
{
    match problem {
        None => Ok(()),
        Some(error) => Err(
            ClientError::Generic {
                msg: join2("Failed to parse JSON: ", error.message.as_str()),
                details: Some(error.debug),
            },
        ),
    }
}

fn require_json(content: &str) -> (r: Result<(), ClientError>)
    ensures
        match r {
            Ok(_) => json_problem(content@) is None,
            Err(error) => json_problem(content@) matches Some(problem) && error@ == content_refusal(
                problem,
            ),
        },
{
    refuse_content(serde_json_check(content))
}

/// An event to send as it is. Its content is JSON.
#[derive(Debug)]
pub struct RawMessage {
    pub event_type: String,
    pub content: String,
    pub transaction_id: Option<String>,
}

/// A state event to send as it is. Its content is JSON.
#[derive(Debug)]
pub struct RawStateEvent {
    pub event_type: String,
    pub state_key: String,
    pub content: String,
}

/// An event to redact.
#[derive(Debug)]
pub struct Redaction {
    pub event_id: EventId,
    pub reason: Option<String>,
    pub transaction_id: Option<String>,
}

/// An event to report to the server.
#[derive(Debug)]
pub struct ContentReport {
    pub event_id: EventId,
    pub reason: Option<String>,
}

/// What to do next with a message.
#[derive(Debug)]
pub enum MessageStep<M, T> {
    /// Build a reply around the message.
    MakeReply { message: M, reply: Reply, next: MessageReply },
    /// Send the message under the transaction ID, and report the ID of the event.
    Send { content: Outgoing<M, T>, transaction_id: String },
    /// Nothing: the message cannot be sent.
    Failed { error: ClientError },
}

/// The sending goes on once the reply was built.
#[derive(Debug)]
pub struct MessageReply {
    pub transaction_id: String,
}

impl<M, T> MessageStep<M, T> {
    /// The message cannot be sent.
    pub open spec fn fails(self, problem: ClientText) -> bool {
        self matches MessageStep::Failed { error } && error@ == problem
    }
}

impl MessageReply {
    /// Goes on with the reply, or with the error that says why it could not be built.
    pub fn answer<M, T>(self, made: Result<T, ForeignError>) -> (r: MessageStep<M, T>)
        ensures
            match made {
                Ok(reply) => r == (MessageStep::Send::<M, T> {
                    content: Outgoing::Reply(reply),
                    transaction_id: self.transaction_id,
                }),
                Err(error) => r.fails(foreign_client_error(error@)),
            },
    {
        match made {
            Ok(reply) => MessageStep::Send {
                content: Outgoing::Reply(reply),
                transaction_id: self.transaction_id,
            },
            Err(error) => MessageStep::Failed { error: ClientError::from_err(error) },
        }
    }
}

impl Room {
    /// Sends an event as it is.
    pub fn send_raw(&self, event_type: String, content: String) -> (r: Result<
        RawMessage,
        ClientError,
    >)
        ensures
            match r {
                Ok(message) => json_problem(content@) is None && message == (RawMessage {
                    event_type,
                    content,
                    transaction_id: None,
                }),
                Err(error) => json_problem(content@) matches Some(problem) && error@
                    == content_refusal(problem),
            },
    {
        require_json(content.as_str())?;
        Ok(RawMessage { event_type, content, transaction_id: None })
    }

    /// Sends an event as it is, under a transaction ID.
    pub fn send_raw_with_transaction_id(
        &self,
        event_type: String,
        content: String,
        transaction_id: String,
    ) -> (r: Result<RawMessage, ClientError>)
        ensures
            match r {
                Ok(message) => json_problem(content@) is None && message == (RawMessage {
                    event_type,
                    content,
                    transaction_id: Some(transaction_id),
                }),
                Err(error) => json_problem(content@) matches Some(problem) && error@
                    == content_refusal(problem),
            },
    {
        require_json(content.as_str())?;
        Ok(RawMessage { event_type, content, transaction_id: Some(transaction_id) })
    }

    /// Sends an event as it is, under a transaction ID; the ID of the event is reported.
    pub fn send_raw_with_transaction_id_returning_event_id(
        &self,
        event_type: String,
        content: String,
        transaction_id: String,
    ) -> (r: Result<RawMessage, ClientError>)
        ensures
            match r {
                Ok(message) => json_problem(content@) is None && message == (RawMessage {
                    event_type,
                    content,
                    transaction_id: Some(transaction_id),
                }),
                Err(error) => json_problem(content@) matches Some(problem) && error@
                    == content_refusal(problem),
            },
    {
        require_json(content.as_str())?;
        Ok(RawMessage { event_type, content, transaction_id: Some(transaction_id) })
    }

    /// Sends a state event as it is.
    pub fn send_state_event_raw(
        &self,
        event_type: String,
        state_key: String,
        content: String,
    ) -> (r: Result<RawStateEvent, ClientError>)
        ensures
            match r {
                Ok(event) => json_problem(content@) is None && event == (RawStateEvent {
                    event_type,
                    state_key,
                    content,
                }),
                Err(error) => json_problem(content@) matches Some(problem) && error@
                    == content_refusal(problem),
            },
    {
        require_json(content.as_str())?;
        Ok(RawStateEvent { event_type, state_key, content })
    }

    /// Sends a message under a transaction ID, as a reply if there is an event to answer. A message
    /// that could not be built fails first.
    pub fn send_message_type_with_transaction_id_returning_event_id<M, T>(
        &self,
        message: Result<M, ClientError>,
        transaction_id: String,
        reply_event_id: Option<String>,
    ) -> (r: MessageStep<M, T>)
        ensures
            match (message, reply_event_id) {
                (Err(error), _) => r.fails(error@),
                (Ok(message), None) => r == (MessageStep::Send::<M, T> {
                    content: Outgoing::Message(message),
                    transaction_id,
                }),
                (Ok(message), Some(event_id)) => match event_id_problem(event_id@) {
                    Some(problem) => r.fails(foreign_client_error(problem)),
                    None => {
                        &&& r matches MessageStep::MakeReply { message: around, reply, next }
                        &&& around == message
                        &&& reply.answers(event_id@)
                        &&& next.transaction_id == transaction_id
                    },
                },
            },
    {
        let message = match message {
            Ok(message) => message,
            Err(error) => return MessageStep::Failed { error },
        };
        match reply_event_id {
            None => MessageStep::Send { content: Outgoing::Message(message), transaction_id },
            Some(event_id) => match EventId::request(event_id.as_str()) {
                Err(error) => MessageStep::Failed { error },
                Ok(event_id) => MessageStep::MakeReply {
                    message,
                    reply: Reply::to(event_id),
                    next: MessageReply { transaction_id },
                },
            },
        }
    }

    /// Redacts an event.
    pub fn redact(&self, event_id: String, reason: Option<String>) -> (r: Result<
        Redaction,
        ClientError,
    >)
        ensures
            match r {
                Ok(redaction) => {
                    &&& event_id_problem(event_id@) is None
                    &&& redaction.event_id@ == event_id@
                    &&& redaction.reason == reason
                    &&& redaction.transaction_id is None
                },
                Err(error) => event_id_problem(event_id@) matches Some(problem) && error@
                    == foreign_client_error(problem),
            },
    {
        let event_id = EventId::request(event_id.as_str())?;
        Ok(Redaction { event_id, reason, transaction_id: None })
    }

    /// Redacts an event under a transaction ID; the ID of the redaction is reported.
    pub fn redact_with_transaction_id_returning_event_id(
        &self,
        event_id: String,
        reason: Option<String>,
        transaction_id: String,
    ) -> (r: Result<Redaction, ClientError>)
        ensures
            match r {
                Ok(redaction) => {
                    &&& event_id_problem(event_id@) is None
                    &&& redaction.event_id@ == event_id@
                    &&& redaction.reason == reason
                    &&& redaction.transaction_id == Some(transaction_id)
                },
                Err(error) => event_id_problem(event_id@) matches Some(problem) && error@
                    == foreign_client_error(problem),
            },
    {
        let event_id = EventId::request(event_id.as_str())?;
        Ok(Redaction { event_id, reason, transaction_id: Some(transaction_id) })
    }

    /// Reports an event to the server.
    pub fn report_content(&self, event_id: String, reason: Option<String>) -> (r: Result<
        ContentReport,
        ClientError,
    >)
        ensures
            match r {
                Ok(report) => {
                    &&& event_id_problem(event_id@) is None
                    &&& report.event_id@ == event_id@
                    &&& report.reason == reason
                },
                Err(error) => event_id_problem(event_id@) matches Some(problem) && error@
                    == foreign_client_error(problem),
            },
    {
        let event_id = EventId::request(event_id.as_str())?;
        Ok(ContentReport { event_id, reason })
    }
}

/// An event goes out as it is exactly if its content is JSON: its type and its content are those that
/// were given, under the transaction ID that was given, if any. Otherwise the error says why the
/// content is not JSON.
pub proof fn law_raw_events_go_out_as_they_are(
    room: Room,
    event_type: String,
    content: String,
    transaction_id: String,
    plain: Result<RawMessage, ClientError>,
    named: Result<RawMessage, ClientError>,
    reported: Result<RawMessage, ClientError>,
)
    requires
        call_ensures(Room::send_raw, (&room, event_type, content), plain),
        call_ensures(
            Room::send_raw_with_transaction_id,
            (&room, event_type, content, transaction_id),
            named,
        ),
        call_ensures(
            Room::send_raw_with_transaction_id_returning_event_id,
            (&room, event_type, content, transaction_id),
            reported,
        ),
    ensures
        match json_problem(content@) {
            None => {
                &&& plain matches Ok(message) && message.event_type == event_type && message.content
                    == content && message.transaction_id is None
                &&& named matches Ok(message) && message.event_type == event_type && message.content
                    == content && message.transaction_id == Some(transaction_id)
                &&& reported matches Ok(message) && message.event_type == event_type
                    && message.content == content && message.transaction_id == Some(transaction_id)
            },
            Some(problem) => {
                let refused = ClientText::Generic {
                    msg: "Failed to parse JSON: "@ + problem.message,
                    details: Some(problem.debug),
                };
                &&& plain matches Err(error) && error@ == refused
                &&& named matches Err(error) && error@ == refused
                &&& reported matches Err(error) && error@ == refused
            },
        },
{
}

/// A state event goes out as it is exactly if its content is JSON.
pub proof fn law_raw_state_events_go_out_as_they_are(
    room: Room,
    event_type: String,
    state_key: String,
    content: String,
    r: Result<RawStateEvent, ClientError>,
)
    requires
        call_ensures(Room::send_state_event_raw, (&room, event_type, state_key, content), r),
    ensures
        match json_problem(content@) {
            None => {
                &&& r matches Ok(event)
                &&& event.event_type == event_type
                &&& event.state_key == state_key
                &&& event.content == content
            },
            Some(problem) => r matches Err(error) && error@ == (ClientText::Generic {
                msg: "Failed to parse JSON: "@ + problem.message,
                details: Some(problem.debug),
            }),
        },
{
}

/// A message goes out as it is under its transaction ID, or a reply to the named event is built around
/// it first, which stays in the event's thread and mentions its sender. A message that could not be
/// built fails with its own error, and a name that is no event ID with what is wrong with it.
pub proof fn law_message_goes_out_or_answers<M, T>(
    room: Room,
    message: Result<M, ClientError>,
    transaction_id: String,
    reply_event_id: Option<String>,
    step: MessageStep<M, T>,
)
    requires
        call_ensures(
            Room::send_message_type_with_transaction_id_returning_event_id::<M, T>,
            (&room, message, transaction_id, reply_event_id),
            step,
        ),
    ensures
        match message {
            Err(problem) => step matches MessageStep::Failed { error } && error@ == problem@,
            Ok(message) => match reply_event_id {
                None => {
                    &&& step matches MessageStep::Send {
                        content: Outgoing::Message(sent),
                        transaction_id: id,
                    }
                    &&& sent == message
                    &&& id == transaction_id
                },
                Some(event_id) => match event_id_problem(event_id@) {
                    Some(problem) => step matches MessageStep::Failed { error } && error@ == (
                    ClientText::Generic { msg: problem.message, details: Some(problem.debug) }),
                    None => {
                        &&& step matches MessageStep::MakeReply { message: around, reply, next }
                        &&& around == message
                        &&& reply.event_id@ == event_id@
                        &&& reply.enforce_thread is MaybeThreaded
                        &&& reply.add_mentions is Yes
                        &&& next.transaction_id == transaction_id
                    },
                },
            },
        },
{
}

/// A reply that was built goes out as it is, under the transaction ID that the message was given; one
/// that could not be built fails with the reason.
pub proof fn law_built_reply_goes_out<M, T>(
    request: MessageReply,
    made: Result<T, ForeignError>,
    step: MessageStep<M, T>,
)
    requires
        call_ensures(MessageReply::answer::<M, T>, (request, made), step),
    ensures
        match made {
            Ok(reply) => {
                &&& step matches MessageStep::Send { content: Outgoing::Reply(sent), transaction_id }
                &&& sent == reply
                &&& transaction_id == request.transaction_id
            },
            Err(problem) => step matches MessageStep::Failed { error } && error@ == (
            ClientText::Generic { msg: problem.message@, details: Some(problem.debug@) }),
        },
{
}

/// The event that is redacted or reported is the one that was named, for the reason that was given,
/// and a redaction goes out under the transaction ID that was given, if any. A name that is no event
/// ID is refused with what is wrong with it.
pub proof fn law_named_event_is_redacted_or_reported(
    room: Room,
    event_id: String,
    reason: Option<String>,
    transaction_id: String,
    redacted: Result<Redaction, ClientError>,
    named: Result<Redaction, ClientError>,
    reported: Result<ContentReport, ClientError>,
)
    requires
        call_ensures(Room::redact, (&room, event_id, reason), redacted),
        call_ensures(
            Room::redact_with_transaction_id_returning_event_id,
            (&room, event_id, reason, transaction_id),
            named,
        ),
        call_ensures(Room::report_content, (&room, event_id, reason), reported),
    ensures
        match event_id_problem(event_id@) {
            None => {
                &&& redacted matches Ok(redaction) && redaction.event_id@ == event_id@
                    && redaction.reason == reason && redaction.transaction_id is None
                &&& named matches Ok(redaction) && redaction.event_id@ == event_id@
                    && redaction.reason == reason && redaction.transaction_id == Some(
                    transaction_id,
                )
                &&& reported matches Ok(report) && report.event_id@ == event_id@ && report.reason
                    == reason
            },
            Some(problem) => {
                let refused = ClientText::Generic {
                    msg: problem.message,
                    details: Some(problem.debug),
                };
                &&& redacted matches Err(error) && error@ == refused
                &&& named matches Err(error) && error@ == refused
                &&& reported matches Err(error) && error@ == refused
            },
        },
{
}

} // verus!
