//! Events as they come from the server.

use vstd::prelude::*;

use crate::errors::{foreign_client_error, ClientError, ClientText, ForeignError, ForeignText};
use crate::ids::{event_id_problem, EventId};
use crate::numbers::{protocol_uint, MAX_PROTOCOL_INT};
use crate::room::Room;
use crate::text::{decimal, decimal_text, join2, same_text, texts};

verus! {

/// Why a device cannot be tied to the sender of an event.
#[derive(Debug, Clone, Copy, PartialEq, Eq, Structural)]
pub enum DeviceLinkProblem {
    MissingDevice,
    InsecureSource,
}

/// How far an event falls short of being verified.
#[derive(Debug, Clone, Copy, PartialEq, Eq, Structural)]
pub enum VerificationLevel {
    UnverifiedIdentity,
    VerificationViolation,
    UnsignedDevice,
    Unlinked(DeviceLinkProblem),
    MismatchedSender,
}

/// Whether the sender of an event is verified.
#[derive(Debug, Clone, Copy, PartialEq, Eq, Structural)]
pub enum VerificationState {
    Verified,
    Unverified(VerificationLevel),
}

/// How an event was encrypted.
#[derive(Debug)]
pub enum AlgorithmInfo {
    MegolmV1AesSha2 {
        curve25519_key: String,
        /// The keys that the sender claims, each after the name of its algorithm.
        sender_claimed_keys: Vec<(String, String)>,
        session_id: Option<String>,
    },
    OlmV1Curve25519AesSha2 { curve25519_public_key_base64: String },
}

/// Who passed the key of an event on.
#[derive(Debug)]
pub struct ForwarderInfo {
    pub user_id: String,
    pub device_id: String,
}

/// How an event was encrypted, and by whom.
#[derive(Debug)]
pub struct EncryptionInfo {
    pub sender: String,
    pub sender_device: Option<String>,
    pub forwarder: Option<ForwarderInfo>,
    pub algorithm_info: AlgorithmInfo,
    pub verification_state: VerificationState,
}

impl AlgorithmInfo {
    /// The key of the sender.
    pub open spec fn sender_key(self) -> String {
        match self {
            AlgorithmInfo::MegolmV1AesSha2 { curve25519_key, .. } => curve25519_key,
            AlgorithmInfo::OlmV1Curve25519AesSha2 { curve25519_public_key_base64 } => {
                curve25519_public_key_base64
            },
        }
    }
}

/// What a client is told of the encryption of an event.
#[derive(Debug, Clone)]
pub struct RawRoomEventEncryptionInfo {
    pub sender: String,
    pub sender_device: Option<String>,
    pub sender_curve25519_key_base64: Option<String>,
    pub sender_verified: bool,
}

/// What a client is told of an event's encryption.
pub open spec fn told_of(info: EncryptionInfo) -> RawRoomEventEncryptionInfo {
    RawRoomEventEncryptionInfo {
        sender: info.sender,
        sender_device: info.sender_device,
        sender_curve25519_key_base64: Some(info.algorithm_info.sender_key()),
        sender_verified: info.verification_state == VerificationState::Verified,
    }
}

impl<'a> From<&'a EncryptionInfo> for RawRoomEventEncryptionInfo {
    fn from(value: &'a EncryptionInfo) -> (r: Self) {
        let key = match &value.algorithm_info {
            AlgorithmInfo::MegolmV1AesSha2 { curve25519_key, .. } => curve25519_key.clone(),
            AlgorithmInfo::OlmV1Curve25519AesSha2 { curve25519_public_key_base64 } => {
                curve25519_public_key_base64.clone()
            },
        };
        let sender_device = match &value.sender_device {
            Some(device) => Some(device.clone()),
            None => None,
        };
        RawRoomEventEncryptionInfo {
            sender: value.sender.clone(),
            sender_device,
            sender_curve25519_key_base64: Some(key),
            sender_verified: match value.verification_state {
                VerificationState::Verified => true,
                VerificationState::Unverified(_) => false,
            },
        }
    }
}

impl<'a> vstd::std_specs::convert::FromSpecImpl<&'a EncryptionInfo> for RawRoomEventEncryptionInfo {
    open spec fn obeys_from_spec() -> bool {
        true
    }

    open spec fn from_spec(value: &'a EncryptionInfo) -> Self {
        told_of(*value)
    }
}

/// An event as it came from the server.
#[derive(Debug, Clone)]
pub struct RawRoomEvent {
    pub room_id: String,
    pub event_type: String,
    pub event_id: Option<String>,
    pub sender: Option<String>,
    pub origin_server_ts_ms: Option<u64>,
    pub content_json: String,
    pub raw_json: String,
    pub encryption_info: Option<RawRoomEventEncryptionInfo>,
}

/// Someone who wants to hear of events.
pub trait RawRoomEventListener {
    /// Called with each event.
    fn on_event(&self, event: RawRoomEvent);
}

/// What was read out of the JSON of an event.
#[derive(Debug)]
pub struct RawRoomEventDetails {
    pub event_type: String,
    pub event_id: Option<String>,
    pub sender: Option<String>,
    pub origin_server_ts: Option<u64>,
    /// The content, as JSON of its own.
    pub content_json: String,
}

impl RawRoomEvent {
    /// The event holds what was read out of its JSON, next to the JSON itself.
    pub open spec fn holds(
        self,
        room_id: Seq<char>,
        json: Seq<char>,
        details: RawRoomEventDetails,
        info: Option<RawRoomEventEncryptionInfo>,
    ) -> bool {
        &&& self.room_id@ == room_id
        &&& self.event_type == details.event_type
        &&& self.event_id == details.event_id
        &&& self.sender == details.sender
        &&& self.origin_server_ts_ms == details.origin_server_ts
        &&& self.content_json == details.content_json
        &&& self.raw_json@ == json
        &&& self.encryption_info == info
    }
}

/// Builds an event from what was read out of its JSON, if it could be read.
pub fn raw_room_event_from_raw_json(
    room_id: String,
    raw_json: &str,
    details: Result<RawRoomEventDetails, ForeignError>,
    encryption_info: Option<RawRoomEventEncryptionInfo>,
) -> (r: Result<RawRoomEvent, ForeignError>)
    ensures
        match (r, details) {
            (Ok(event), Ok(details)) => event.holds(
                room_id@,
                raw_json@,
                details,
                encryption_info,
            ),
            (Err(error), Err(problem)) => error == problem,
            _ => false,
        },
{
    let details = details?;
    Ok(
        RawRoomEvent {
            room_id,
            event_type: details.event_type,
            event_id: details.event_id,
            sender: details.sender,
            origin_server_ts_ms: details.origin_server_ts,
            content_json: details.content_json,
            raw_json: raw_json.to_owned(),
            encryption_info,
        },
    )
}

/// What `ruma::serde::Raw::get_field` finds in the JSON of an event when it looks for a text: the
/// text, nothing, or a problem.
pub uninterp spec fn text_field(json: Seq<char>, field: Seq<char>) -> Result<
    Option<Seq<char>>,
    ForeignText,
>;

/// The texts of a field that was looked for.
pub open spec fn field_text(found: Result<Option<String>, ForeignError>) -> Result<
    Option<Seq<char>>,
    ForeignText,
> {
    match found {
        Ok(Some(text)) => Ok(Some(text@)),
        Ok(None) => Ok(None),
        Err(error) => Err(error@),
    }
}

/// `ruma::serde::Raw::get_field` on an event with the given JSON, asked for a text. What it finds
/// depends on the JSON and on the name of the field alone; a text that is not JSON is a problem as
/// well.
#[verifier::external_body]
fn ruma_text_field(json: &str, field: &str) -> (r: Result<Option<String>, ForeignError>)
    ensures
        field_text(r) == text_field(json@, field@),
{
    let raw = match ruma::serde::Raw::<serde_json::Value>::from_json_string(json.to_owned()) {
        Ok(raw) => raw,
        Err(error) => {
            return Err(ForeignError { message: error.to_string(), debug: format!("{error:?}") });
        },
    };
    match raw.get_field::<String>(field) {
        Ok(found) => Ok(found),
        Err(error) => Err(ForeignError { message: error.to_string(), debug: format!("{error:?}") }),
    }
}

/// A client that listens for events of some types.
#[derive(Debug)]
pub struct RawEventSubscription {
    pub room_id: String,
    pub event_types: Vec<String>,
}

impl RawEventSubscription {
    /// Whether events of a type are wanted. An event whose type is missing, or could not be read, is
    /// not.
    pub open spec fn admits(self, found: Result<Option<Seq<char>>, ForeignText>) -> bool {
        found matches Ok(Some(event_type)) && texts(self.event_types@).contains(event_type)
    }

    /// Whether an event is wanted, given the type that was found in it.
    pub fn wants_type(&self, found: Result<Option<String>, ForeignError>) -> (r: bool)
        ensures
            r == self.admits(field_text(found)),
    {
        let event_type = match found {
            Ok(Some(event_type)) => event_type,
            Ok(None) => return false,
            Err(_) => return false,
        };
        let mut i: usize = 0;
        while i < self.event_types.len()
            invariant
                i <= self.event_types@.len(),
                field_text(found) == Ok::<Option<Seq<char>>, ForeignText>(Some(event_type@)),
                forall|j: int| 0 <= j < i ==> (#[trigger] self.event_types@[j])@ != event_type@,
            decreases self.event_types@.len() - i,
        {
            if same_text(self.event_types[i].as_str(), event_type.as_str()) {
                assert(texts(self.event_types@)[i as int] == event_type@);
                return true;
            }
            i = i + 1;
        }
        assert(!texts(self.event_types@).contains(event_type@)) by {
            if texts(self.event_types@).contains(event_type@) {
                let j = choose|j: int|
                    0 <= j < texts(self.event_types@).len() && texts(self.event_types@)[j]
                        == event_type@;
                assert(self.event_types@[j]@ == event_type@);
            }
        }
        false
    }

    /// Whether an event is wanted.
    pub fn wants(&self, raw_json: &str) -> (r: bool)
        ensures
            r == self.admits(text_field(raw_json@, "type"@)),
    {
        self.wants_type(ruma_text_field(raw_json, "type"))
    }

    /// The event that the listener hears of, given what was read out of its JSON and how it was
    /// encrypted: an event that is not wanted, or could not be read, is passed over.
    pub fn receive(
        &self,
        raw_json: &str,
        details: Result<RawRoomEventDetails, ForeignError>,
        encryption_info: Option<EncryptionInfo>,
    ) -> (r: Option<RawRoomEvent>)
        ensures
            r is Some <==> self.admits(text_field(raw_json@, "type"@)) && details is Ok,
            r matches Some(event) ==> (details matches Ok(read) && event.holds(
                self.room_id@,
                raw_json@,
                read,
                told(encryption_info),
            )),
    {
        if !self.wants(raw_json) {
            return None;
        }
        let info = tell(&encryption_info);
        match raw_room_event_from_raw_json(self.room_id.clone(), raw_json, details, info) {
            Ok(event) => Some(event),
            Err(_) => None,
        }
    }
}

/// What a client is told of the encryption of an event that may not be encrypted.
pub open spec fn told(info: Option<EncryptionInfo>) -> Option<RawRoomEventEncryptionInfo> {
    match info {
        Some(info) => Some(told_of(info)),
        None => None,
    }
}

fn tell(info: &Option<EncryptionInfo>) -> (r: Option<RawRoomEventEncryptionInfo>)
    ensures
        r == told(*info),
{
    match info {
        Some(info) => Some(RawRoomEventEncryptionInfo::from(info)),
        None => None,
    }
}

/// Which end a list of related events is read from.
#[derive(Debug, Clone, Copy, PartialEq, Eq, Structural)]
pub enum RawRoomRelationsDirection {
    Backward,
    Forward,
}

/// Which way the server goes through events.
#[derive(Debug, Clone, Copy, PartialEq, Eq, Structural)]
pub enum Direction {
    Backward,
    Forward,
}

impl From<RawRoomRelationsDirection> for Direction {
    fn from(value: RawRoomRelationsDirection) -> (r: Self) {
        match value {
            RawRoomRelationsDirection::Backward => Direction::Backward,
            RawRoomRelationsDirection::Forward => Direction::Forward,
        }
    }
}

impl vstd::std_specs::convert::FromSpecImpl<RawRoomRelationsDirection> for Direction {
    open spec fn obeys_from_spec() -> bool {
        true
    }

    open spec fn from_spec(value: RawRoomRelationsDirection) -> Self {
        direction_of(value)
    }
}

/// The way that starts from an end.
pub open spec fn direction_of(direction: RawRoomRelationsDirection) -> Direction {
    match direction {
        RawRoomRelationsDirection::Backward => Direction::Backward,
        RawRoomRelationsDirection::Forward => Direction::Forward,
    }
}

/// Which related events a client asks for.
#[derive(Debug, Clone)]
pub struct RawRoomRelationsOptions {
    pub relation_type: Option<String>,
    pub event_type: Option<String>,
    pub from: Option<String>,
    pub limit: Option<u64>,
    pub direction: RawRoomRelationsDirection,
    pub recurse: bool,
}

/// Related events.
#[derive(Debug, Clone)]
pub struct RawRoomRelations {
    pub chunk: Vec<RawRoomEvent>,
    pub prev_batch_token: Option<String>,
    pub next_batch_token: Option<String>,
    pub recursion_depth: Option<u64>,
}

/// Which relations count.
#[derive(Debug)]
pub enum IncludeRelations {
    AllRelations,
    /// Those of a type.
    RelationsOfType(String),
    /// Those of a type, from events of a type.
    RelationsOfTypeAndEventType(String, String),
}

/// What the server is asked for.
#[derive(Debug)]
pub struct RelationsOptions {
    pub from: Option<String>,
    pub dir: Direction,
    pub limit: Option<u64>,
    pub include_relations: IncludeRelations,
    pub recurse: bool,
}

/// A question to the server after the events that are related to one.
#[derive(Debug)]
pub struct RelationsRequest {
    pub event_id: EventId,
    pub options: RelationsOptions,
}

/// A related event that the server sent.
#[derive(Debug)]
pub struct RelatedEvent {
    pub raw_json: String,
    /// What was read out of the JSON.
    pub details: Result<RawRoomEventDetails, ForeignError>,
    pub encryption_info: Option<EncryptionInfo>,
}

/// The related events that the server sent.
#[derive(Debug)]
pub struct RelationsReply {
    pub chunk: Vec<RelatedEvent>,
    pub prev_batch_token: Option<String>,
    pub next_batch_token: Option<String>,
    pub recursion_depth: Option<u64>,
}

/// Why related events cannot be asked for.
pub open spec fn relations_problem(event_id: Seq<char>, options: RawRoomRelationsOptions) -> Option<
    ClientText,
> {
    match (event_id_problem(event_id), options.relation_type, options.event_type, options.limit) {
        (Some(problem), _, _, _) => Some(foreign_client_error(problem)),
        (None, None, Some(event_type), _) => Some(
            ClientText::Generic {
                msg: "event_type requires relation_type when querying room relations"@,
                details: Some("event_type="@ + event_type@),
            },
        ),
        (None, _, _, Some(limit)) => if limit > MAX_PROTOCOL_INT {
            Some(
                ClientText::Generic {
                    msg: "relations limit is too large"@,
                    details: Some("limit="@ + decimal(limit as nat)),
                },
            )
        } else {
            None
        },
        _ => None,
    }
}

/// The relations that a client asks for.
pub open spec fn asked_relations(options: RawRoomRelationsOptions) -> IncludeRelations {
    match (options.relation_type, options.event_type) {
        (Some(relation_type), Some(event_type)) => IncludeRelations::RelationsOfTypeAndEventType(
            relation_type,
            event_type,
        ),
        (Some(relation_type), None) => IncludeRelations::RelationsOfType(relation_type),
        (None, _) => IncludeRelations::AllRelations,
    }
}

impl Room {
    /// Begins to listen for events of the given types.
    pub fn subscribe_to_raw_timeline_events(&self, event_types: Vec<String>) -> (r:
        RawEventSubscription)
        ensures
            r.room_id == self.room_id,
            r.event_types == event_types,
    {
        RawEventSubscription { room_id: self.room_id.clone(), event_types }
    }

    /// Asks for the events that are related to one.
    pub fn get_event_relations(&self, event_id: String, options: RawRoomRelationsOptions) -> (r:
        Result<RelationsRequest, ClientError>)
        ensures
            match r {
                Ok(request) => {
                    &&& relations_problem(event_id@, options) is None
                    &&& request.event_id@ == event_id@
                    &&& request.options == (RelationsOptions {
                        from: options.from,
                        dir: direction_of(options.direction),
                        limit: options.limit,
                        include_relations: asked_relations(options),
                        recurse: options.recurse,
                    })
                },
                Err(error) => relations_problem(event_id@, options) == Some(error@),
            },
    {
        let event_id = EventId::request(event_id.as_str())?;
        let include_relations = match (options.relation_type, options.event_type) {
            (None, None) => IncludeRelations::AllRelations,
            (Some(relation_type), None) => IncludeRelations::RelationsOfType(relation_type),
            (Some(relation_type), Some(event_type)) => {
                IncludeRelations::RelationsOfTypeAndEventType(relation_type, event_type)
            },
            (None, Some(event_type)) => {
                return Err(
                    ClientError::Generic {
                        msg: "event_type requires relation_type when querying room relations".to_owned(),
                        details: Some(join2("event_type=", event_type.as_str())),
                    },
                );
            },
        };
        let limit: Option<u64> = match options.limit {
            None => None,
            Some(limit) => match protocol_uint(limit) {
                Some(limit) => Some(limit),
                None => {
                    let limit = decimal_text(limit);
                    return Err(
                        ClientError::Generic {
                            msg: "relations limit is too large".to_owned(),
                            details: Some(join2("limit=", limit.as_str())),
                        },
                    );
                },
            },
        };
        Ok(
            RelationsRequest {
                event_id,
                options: RelationsOptions {
                    from: options.from,
                    dir: Direction::from(options.direction),
                    limit,
                    include_relations,
                    recurse: options.recurse,
                },
            },
        )
    }

    /// Hands the related events that the server sent on to the client, in their order. The first
    /// event that could not be read spoils them all.
    pub fn relations_from_reply(&self, reply: RelationsReply) -> (r: Result<
        RawRoomRelations,
        ClientError,
    >)
        ensures
            match r {
                Ok(relations) => {
                    &&& relations.chunk@.len() == reply.chunk@.len()
                    &&& forall|i: int|
                        0 <= i < reply.chunk@.len() ==> (reply.chunk@[i].details matches Ok(details)
                            && (#[trigger] relations.chunk@[i]).holds(
                            self.room_id@,
                            reply.chunk@[i].raw_json@,
                            details,
                            told(reply.chunk@[i].encryption_info),
                        ))
                    &&& relations.prev_batch_token == reply.prev_batch_token
                    &&& relations.next_batch_token == reply.next_batch_token
                    &&& relations.recursion_depth == reply.recursion_depth
                },
                Err(error) => exists|i: int|
                    #![trigger reply.chunk@[i]]
                    0 <= i < reply.chunk@.len() && (forall|j: int|
                        0 <= j < i ==> (#[trigger] reply.chunk@[j]).details is Ok) && (
                    reply.chunk@[i].details matches Err(problem) && error@ == foreign_client_error(
                        problem@,
                    )),
            },
    {
        let ghost all = reply.chunk@;
        let mut chunk: Vec<RawRoomEvent> = Vec::new();
        for event in events: reply.chunk
            invariant
                events.seq() == all,
                chunk@.len() == events.index(),
                forall|j: int| 0 <= j < events.index() ==> (#[trigger] all[j]).details is Ok,
                forall|j: int|
                    0 <= j < events.index() ==> (all[j].details matches Ok(details) && (
                    #[trigger] chunk@[j]).holds(
                        self.room_id@,
                        all[j].raw_json@,
                        details,
                        told(all[j].encryption_info),
                    )),
        {
            let ghost now = events.index();
            assert(event == all[now]);
            let info = tell(&event.encryption_info);
            match raw_room_event_from_raw_json(
                self.room_id.clone(),
                event.raw_json.as_str(),
                event.details,
                info,
            ) {
                Ok(event) => chunk.push(event),
                Err(error) => {
                    assert(all[now].details is Err);
                    return Err(ClientError::from_err(error));
                },
            }
        }
        Ok(
            RawRoomRelations {
                chunk,
                prev_batch_token: reply.prev_batch_token,
                next_batch_token: reply.next_batch_token,
                recursion_depth: reply.recursion_depth,
            },
        )
    }
}

/// A client is told that the sender of an event is verified exactly if the sender is: however little
/// is missing, an event that falls short does not pass for verified. The sender, the device and the
/// key are those of the event.
pub proof fn law_only_verified_senders_pass_for_verified(
    info: EncryptionInfo,
    told: RawRoomEventEncryptionInfo,
)
    requires
        call_ensures(<RawRoomEventEncryptionInfo as From<&EncryptionInfo>>::from, (&info,), told),
    ensures
        told.sender_verified <==> info.verification_state is Verified,
        info.verification_state is Unverified ==> !told.sender_verified,
        told.sender == info.sender,
        told.sender_device == info.sender_device,
        match info.algorithm_info {
            AlgorithmInfo::MegolmV1AesSha2 { curve25519_key, .. } => {
                told.sender_curve25519_key_base64 == Some(curve25519_key)
            },
            AlgorithmInfo::OlmV1Curve25519AesSha2 { curve25519_public_key_base64 } => {
                told.sender_curve25519_key_base64 == Some(curve25519_public_key_base64)
            },
        },
{
}

/// A listener hears of an event exactly if the event could be read and is of one of the types that
/// were asked for.
pub proof fn law_listener_hears_what_it_asked_for(
    room: Room,
    event_types: Vec<String>,
    subscription: RawEventSubscription,
    raw_json: &str,
    details: Result<RawRoomEventDetails, ForeignError>,
    encryption_info: Option<EncryptionInfo>,
    heard: Option<RawRoomEvent>,
)
    requires
        call_ensures(
            Room::subscribe_to_raw_timeline_events,
            (&room, event_types),
            subscription,
        ),
        call_ensures(
            RawEventSubscription::receive,
            (&subscription, raw_json, details, encryption_info),
            heard,
        ),
    ensures
        heard is Some <==> details is Ok && exists|i: int|
            0 <= i < event_types@.len() && text_field(raw_json@, "type"@) == Ok::<
                Option<Seq<char>>,
                ForeignText,
            >(Some((#[trigger] event_types@[i])@)),
{
    if let Ok(Some(event_type)) = text_field(raw_json@, "type"@) {
        let wanted = texts(event_types@);
        if wanted.contains(event_type) {
            let i = choose|i: int| 0 <= i < wanted.len() && wanted[i] == event_type;
            assert(event_types@[i]@ == event_type);
        }
        if exists|i: int|
            0 <= i < event_types@.len() && (#[trigger] event_types@[i])@ == event_type {
            let i = choose|i: int|
                0 <= i < event_types@.len() && (#[trigger] event_types@[i])@ == event_type;
            assert(wanted[i] == event_type);
        }
    }
}

/// An event that a listener hears of is the event that came: the room's, with what its JSON says, the
/// JSON itself, and the truth about its encryption.
pub proof fn law_heard_event_is_the_one_that_came(
    room: Room,
    event_types: Vec<String>,
    subscription: RawEventSubscription,
    raw_json: &str,
    details: RawRoomEventDetails,
    encryption_info: Option<EncryptionInfo>,
    event: RawRoomEvent,
)
    requires
        call_ensures(
            Room::subscribe_to_raw_timeline_events,
            (&room, event_types),
            subscription,
        ),
        call_ensures(
            RawEventSubscription::receive,
            (&subscription, raw_json, Ok(details), encryption_info),
            Some(event),
        ),
    ensures
        event.room_id@ == room.room_id@,
        event.event_type == details.event_type,
        event.event_id == details.event_id,
        event.sender == details.sender,
        event.origin_server_ts_ms == details.origin_server_ts,
        event.content_json == details.content_json,
        event.raw_json@ == raw_json@,
        match (event.encryption_info, encryption_info) {
            (None, None) => true,
            (Some(told), Some(info)) => {
                &&& told.sender == info.sender
                &&& told.sender_device == info.sender_device
                &&& match info.algorithm_info {
                    AlgorithmInfo::MegolmV1AesSha2 { curve25519_key, .. } => {
                        told.sender_curve25519_key_base64 == Some(curve25519_key)
                    },
                    AlgorithmInfo::OlmV1Curve25519AesSha2 { curve25519_public_key_base64 } => {
                        told.sender_curve25519_key_base64 == Some(curve25519_public_key_base64)
                    },
                }
                &&& told.sender_verified <==> info.verification_state is Verified
            },
            _ => false,
        },
{
}

/// Related events reach the client one for one and in order, each as it came, with the truth about
/// its encryption.
pub proof fn law_related_events_are_those_that_came(
    room: Room,
    reply: RelationsReply,
    relations: RawRoomRelations,
    i: int,
)
    requires
        call_ensures(Room::relations_from_reply, (&room, reply), Ok(relations)),
        0 <= i < reply.chunk@.len(),
    ensures
        relations.chunk@.len() == reply.chunk@.len(),
        relations.prev_batch_token == reply.prev_batch_token,
        relations.next_batch_token == reply.next_batch_token,
        relations.recursion_depth == reply.recursion_depth,
        relations.chunk@[i].room_id@ == room.room_id@,
        relations.chunk@[i].raw_json@ == reply.chunk@[i].raw_json@,
        reply.chunk@[i].details matches Ok(details) && {
            &&& relations.chunk@[i].event_type == details.event_type
            &&& relations.chunk@[i].event_id == details.event_id
            &&& relations.chunk@[i].sender == details.sender
            &&& relations.chunk@[i].origin_server_ts_ms == details.origin_server_ts
            &&& relations.chunk@[i].content_json == details.content_json
        },
        match (relations.chunk@[i].encryption_info, reply.chunk@[i].encryption_info) {
            (None, None) => true,
            (Some(told), Some(info)) => {
                &&& told.sender == info.sender
                &&& told.sender_device == info.sender_device
                &&& match info.algorithm_info {
                    AlgorithmInfo::MegolmV1AesSha2 { curve25519_key, .. } => {
                        told.sender_curve25519_key_base64 == Some(curve25519_key)
                    },
                    AlgorithmInfo::OlmV1Curve25519AesSha2 { curve25519_public_key_base64 } => {
                        told.sender_curve25519_key_base64 == Some(curve25519_public_key_base64)
                    },
                }
                &&& told.sender_verified <==> info.verification_state is Verified
            },
            _ => false,
        },
{
    let event = relations.chunk@[i];
}

/// Related events are handed on exactly if every one of them could be read.
pub proof fn law_one_unreadable_event_spoils_the_relations(
    room: Room,
    reply: RelationsReply,
    told: Result<RawRoomRelations, ClientError>,
)
    requires
        call_ensures(Room::relations_from_reply, (&room, reply), told),
    ensures
        told is Ok <==> forall|i: int|
            0 <= i < reply.chunk@.len() ==> (#[trigger] reply.chunk@[i]).details is Ok,
{
    if let Ok(relations) = told {
        assert forall|i: int| 0 <= i < reply.chunk@.len() implies (#[trigger] reply.chunk@[i]).details
            is Ok by {
            let event = relations.chunk@[i];
        }
    }
}

/// Related events are asked for exactly if the event has an ID, a type of events comes with a type of
/// relations, and the limit fits the protocol.
pub proof fn law_relations_are_asked_for_if_the_question_is_sound(
    room: Room,
    event_id: String,
    options: RawRoomRelationsOptions,
    asked: Result<RelationsRequest, ClientError>,
)
    requires
        call_ensures(Room::get_event_relations, (&room, event_id, options), asked),
    ensures
        asked is Ok <==> {
            &&& event_id_problem(event_id@) is None
            &&& options.event_type is Some ==> options.relation_type is Some
            &&& options.limit matches Some(limit) ==> limit <= 0x1F_FFFF_FFFF_FFFF
        },
        asked matches Ok(request) ==> {
            &&& request.event_id@ == event_id@
            &&& request.options.from == options.from
            &&& request.options.limit == options.limit
            &&& request.options.recurse == options.recurse
            &&& request.options.dir is Backward <==> options.direction is Backward
            &&& request.options.dir is Forward <==> options.direction is Forward
            &&& match request.options.include_relations {
                IncludeRelations::AllRelations => options.relation_type is None
                    && options.event_type is None,
                IncludeRelations::RelationsOfType(relation_type) => options.relation_type == Some(
                    relation_type,
                ) && options.event_type is None,
                IncludeRelations::RelationsOfTypeAndEventType(relation_type, event_type) => {
                    options.relation_type == Some(relation_type) && options.event_type == Some(
                        event_type,
                    )
                },
            }
        },
{
}

/// Related events are spoilt by the first of them that could not be read, in the words of why not.
pub proof fn law_first_unreadable_event_is_the_one_that_is_named(
    room: Room,
    reply: RelationsReply,
    error: ClientError,
)
    requires
        call_ensures(Room::relations_from_reply, (&room, reply), Err(error)),
    ensures
        exists|i: int|
            #![trigger reply.chunk@[i]]
            {
                &&& 0 <= i < reply.chunk@.len()
                &&& reply.chunk@[i].details matches Err(problem)
                &&& error@ == (ClientText::Generic {
                    msg: problem.message@,
                    details: Some(problem.debug@),
                })
                &&& forall|j: int| 0 <= j < i ==> (#[trigger] reply.chunk@[j]).details is Ok
            },
{
}

/// A question after related events is refused for the first thing that is wrong with it: the ID of the
/// event, a type of events without a type of relations, or a limit that the protocol cannot carry.
pub proof fn law_unsound_question_is_refused_for_its_first_fault(
    room: Room,
    event_id: String,
    options: RawRoomRelationsOptions,
    error: ClientError,
)
    requires
        call_ensures(Room::get_event_relations, (&room, event_id, options), Err(error)),
    ensures
        error@ == match (event_id_problem(event_id@), options.relation_type, options.event_type) {
            (Some(problem), _, _) => ClientText::Generic {
                msg: problem.message,
                details: Some(problem.debug),
            },
            (None, None, Some(event_type)) => ClientText::Generic {
                msg: "event_type requires relation_type when querying room relations"@,
                details: Some("event_type="@ + event_type@),
            },
            _ => ClientText::Generic {
                msg: "relations limit is too large"@,
                details: Some("limit="@ + decimal(options.limit->0 as nat)),
            },
        },
{
}

/// Whether an event is wanted depends on the type that was found in it alone: it is wanted exactly if
/// one was found that is on the list.
pub proof fn law_events_are_wanted_by_their_type(
    subscription: RawEventSubscription,
    found: Result<Option<String>, ForeignError>,
    r: bool,
)
    requires
        call_ensures(RawEventSubscription::wants_type, (&subscription, found), r),
    ensures
        r <==> (found matches Ok(Some(event_type)) && exists|i: int|
            0 <= i < subscription.event_types@.len() && (#[trigger] subscription.event_types@[i])@
                == event_type@),
{
    if let Ok(Some(event_type)) = found {
        let wanted = texts(subscription.event_types@);
        if wanted.contains(event_type@) {
            let i = choose|i: int| 0 <= i < wanted.len() && wanted[i] == event_type@;
            assert(subscription.event_types@[i]@ == event_type@);
        }
        if exists|i: int|
            0 <= i < subscription.event_types@.len() && (#[trigger] subscription.event_types@[i])@
                == event_type@ {
            let i = choose|i: int|
                0 <= i < subscription.event_types@.len() && (
                #[trigger] subscription.event_types@[i])@ == event_type@;
            assert(wanted[i] == event_type@);
        }
    }
}

/// An event is built from its JSON exactly if the JSON could be read, and holds what was read, next to
/// the JSON itself.
pub proof fn law_event_holds_what_was_read(
    room_id: String,
    raw_json: &str,
    details: Result<RawRoomEventDetails, ForeignError>,
    encryption_info: Option<RawRoomEventEncryptionInfo>,
    r: Result<RawRoomEvent, ForeignError>,
)
    requires
        call_ensures(
            raw_room_event_from_raw_json,
            (room_id, raw_json, details, encryption_info),
            r,
        ),
    ensures
        match (details, r) {
            (Ok(read), Ok(event)) => {
                &&& event.room_id@ == room_id@
                &&& event.event_type == read.event_type
                &&& event.event_id == read.event_id
                &&& event.sender == read.sender
                &&& event.origin_server_ts_ms == read.origin_server_ts
                &&& event.content_json == read.content_json
                &&& event.raw_json@ == raw_json@
                &&& event.encryption_info == encryption_info
            },
            (Err(problem), Err(error)) => error == problem,
            _ => false,
        },
{
}

} // verus!
