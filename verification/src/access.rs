//! How a room is found, and who sees what was said in it.

use vstd::prelude::*;

use crate::errors::{foreign_client_error, ClientError, ClientText, NotYetImplemented};
use crate::ids::{
    after_first_colon, event_id_problem, room_alias_id_problem, server_name_problem, server_of_user,
    user_id_problem, EventId, RoomAliasId, ServerName,
};
use crate::room::Room;
use crate::text::texts;

verus! {

/// Who sees the past of a room, as a client puts it.
#[derive(Debug)]
pub enum RoomHistoryVisibility {
    /// Members see what was said since they were invited.
    Invited,
    /// Members see what was said since they joined.
    Joined,
    /// Members see everything.
    Shared,
    /// Everyone sees everything.
    WorldReadable,
    /// Something else.
    Custom { value: String },
}

/// Who sees the past of a room, as the room's state puts it.
#[derive(Debug)]
pub enum HistoryVisibility {
    Invited,
    Joined,
    Shared,
    WorldReadable,
    /// A value that the protocol does not know.
    Custom(String),
    /// A value that the protocol knows and clients cannot be told of.
    Unsupported,
}

/// The visibility that a client is told of.
pub open spec fn shown_visibility(value: HistoryVisibility) -> Result<
    RoomHistoryVisibility,
    NotYetImplemented,
> {
    match value {
        HistoryVisibility::Invited => Ok(RoomHistoryVisibility::Invited),
        HistoryVisibility::Joined => Ok(RoomHistoryVisibility::Joined),
        HistoryVisibility::Shared => Ok(RoomHistoryVisibility::Shared),
        HistoryVisibility::WorldReadable => Ok(RoomHistoryVisibility::WorldReadable),
        HistoryVisibility::Custom(value) => Ok(RoomHistoryVisibility::Custom { value }),
        HistoryVisibility::Unsupported => Err(NotYetImplemented),
    }
}

/// The visibility that a client asks for. It cannot ask for a custom one.
pub open spec fn asked_visibility(value: RoomHistoryVisibility) -> Result<
    HistoryVisibility,
    NotYetImplemented,
> {
    match value {
        RoomHistoryVisibility::Invited => Ok(HistoryVisibility::Invited),
        RoomHistoryVisibility::Joined => Ok(HistoryVisibility::Joined),
        RoomHistoryVisibility::Shared => Ok(HistoryVisibility::Shared),
        RoomHistoryVisibility::WorldReadable => Ok(HistoryVisibility::WorldReadable),
        RoomHistoryVisibility::Custom { .. } => Err(NotYetImplemented),
    }
}

impl TryFrom<HistoryVisibility> for RoomHistoryVisibility {
    type Error = NotYetImplemented;

    fn try_from(value: HistoryVisibility) -> (r: Result<Self, NotYetImplemented>) {
        match value {
            HistoryVisibility::Invited => Ok(RoomHistoryVisibility::Invited),
            HistoryVisibility::Shared => Ok(RoomHistoryVisibility::Shared),
            HistoryVisibility::WorldReadable => Ok(RoomHistoryVisibility::WorldReadable),
            HistoryVisibility::Joined => Ok(RoomHistoryVisibility::Joined),
            HistoryVisibility::Custom(value) => Ok(RoomHistoryVisibility::Custom { value }),
            HistoryVisibility::Unsupported => Err(NotYetImplemented),
        }
    }
}

impl vstd::std_specs::convert::TryFromSpecImpl<HistoryVisibility> for RoomHistoryVisibility {
    open spec fn obeys_try_from_spec() -> bool {
        true
    }

    open spec fn try_from_spec(value: HistoryVisibility) -> Result<Self, NotYetImplemented> {
        shown_visibility(value)
    }
}

impl TryFrom<RoomHistoryVisibility> for HistoryVisibility {
    type Error = NotYetImplemented;

    fn try_from(value: RoomHistoryVisibility) -> (r: Result<Self, NotYetImplemented>) {
        match value {
            RoomHistoryVisibility::Invited => Ok(HistoryVisibility::Invited),
            RoomHistoryVisibility::Shared => Ok(HistoryVisibility::Shared),
            RoomHistoryVisibility::Joined => Ok(HistoryVisibility::Joined),
            RoomHistoryVisibility::WorldReadable => Ok(HistoryVisibility::WorldReadable),
            RoomHistoryVisibility::Custom { value: _ } => Err(NotYetImplemented),
        }
    }
}

impl vstd::std_specs::convert::TryFromSpecImpl<RoomHistoryVisibility> for HistoryVisibility {
    open spec fn obeys_try_from_spec() -> bool {
        true
    }

    open spec fn try_from_spec(value: RoomHistoryVisibility) -> Result<Self, NotYetImplemented> {
        asked_visibility(value)
    }
}

/// A visibility that a client may ask for is the one that it is told of afterwards.
pub proof fn law_asked_visibility_is_shown(value: RoomHistoryVisibility, kept: HistoryVisibility)
    requires
        asked_visibility(value) == Ok::<HistoryVisibility, NotYetImplemented>(kept),
    ensures
        shown_visibility(kept) == Ok::<RoomHistoryVisibility, NotYetImplemented>(value),
{
}

/// The aliases that a room should have.
#[derive(Debug)]
pub struct CanonicalAlias {
    pub alias: Option<RoomAliasId>,
    pub alt_aliases: Vec<RoomAliasId>,
}

/// What is wrong with an alias that may be missing.
pub open spec fn optional_alias_problem(alias: Option<String>) -> Option<ClientText> {
    match alias {
        Some(alias) => match room_alias_id_problem(alias@) {
            Some(problem) => Some(foreign_client_error(problem)),
            None => None,
        },
        None => None,
    }
}

/// What is known of a room that a user may want to look into.
#[derive(Debug)]
pub struct PreviewPlan {
    /// The alias of the room, or else its ID.
    pub room_or_alias_id: String,
    /// The servers to ask.
    pub server_names: Vec<String>,
}

/// What to do about a thread.
#[derive(Debug)]
pub enum ThreadSubscriptionChange {
    /// Follow the thread because the user wants to.
    Subscribe { thread_root: EventId },
    /// Do not follow the thread any longer.
    Unsubscribe { thread_root: EventId },
}

impl PreviewPlan {
    /// Whether the server of the user who sent the invitation is asked for want of another.
    pub fn lacks_servers(&self) -> (r: bool)
        ensures
            r == (self.server_names@.len() == 0),
    {
        self.server_names.len() == 0
    }

    /// Adds the server of the user who sent the invitation, if there is one, where there is no other
    /// server to ask.
    pub fn with_inviter(self, inviter: Option<String>) -> (r: PreviewPlan)
        ensures
            r.room_or_alias_id == self.room_or_alias_id,
            match inviter {
                Some(user_id) => if self.server_names@.len() == 0 && user_id_problem(user_id@)
                    is None {
                    texts(r.server_names@) == seq![after_first_colon(user_id@)]
                } else {
                    r.server_names == self.server_names
                },
                None => r.server_names == self.server_names,
            },
    {
        let PreviewPlan { room_or_alias_id, mut server_names } = self;
        if server_names.len() == 0 {
            if let Some(user_id) = inviter {
                if let Ok(server) = server_of_user(user_id.as_str()) {
                    server_names.push(server);
                    assert(texts(server_names@) =~= seq![after_first_colon(user_id@)]);
                }
            }
        }
        PreviewPlan { room_or_alias_id, server_names }
    }
}

fn server_texts(servers: Vec<ServerName>) -> (r: Vec<String>)
    ensures
        texts(r@) == servers@.map_values(|server: ServerName| server@),
{
    let ghost all = servers@;
    let mut names: Vec<String> = Vec::new();
    for server in list: servers
        invariant
            list.seq() == all,
            names@.len() == list.index(),
            forall|i: int| 0 <= i < list.index() ==> (#[trigger] names@[i])@ == all[i]@,
    {
        names.push(server.into_string());
    }
    assert(texts(names@) =~= all.map_values(|server: ServerName| server@));
    names
}

impl Room {
    /// Changes who sees the past of the room.
    pub fn update_history_visibility(&self, visibility: RoomHistoryVisibility) -> (r: Result<
        HistoryVisibility,
        NotYetImplemented,
    >)
        ensures
            r == asked_visibility(visibility),
    {
        HistoryVisibility::try_from(visibility)
    }

    /// Changes the aliases of the room.
    pub fn update_canonical_alias(&self, alias: Option<String>, alt_aliases: Vec<String>) -> (r:
        Result<CanonicalAlias, ClientError>)
        ensures
            match r {
                Ok(aliases) => {
                    &&& optional_alias_problem(alias) is None
                    &&& match (aliases.alias, alias) {
                        (Some(kept), Some(alias)) => kept@ == alias@,
                        (None, None) => true,
                        _ => false,
                    }
                    &&& aliases.alt_aliases@.map_values(|alias: RoomAliasId| alias@) == texts(
                        alt_aliases@,
                    )
                    &&& forall|i: int|
                        0 <= i < alt_aliases@.len() ==> room_alias_id_problem(
                            #[trigger] alt_aliases@[i]@,
                        ) is None
                },
                Err(error) => match optional_alias_problem(alias) {
                    Some(problem) => error@ == problem,
                    None => exists|i: int|
                        0 <= i < alt_aliases@.len() && (forall|j: int|
                            0 <= j < i ==> room_alias_id_problem(#[trigger] alt_aliases@[j]@)
                                is None) && (room_alias_id_problem(#[trigger] alt_aliases@[i]@)
                            matches Some(problem) && error@ == foreign_client_error(problem)),
                },
            },
    {
        let alias = match alias {
            Some(alias) => match RoomAliasId::request(alias.as_str()) {
                Ok(alias) => Some(alias),
                Err(error) => return Err(error),
            },
            None => None,
        };
        let alt_aliases = RoomAliasId::request_all(&alt_aliases)?;
        Ok(CanonicalAlias { alias, alt_aliases })
    }

    /// Puts an alias of the room into the directory.
    pub fn publish_room_alias_in_room_directory(&self, alias: String) -> (r: Result<
        RoomAliasId,
        ClientError,
    >)
        ensures
            match r {
                Ok(kept) => kept@ == alias@ && room_alias_id_problem(alias@) is None,
                Err(error) => room_alias_id_problem(alias@) matches Some(problem) && error@
                    == foreign_client_error(problem),
            },
    {
        RoomAliasId::request(alias.as_str())
    }

    /// Takes an alias of the room out of the directory.
    pub fn remove_room_alias_from_room_directory(&self, alias: String) -> (r: Result<
        RoomAliasId,
        ClientError,
    >)
        ensures
            match r {
                Ok(kept) => kept@ == alias@ && room_alias_id_problem(alias@) is None,
                Err(error) => room_alias_id_problem(alias@) matches Some(problem) && error@
                    == foreign_client_error(problem),
            },
    {
        RoomAliasId::request(alias.as_str())
    }

    /// Begins to look into the room from outside. A room with an alias is looked up by its alias,
    /// and the servers that the client names are not asked; otherwise they are asked for the room's
    /// ID. Names that are not server names are refused either way.
    pub fn preview_room(&self, via: Vec<String>) -> (r: Result<PreviewPlan, ClientError>)
        ensures
            match r {
                Ok(plan) => {
                    &&& forall|i: int|
                        0 <= i < via@.len() ==> server_name_problem(#[trigger] via@[i]@) is None
                    &&& match self.canonical_alias {
                        Some(alias) => plan.room_or_alias_id == alias && plan.server_names@.len()
                            == 0,
                        None => plan.room_or_alias_id == self.room_id && texts(plan.server_names@)
                            == texts(via@),
                    }
                },
                Err(error) => exists|i: int|
                    0 <= i < via@.len() && (forall|j: int|
                        0 <= j < i ==> server_name_problem(#[trigger] via@[j]@) is None) && (
                    server_name_problem(#[trigger] via@[i]@) matches Some(problem) && error@
                        == foreign_client_error(problem)),
            },
    {
        let servers = ServerName::request_all(&via)?;
        match &self.canonical_alias {
            Some(alias) => Ok(
                PreviewPlan { room_or_alias_id: alias.clone(), server_names: Vec::new() },
            ),
            None => Ok(
                PreviewPlan {
                    room_or_alias_id: self.room_id.clone(),
                    server_names: server_texts(servers),
                },
            ),
        }
    }

    /// Follows a thread, or stops to follow it.
    pub fn set_thread_subscription(&self, thread_root_event_id: String, subscribed: bool) -> (r:
        Result<ThreadSubscriptionChange, ClientError>)
        ensures
            match r {
                Ok(ThreadSubscriptionChange::Subscribe { thread_root }) => subscribed
                    && thread_root@ == thread_root_event_id@ && event_id_problem(
                    thread_root_event_id@,
                ) is None,
                Ok(ThreadSubscriptionChange::Unsubscribe { thread_root }) => !subscribed
                    && thread_root@ == thread_root_event_id@ && event_id_problem(
                    thread_root_event_id@,
                ) is None,
                Err(error) => event_id_problem(thread_root_event_id@) matches Some(problem)
                    && error@ == foreign_client_error(problem),
            },
    {
        let thread_root = EventId::request(thread_root_event_id.as_str())?;
        if subscribed {
            Ok(ThreadSubscriptionChange::Subscribe { thread_root })
        } else {
            Ok(ThreadSubscriptionChange::Unsubscribe { thread_root })
        }
    }
}

/// A visibility keeps its meaning between the room's state and the client, both ways. A client can be
/// told of a value of its own making but cannot ask for one.
pub proof fn law_visibility_keeps_its_meaning(
    kept: HistoryVisibility,
    told: Result<RoomHistoryVisibility, NotYetImplemented>,
    room: Room,
    asked: RoomHistoryVisibility,
    done: Result<HistoryVisibility, NotYetImplemented>,
)
    requires
        call_ensures(
            <RoomHistoryVisibility as TryFrom<HistoryVisibility>>::try_from,
            (kept,),
            told,
        ),
        call_ensures(Room::update_history_visibility, (&room, asked), done),
    ensures
        told is Err <==> kept is Unsupported,
        told matches Ok(told) ==> {
            &&& told is Invited <==> kept is Invited
            &&& told is Joined <==> kept is Joined
            &&& told is Shared <==> kept is Shared
            &&& told is WorldReadable <==> kept is WorldReadable
            &&& match (told, kept) {
                (RoomHistoryVisibility::Custom { value }, HistoryVisibility::Custom(text)) => value
                    == text,
                (RoomHistoryVisibility::Custom { .. }, _) => false,
                _ => true,
            }
        },
        done is Err <==> asked is Custom,
        done matches Ok(done) ==> {
            &&& done is Invited <==> asked is Invited
            &&& done is Joined <==> asked is Joined
            &&& done is Shared <==> asked is Shared
            &&& done is WorldReadable <==> asked is WorldReadable
        },
{
}

/// The aliases that a room is given are those that were named, in order, and are given exactly if each
/// of them is an alias. Otherwise the error says what is wrong with the first that is none, the
/// canonical alias before the others.
pub proof fn law_aliases_are_given_as_named(
    room: Room,
    alias: Option<String>,
    alt_aliases: Vec<String>,
    r: Result<CanonicalAlias, ClientError>,
)
    requires
        call_ensures(Room::update_canonical_alias, (&room, alias, alt_aliases), r),
    ensures
        r is Ok <==> (alias matches Some(text) ==> room_alias_id_problem(text@) is None) && forall|
            i: int,
        |
            0 <= i < alt_aliases@.len() ==> room_alias_id_problem(#[trigger] alt_aliases@[i]@)
                is None,
        r matches Ok(given) ==> {
            &&& given.alias is Some <==> alias is Some
            &&& alias matches Some(text) ==> given.alias->0@ == text@
            &&& given.alt_aliases@.len() == alt_aliases@.len()
            &&& forall|i: int|
                0 <= i < alt_aliases@.len() ==> (#[trigger] given.alt_aliases@[i])@
                    == alt_aliases@[i]@
        },
        r matches Err(error) ==> (alias matches Some(text) ==> (room_alias_id_problem(text@)
            matches Some(problem) ==> error@ == (ClientText::Generic {
            msg: problem.message,
            details: Some(problem.debug),
        }))),
{
    if let Ok(given) = r {
        let kept = given.alt_aliases@.map_values(|alias: RoomAliasId| alias@);
        assert(kept == texts(alt_aliases@));
        assert(kept.len() == alt_aliases@.len());
        assert forall|i: int| 0 <= i < alt_aliases@.len() implies (#[trigger] given.alt_aliases@[i])@
            == alt_aliases@[i]@ by {
            assert(kept[i] == texts(alt_aliases@)[i]);
        }
    }
}

/// The alias that is put into the directory, or taken out of it, is the one that was named.
pub proof fn law_named_alias_is_published_or_removed(
    room: Room,
    alias: String,
    published: Result<RoomAliasId, ClientError>,
    removed: Result<RoomAliasId, ClientError>,
)
    requires
        call_ensures(Room::publish_room_alias_in_room_directory, (&room, alias), published),
        call_ensures(Room::remove_room_alias_from_room_directory, (&room, alias), removed),
    ensures
        match room_alias_id_problem(alias@) {
            None => {
                &&& published matches Ok(kept) && kept@ == alias@
                &&& removed matches Ok(kept) && kept@ == alias@
            },
            Some(problem) => {
                let refused = ClientText::Generic {
                    msg: problem.message,
                    details: Some(problem.debug),
                };
                &&& published matches Err(error) && error@ == refused
                &&& removed matches Err(error) && error@ == refused
            },
        },
{
}

/// A room that has an alias is looked into by its alias and through no server that the client names;
/// another by its ID and through the servers that the client names, in order. It is looked into
/// exactly if all of these are server names.
pub proof fn law_room_is_looked_into_by_its_alias_first(
    room: Room,
    via: Vec<String>,
    r: Result<PreviewPlan, ClientError>,
)
    requires
        call_ensures(Room::preview_room, (&room, via), r),
    ensures
        r is Ok <==> forall|i: int|
            0 <= i < via@.len() ==> server_name_problem(#[trigger] via@[i]@) is None,
        r matches Ok(plan) ==> match room.canonical_alias {
            Some(alias) => plan.room_or_alias_id == alias && plan.server_names@.len() == 0,
            None => {
                &&& plan.room_or_alias_id == room.room_id
                &&& plan.server_names@.len() == via@.len()
                &&& forall|i: int|
                    0 <= i < via@.len() ==> (#[trigger] plan.server_names@[i])@ == via@[i]@
            },
        },
{
    if let Ok(plan) = r {
        if room.canonical_alias is None {
            assert(texts(plan.server_names@).len() == texts(via@).len());
            assert forall|i: int| 0 <= i < via@.len() implies (#[trigger] plan.server_names@[i])@
                == via@[i]@ by {
                assert(texts(plan.server_names@)[i] == texts(via@)[i]);
            }
        }
    }
}

/// The server of the user who sent the invitation is asked only for want of another: where there are
/// servers they stay, and where there are none the one that is added stands after a colon of the
/// user's ID.
pub proof fn law_server_of_the_inviter_is_the_last_resort(
    plan: PreviewPlan,
    inviter: Option<String>,
    r: PreviewPlan,
)
    requires
        call_ensures(PreviewPlan::with_inviter, (plan, inviter), r),
    ensures
        r.room_or_alias_id == plan.room_or_alias_id,
        plan.server_names@.len() > 0 || inviter is None ==> r.server_names == plan.server_names,
        plan.server_names@.len() == 0 ==> match inviter {
            Some(user_id) => if user_id_problem(user_id@) is None {
                r.server_names@.len() == 1 && r.server_names@[0]@ == after_first_colon(user_id@)
            } else {
                r.server_names@.len() == 0
            },
            None => true,
        },
{
    if let Some(user_id) = inviter {
        if plan.server_names@.len() == 0 && user_id_problem(user_id@) is None {
            assert(texts(r.server_names@).len() == 1);
            assert(texts(r.server_names@)[0] == after_first_colon(user_id@));
        }
    }
}

/// The server of the user who sent the invitation is asked exactly where there is no other.
pub proof fn law_lacking_servers(plan: PreviewPlan, r: bool)
    requires
        call_ensures(PreviewPlan::lacks_servers, (&plan,), r),
    ensures
        r <==> plan.server_names@.len() == 0,
{
}

/// A thread is followed if the client wants to follow it, and not any longer otherwise: the thread
/// that was named. A name that is no event ID is refused with what is wrong with it.
pub proof fn law_thread_is_followed_as_asked(
    room: Room,
    thread_root_event_id: String,
    subscribed: bool,
    r: Result<ThreadSubscriptionChange, ClientError>,
)
    requires
        call_ensures(
            Room::set_thread_subscription,
            (&room, thread_root_event_id, subscribed),
            r,
        ),
    ensures
        match event_id_problem(thread_root_event_id@) {
            Some(problem) => r matches Err(error) && error@ == (ClientText::Generic {
                msg: problem.message,
                details: Some(problem.debug),
            }),
            None => if subscribed {
                r matches Ok(ThreadSubscriptionChange::Subscribe { thread_root }) && thread_root@
                    == thread_root_event_id@
            } else {
                r matches Ok(ThreadSubscriptionChange::Unsubscribe { thread_root }) && thread_root@
                    == thread_root_event_id@
            },
        },
{
}

/// Aliases and servers are refused because of the first of them that is none, in the words of what is
/// wrong with it.
pub proof fn law_first_bad_name_is_the_one_that_is_refused(
    room: Room,
    list: Vec<String>,
    aliases: ClientError,
    servers: ClientError,
)
    requires
        call_ensures(Room::update_canonical_alias, (&room, None, list), Err(aliases)),
        call_ensures(Room::preview_room, (&room, list), Err(servers)),
    ensures
        exists|i: int|
            #![trigger list@[i]]
            {
                &&& 0 <= i < list@.len()
                &&& room_alias_id_problem(list@[i]@) matches Some(problem)
                &&& aliases@ == (ClientText::Generic {
                    msg: problem.message,
                    details: Some(problem.debug),
                })
                &&& forall|j: int| 0 <= j < i ==> room_alias_id_problem(#[trigger] list@[j]@) is None
            },
        exists|i: int|
            #![trigger list@[i]]
            {
                &&& 0 <= i < list@.len()
                &&& server_name_problem(list@[i]@) matches Some(problem)
                &&& servers@ == (ClientText::Generic {
                    msg: problem.message,
                    details: Some(problem.debug),
                })
                &&& forall|j: int| 0 <= j < i ==> server_name_problem(#[trigger] list@[j]@) is None
            },
{
    let i = choose|i: int|
        0 <= i < list@.len() && (forall|j: int|
            0 <= j < i ==> room_alias_id_problem(#[trigger] list@[j]@) is None) && (
        room_alias_id_problem(#[trigger] list@[i]@) matches Some(problem) && aliases@
            == foreign_client_error(problem));
    let first = list@[i];
    let i = choose|i: int|
        0 <= i < list@.len() && (forall|j: int|
            0 <= j < i ==> server_name_problem(#[trigger] list@[j]@) is None) && (
        server_name_problem(#[trigger] list@[i]@) matches Some(problem) && servers@
            == foreign_client_error(problem));
    let first = list@[i];
}

} // verus!
