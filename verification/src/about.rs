//! What is known about rooms.

use vstd::prelude::*;

use crate::errors::ClientError;
use crate::room::Room;

verus! {

/// The user's place in a room, as a client sees it.
#[derive(Debug, Clone, Copy, PartialEq, Eq, Structural)]
pub enum Membership {
    Invited,
    Joined,
    Left,
    Knocked,
    Banned,
}

/// The user's place in a room.
#[derive(Debug, Clone, Copy, PartialEq, Eq, Structural)]
pub enum RoomState {
    Joined,
    Left,
    Invited,
    Knocked,
    Banned,
}

/// How a client sees the user's place in a room.
pub open spec fn membership_of(state: RoomState) -> Membership {
    match state {
        RoomState::Joined => Membership::Joined,
        RoomState::Left => Membership::Left,
        RoomState::Invited => Membership::Invited,
        RoomState::Knocked => Membership::Knocked,
        RoomState::Banned => Membership::Banned,
    }
}

impl From<RoomState> for Membership {
    fn from(value: RoomState) -> (r: Self) {
        match value {
            RoomState::Invited => Membership::Invited,
            RoomState::Joined => Membership::Joined,
            RoomState::Left => Membership::Left,
            RoomState::Knocked => Membership::Knocked,
            RoomState::Banned => Membership::Banned,
        }
    }
}

impl vstd::std_specs::convert::FromSpecImpl<RoomState> for Membership {
    open spec fn obeys_from_spec() -> bool {
        true
    }

    open spec fn from_spec(value: RoomState) -> Self {
        membership_of(value)
    }
}

/// A client can tell every two places apart.
pub proof fn law_memberships_differ(a: RoomState, b: RoomState)
    ensures
        membership_of(a) == membership_of(b) <==> a == b,
{
}

/// A member whom a room is named after, as the room keeps it.
#[derive(Debug)]
pub struct HeroRecord {
    pub user_id: String,
    pub display_name: Option<String>,
    pub avatar_url: Option<String>,
}

/// A member whom a room is named after.
#[derive(Debug)]
pub struct RoomHero {
    /// The ID of the member.
    pub user_id: String,
    /// The name of the member.
    pub display_name: Option<String>,
    /// Where the picture of the member is.
    pub avatar_url: Option<String>,
}

/// A hero, as a client sees it.
pub open spec fn hero_of(hero: HeroRecord) -> RoomHero {
    RoomHero {
        user_id: hero.user_id,
        display_name: hero.display_name,
        avatar_url: hero.avatar_url,
    }
}

impl From<HeroRecord> for RoomHero {
    fn from(value: HeroRecord) -> (r: Self) {
        RoomHero {
            user_id: value.user_id,
            display_name: value.display_name,
            avatar_url: value.avatar_url,
        }
    }
}

impl vstd::std_specs::convert::FromSpecImpl<HeroRecord> for RoomHero {
    open spec fn obeys_from_spec() -> bool {
        true
    }

    open spec fn from_spec(value: HeroRecord) -> Self {
        hero_of(value)
    }
}

/// The room that replaces another, as the other room names it.
#[derive(Debug)]
pub struct Replacement {
    pub room_id: String,
    pub reason: Option<String>,
}

/// The room that replaces another.
#[derive(Debug)]
pub struct SuccessorRoom {
    /// The ID of the room.
    pub room_id: String,
    /// Why the other room was replaced.
    pub reason: Option<String>,
}

impl From<Replacement> for SuccessorRoom {
    fn from(value: Replacement) -> (r: Self) {
        SuccessorRoom { room_id: value.room_id, reason: value.reason }
    }
}

impl vstd::std_specs::convert::FromSpecImpl<Replacement> for SuccessorRoom {
    open spec fn obeys_from_spec() -> bool {
        true
    }

    open spec fn from_spec(value: Replacement) -> Self {
        SuccessorRoom { room_id: value.room_id, reason: value.reason }
    }
}

/// The room that another replaces, as the other room names it.
#[derive(Debug)]
pub struct Replaced {
    pub room_id: String,
}

/// The room that another replaces.
#[derive(Debug)]
pub struct PredecessorRoom {
    /// The ID of the room.
    pub room_id: String,
}

impl From<Replaced> for PredecessorRoom {
    fn from(value: Replaced) -> (r: Self) {
        PredecessorRoom { room_id: value.room_id }
    }
}

impl vstd::std_specs::convert::FromSpecImpl<Replaced> for PredecessorRoom {
    open spec fn obeys_from_spec() -> bool {
        true
    }

    open spec fn from_spec(value: Replaced) -> Self {
        PredecessorRoom { room_id: value.room_id }
    }
}

/// A change of a user's identity. `S` is what the identity has become.
#[derive(Debug)]
pub struct IdentityStatusChange<S> {
    /// The ID of the user.
    pub user_id: String,
    /// What the identity has become.
    pub changed_to: S,
}

/// Someone who wants to hear what changes about a room. `I` is what is told about it.
pub trait RoomInfoListener<I> {
    /// Called with each change.
    fn call(&self, room_info: I);
}

/// Someone who wants to hear who is typing.
pub trait TypingNotificationsListener {
    /// Called with the IDs of the users who are typing.
    fn call(&self, typing_user_ids: Vec<String>);
}

/// Someone who wants to hear which identities change. `S` is what an identity has become.
pub trait IdentityStatusChangeListener<S> {
    /// Called with the changes.
    fn call(&self, identity_status_change: Vec<IdentityStatusChange<S>>);
}

/// Someone who wants to hear who declines a call.
pub trait CallDeclineListener {
    /// Called with the ID of each user who declines.
    fn call(&self, decliner_user_id: String);
}

impl Room {
    /// The members whom the room is named after, in order.
    pub fn heroes(&self, heroes: Vec<HeroRecord>) -> (r: Vec<RoomHero>)
        ensures
            r@ == heroes@.map_values(|hero: HeroRecord| hero_of(hero)),
    {
        let ghost all = heroes@;
        let mut shown: Vec<RoomHero> = Vec::new();
        for hero in list: heroes
            invariant
                list.seq() == all,
                shown@.len() == list.index(),
                forall|i: int| 0 <= i < list.index() ==> #[trigger] shown@[i] == hero_of(all[i]),
        {
            shown.push(RoomHero::from(hero));
        }
        assert(shown@ =~= all.map_values(|hero: HeroRecord| hero_of(hero)));
        shown
    }

    /// The changes of identities that a client hears of: those that were observed, in order. Each
    /// comes as the ID of the user and what the identity has become.
    pub fn identity_status_changes<S>(&self, observed: Vec<(String, S)>) -> (r: Vec<
        IdentityStatusChange<S>,
    >)
        ensures
            r@.len() == observed@.len(),
            forall|i: int|
                0 <= i < r@.len() ==> #[trigger] r@[i] == (IdentityStatusChange {
                    user_id: observed@[i].0,
                    changed_to: observed@[i].1,
                }),
    {
        let ghost all = observed@;
        let mut changes: Vec<IdentityStatusChange<S>> = Vec::new();
        for change in list: observed
            invariant
                list.seq() == all,
                changes@.len() == list.index(),
                forall|i: int|
                    0 <= i < list.index() ==> #[trigger] changes@[i] == (IdentityStatusChange {
                        user_id: all[i].0,
                        changed_to: all[i].1,
                    }),
        {
            let (user_id, changed_to) = change;
            changes.push(IdentityStatusChange { user_id, changed_to });
        }
        changes
    }

    /// The user who sent the invitation, if there is one who could be read. One who could not is an
    /// error.
    pub fn inviter<M>(&self, inviter: Option<Result<M, ClientError>>) -> (r: Result<
        Option<M>,
        ClientError,
    >)
        ensures
            r == match inviter {
                Some(Ok(member)) => Ok(Some(member)),
                Some(Err(error)) => Err(error),
                None => Ok(None),
            },
    {
        match inviter {
            Some(Ok(member)) => Ok(Some(member)),
            Some(Err(error)) => Err(error),
            None => Ok(None),
        }
    }

    /// Whether the room is encrypted, as far as it is known. Where it cannot be found out, the room
    /// passes for one that is not.
    pub fn is_encrypted(&self, latest: Result<bool, ClientError>) -> (r: bool)
        ensures
            r == (latest matches Ok(encrypted) && encrypted),
    {
        match latest {
            Ok(encrypted) => encrypted,
            Err(_) => false,
        }
    }

    /// Whether the room is a conversation with one user, as far as it is known. Where it cannot be
    /// found out, the room passes for one that is not.
    pub fn is_direct(&self, known: Result<bool, ClientError>) -> (r: bool)
        ensures
            r == (known matches Ok(direct) && direct),
    {
        match known {
            Ok(direct) => direct,
            Err(_) => false,
        }
    }
}

/// A client is told of the place that the user has in the room, and of no other.
pub proof fn law_membership_is_told_as_it_is(state: RoomState, told: Membership)
    requires
        call_ensures(<Membership as From<RoomState>>::from, (state,), told),
    ensures
        told is Invited <==> state is Invited,
        told is Joined <==> state is Joined,
        told is Left <==> state is Left,
        told is Knocked <==> state is Knocked,
        told is Banned <==> state is Banned,
{
}

/// The members whom a room is named after are told of one for one and in order, each as it is.
pub proof fn law_heroes_are_told_as_they_are(
    room: Room,
    heroes: Vec<HeroRecord>,
    told: Vec<RoomHero>,
    i: int,
)
    requires
        call_ensures(Room::heroes, (&room, heroes), told),
        0 <= i < heroes@.len(),
    ensures
        told@.len() == heroes@.len(),
        told@[i].user_id == heroes@[i].user_id,
        told@[i].display_name == heroes@[i].display_name,
        told@[i].avatar_url == heroes@[i].avatar_url,
{
}

/// The rooms that come before and after a room are told of as the room names them.
pub proof fn law_neighbouring_rooms_are_told_as_they_are(
    after: Replacement,
    before: Replaced,
    successor: SuccessorRoom,
    predecessor: PredecessorRoom,
)
    requires
        call_ensures(<SuccessorRoom as From<Replacement>>::from, (after,), successor),
        call_ensures(<PredecessorRoom as From<Replaced>>::from, (before,), predecessor),
    ensures
        successor.room_id == after.room_id,
        successor.reason == after.reason,
        predecessor.room_id == before.room_id,
{
}

/// The changes of identities are told of one for one and in order, each of its user.
pub proof fn law_identity_changes_are_told_as_observed<S>(
    room: Room,
    observed: Vec<(String, S)>,
    told: Vec<IdentityStatusChange<S>>,
    i: int,
)
    requires
        call_ensures(Room::identity_status_changes::<S>, (&room, observed), told),
        0 <= i < observed@.len(),
    ensures
        told@.len() == observed@.len(),
        told@[i].user_id == observed@[i].0,
        told@[i].changed_to == observed@[i].1,
{
}

/// The user who sent the invitation is told of as read; one who could not be read is an error, and
/// there may be none.
pub proof fn law_inviter_is_told_as_read<M>(
    room: Room,
    inviter: Option<Result<M, ClientError>>,
    r: Result<Option<M>, ClientError>,
)
    requires
        call_ensures(Room::inviter::<M>, (&room, inviter), r),
    ensures
        match (inviter, r) {
            (None, Ok(None)) => true,
            (Some(Ok(member)), Ok(Some(told))) => told == member,
            (Some(Err(problem)), Err(error)) => error == problem,
            _ => false,
        },
{
}

/// A room passes for encrypted, or for a conversation with one user, exactly if it is known to be one.
pub proof fn law_rooms_pass_only_for_what_they_are_known_to_be(
    room: Room,
    known: Result<bool, ClientError>,
    encrypted: bool,
    direct: bool,
)
    requires
        call_ensures(Room::is_encrypted, (&room, known), encrypted),
        call_ensures(Room::is_direct, (&room, known), direct),
    ensures
        encrypted <==> known == Ok::<bool, ClientError>(true),
        direct <==> known == Ok::<bool, ClientError>(true),
{
}

} // verus!
