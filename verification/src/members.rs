//! The members of a room.

use vstd::prelude::*;

use crate::errors::{foreign_client_error, plain_client_error, ClientError, ClientText};
use crate::ids::{user_id_problem, UserId};
use crate::numbers::{protocol_int, MAX_PROTOCOL_INT};
use crate::room::Room;
use crate::text::join2;

verus! {

/// A power level to give to a user.
#[derive(Debug)]
pub struct UserPowerLevelUpdate {
    /// The ID of the user.
    pub user_id: String,
    /// The power level.
    pub power_level: i64,
}

/// Why a power level cannot be given.
pub open spec fn update_problem(update: UserPowerLevelUpdate) -> Option<ClientText> {
    match user_id_problem(update.user_id@) {
        Some(problem) => Some(foreign_client_error(problem)),
        None => if -(MAX_PROTOCOL_INT as int) <= update.power_level <= MAX_PROTOCOL_INT {
            None
        } else {
            Some(plain_client_error("Invalid power level"@))
        },
    }
}

/// A member to ban, to unban or to remove, and why.
#[derive(Debug)]
pub struct MemberAction {
    pub user_id: UserId,
    pub reason: Option<String>,
}

impl MemberAction {
    /// The action is about the user, for the reason.
    pub open spec fn concerns(self, user_id: Seq<char>, reason: Option<String>) -> bool {
        self.user_id@ == user_id && self.reason == reason
    }
}

/// Insists on a member that was looked for.
pub fn require_member<M>(member: Option<M>) -> (r: Result<M, ClientError>)
    ensures
        match (r, member) {
            (Ok(kept), Some(member)) => kept == member,
            (Err(error), None) => error@ == plain_client_error("User not found"@),
            _ => false,
        },
{
    match member {
        Some(member) => Ok(member),
        None => Err(ClientError::plain("User not found")),
    }
}

/// The members among those that were read, in order.
pub open spec fn readable<M, E>(members: Seq<Result<M, E>>) -> Seq<M>
    decreases members.len(),
{
    if members.len() == 0 {
        Seq::empty()
    } else {
        match members.last() {
            Ok(member) => readable(members.drop_last()).push(member),
            Err(_) => readable(members.drop_last()),
        }
    }
}

/// Keeps the members that could be read, in order, and passes over the others.
pub fn readable_members<M, E>(members: Vec<Result<M, E>>) -> (r: Vec<M>)
    ensures
        r@ == readable(members@),
{
    let ghost all = members@;
    let mut kept: Vec<M> = Vec::new();
    for member in list: members
        invariant
            list.seq() == all,
            kept@ == readable(all.take(list.index())),
    {
        let ghost now = list.index();
        assert(all.take(now + 1).drop_last() =~= all.take(now));
        assert(all.take(now + 1).last() == member);
        match member {
            Ok(member) => kept.push(member),
            Err(_) => {},
        }
    }
    assert(all.take(all.len() as int) =~= all);
    kept
}

/// A chunk of members as a client gets it: those that could be read. Where there is no chunk left,
/// there is none for the client either.
pub fn next_chunk<M, E>(chunk: Option<Vec<Result<M, E>>>) -> (r: Option<Vec<M>>)
    ensures
        match (r, chunk) {
            (Some(kept), Some(members)) => kept@ == readable(members@),
            (None, None) => true,
            _ => false,
        },
{
    match chunk {
        Some(members) => Some(readable_members(members)),
        None => None,
    }
}

/// No member is made up, and where every one could be read, none is lost.
pub proof fn law_readable_members<M, E>(members: Seq<Result<M, E>>)
    ensures
        readable(members).len() <= members.len(),
        (forall|i: int| 0 <= i < members.len() ==> (#[trigger] members[i]) is Ok) ==> readable(
            members,
        ).len() == members.len(),
        forall|member: M|
            #![trigger readable(members).contains(member)]
            #![trigger members.contains(Ok::<M, E>(member))]
            readable(members).contains(member) <==> members.contains(Ok::<M, E>(member)),
    decreases members.len(),
{
    if members.len() > 0 {
        law_readable_members(members.drop_last());
        let earlier = members.drop_last();
        assert forall|member: M|
            #![trigger readable(members).contains(member)]
            #![trigger members.contains(Ok::<M, E>(member))]
            readable(members).contains(member) <==> members.contains(Ok::<M, E>(member)) by {
            if readable(members).contains(member) {
                if members.last() == Ok::<M, E>(member) {
                    assert(members[members.len() - 1] == Ok::<M, E>(member));
                } else {
                    let i = choose|i: int|
                        0 <= i < readable(members).len() && readable(members)[i] == member;
                    if members.last() is Ok {
                        assert(i < readable(earlier).len());
                        assert(readable(earlier)[i] == member);
                    }
                    assert(readable(earlier).contains(member));
                    let j = choose|j: int|
                        0 <= j < earlier.len() && earlier[j] == Ok::<M, E>(member);
                    assert(members[j] == Ok::<M, E>(member));
                }
            }
            if members.contains(Ok::<M, E>(member)) {
                let j = choose|j: int| 0 <= j < members.len() && members[j] == Ok::<M, E>(member);
                if j == members.len() - 1 {
                    assert(readable(members)[readable(members).len() - 1] == member);
                } else {
                    assert(earlier[j] == Ok::<M, E>(member));
                    assert(earlier.contains(Ok::<M, E>(member)));
                    assert(readable(earlier).contains(member));
                    let i = choose|i: int|
                        0 <= i < readable(earlier).len() && readable(earlier)[i] == member;
                    assert(readable(members)[i] == member);
                }
            }
        }
    }
}

impl Room {
    /// Gives power levels to users: each update in order, or none where one of them cannot be made.
    pub fn update_power_levels_for_users(&self, updates: Vec<UserPowerLevelUpdate>) -> (r: Result<
        Vec<(UserId, i64)>,
        ClientError,
    >)
        ensures
            match r {
                Ok(levels) => {
                    &&& levels@.len() == updates@.len()
                    &&& forall|i: int|
                        0 <= i < updates@.len() ==> {
                            &&& update_problem(#[trigger] updates@[i]) is None
                            &&& levels@[i].0@ == updates@[i].user_id@
                            &&& levels@[i].1 == updates@[i].power_level
                        }
                },
                Err(error) => exists|i: int|
                    0 <= i < updates@.len() && (forall|j: int|
                        0 <= j < i ==> update_problem(#[trigger] updates@[j]) is None)
                        && update_problem(#[trigger] updates@[i]) == Some(error@),
            },
    {
        let mut levels: Vec<(UserId, i64)> = Vec::new();
        let mut i: usize = 0;
        while i < updates.len()
            invariant
                i <= updates@.len(),
                levels@.len() == i,
                forall|j: int|
                    0 <= j < i ==> {
                        &&& update_problem(#[trigger] updates@[j]) is None
                        &&& levels@[j].0@ == updates@[j].user_id@
                        &&& levels@[j].1 == updates@[j].power_level
                    },
            decreases updates@.len() - i,
        {
            let user_id = match UserId::request(updates[i].user_id.as_str()) {
                Ok(user_id) => user_id,
                Err(error) => {
                    assert(update_problem(updates@[i as int]) == Some(error@));
                    return Err(error);
                },
            };
            match protocol_int(updates[i].power_level) {
                Some(power_level) => levels.push((user_id, power_level)),
                None => {
                    let error = ClientError::plain("Invalid power level");
                    assert(update_problem(updates@[i as int]) == Some(error@));
                    return Err(error);
                },
            }
            i = i + 1;
        }
        Ok(levels)
    }

    /// Invites a user to the room.
    pub fn invite_user_by_id(&self, user_id: String) -> (r: Result<UserId, ClientError>)
        ensures
            match r {
                Ok(id) => id@ == user_id@ && user_id_problem(user_id@) is None,
                Err(error) => user_id_problem(user_id@) matches Some(problem) && error@ == (
                ClientText::Generic {
                    msg: "Could not create user from string: "@ + problem.message,
                    details: Some(problem.debug),
                }),
            },
    {
        match UserId::parse(user_id.as_str()) {
            Ok(id) => Ok(id),
            Err(error) => Err(
                ClientError::Generic {
                    msg: join2("Could not create user from string: ", error.message.as_str()),
                    details: Some(error.debug),
                },
            ),
        }
    }

    /// Bans a user from the room.
    pub fn ban_user(&self, user_id: String, reason: Option<String>) -> (r: Result<
        MemberAction,
        ClientError,
    >)
        ensures
            match r {
                Ok(action) => action.concerns(user_id@, reason) && user_id_problem(user_id@)
                    is None,
                Err(error) => user_id_problem(user_id@) matches Some(problem) && error@
                    == foreign_client_error(problem),
            },
    {
        let user_id = UserId::request(user_id.as_str())?;
        Ok(MemberAction { user_id, reason })
    }

    /// Lifts the ban of a user.
    pub fn unban_user(&self, user_id: String, reason: Option<String>) -> (r: Result<
        MemberAction,
        ClientError,
    >)
        ensures
            match r {
                Ok(action) => action.concerns(user_id@, reason) && user_id_problem(user_id@)
                    is None,
                Err(error) => user_id_problem(user_id@) matches Some(problem) && error@
                    == foreign_client_error(problem),
            },
    {
        let user_id = UserId::request(user_id.as_str())?;
        Ok(MemberAction { user_id, reason })
    }

    /// Removes a user from the room.
    pub fn kick_user(&self, user_id: String, reason: Option<String>) -> (r: Result<
        MemberAction,
        ClientError,
    >)
        ensures
            match r {
                Ok(action) => action.concerns(user_id@, reason) && user_id_problem(user_id@)
                    is None,
                Err(error) => user_id_problem(user_id@) matches Some(problem) && error@
                    == foreign_client_error(problem),
            },
    {
        let user_id = UserId::request(user_id.as_str())?;
        Ok(MemberAction { user_id, reason })
    }
}

/// The members that can be read keep their order, and each counts by itself: what is kept of two lists
/// put together is what is kept of the first, then what is kept of the second. A member that could be
/// read is kept as it is, and one that could not is passed over.
pub proof fn law_readable_members_keep_their_order<M, E>(
    first: Vec<Result<M, E>>,
    second: Vec<Result<M, E>>,
    both: Vec<Result<M, E>>,
    kept_first: Vec<M>,
    kept_second: Vec<M>,
    kept_both: Vec<M>,
)
    requires
        both@ == first@ + second@,
        call_ensures(readable_members::<M, E>, (first,), kept_first),
        call_ensures(readable_members::<M, E>, (second,), kept_second),
        call_ensures(readable_members::<M, E>, (both,), kept_both),
    ensures
        kept_both@ == kept_first@ + kept_second@,
        first@.len() == 0 ==> kept_first@.len() == 0,
        first@.len() == 1 ==> match first@[0] {
            Ok(member) => kept_first@ == seq![member],
            Err(_) => kept_first@.len() == 0,
        },
{
    lemma_readable_adds(first@, second@);
    if first@.len() == 1 {
        assert(readable(first@.drop_last()) == Seq::<M>::empty());
        if let Ok(member) = first@[0] {
            assert(kept_first@ =~= seq![member]);
        }
    }
}

proof fn lemma_readable_adds<M, E>(first: Seq<Result<M, E>>, second: Seq<Result<M, E>>)
    ensures
        readable(first + second) == readable(first) + readable(second),
    decreases second.len(),
{
    if second.len() == 0 {
        assert(first + second =~= first);
        assert(readable(first) + readable(second) =~= readable(first));
    } else {
        assert((first + second).drop_last() =~= first + second.drop_last());
        assert((first + second).last() == second.last());
        lemma_readable_adds(first, second.drop_last());
        assert(readable(first + second) =~= readable(first) + readable(second));
    }
}

/// A chunk reaches the client as the members of it that can be read, and where there is none left the
/// client gets none.
pub proof fn law_chunks_reach_the_client<M, E>(
    members: Vec<Result<M, E>>,
    kept: Vec<M>,
    chunk: Option<Vec<M>>,
    last: Option<Vec<M>>,
)
    requires
        call_ensures(readable_members::<M, E>, (members,), kept),
        call_ensures(next_chunk::<M, E>, (Some(members),), chunk),
        call_ensures(next_chunk::<M, E>, (None,), last),
    ensures
        chunk matches Some(handed) && handed@ == kept@,
        last is None,
{
}

/// Power levels are given exactly if every user is named by an ID and every level is one that the
/// protocol carries. Then each user gets the level that was asked for, in order.
pub proof fn law_power_levels_are_given_as_asked(
    room: Room,
    updates: Vec<UserPowerLevelUpdate>,
    r: Result<Vec<(UserId, i64)>, ClientError>,
)
    requires
        call_ensures(Room::update_power_levels_for_users, (&room, updates), r),
    ensures
        r is Ok <==> forall|i: int|
            0 <= i < updates@.len() ==> {
                &&& user_id_problem((#[trigger] updates@[i]).user_id@) is None
                &&& -0x1F_FFFF_FFFF_FFFF <= updates@[i].power_level <= 0x1F_FFFF_FFFF_FFFF
            },
        r matches Ok(levels) ==> levels@.len() == updates@.len() && forall|i: int|
            0 <= i < updates@.len() ==> {
                &&& (#[trigger] levels@[i]).0@ == updates@[i].user_id@
                &&& levels@[i].1 == updates@[i].power_level
            },
        r matches Err(error) ==> exists|i: int|
            #![trigger updates@[i]]
            {
                &&& 0 <= i < updates@.len()
                &&& match user_id_problem(updates@[i].user_id@) {
                    Some(problem) => error@ == (ClientText::Generic {
                        msg: problem.message,
                        details: Some(problem.debug),
                    }),
                    None => error@ == (ClientText::Generic {
                        msg: "Invalid power level"@,
                        details: None,
                    }) && !(-0x1F_FFFF_FFFF_FFFF <= updates@[i].power_level
                        <= 0x1F_FFFF_FFFF_FFFF),
                }
                &&& forall|j: int|
                    0 <= j < i ==> {
                        &&& user_id_problem((#[trigger] updates@[j]).user_id@) is None
                        &&& -0x1F_FFFF_FFFF_FFFF <= updates@[j].power_level <= 0x1F_FFFF_FFFF_FFFF
                    }
            },
{
    assert forall|update: UserPowerLevelUpdate| #[trigger] update_problem(update) is None <==> {
        &&& user_id_problem(update.user_id@) is None
        &&& -0x1F_FFFF_FFFF_FFFF <= update.power_level <= 0x1F_FFFF_FFFF_FFFF
    } by {}
    if let Ok(levels) = r {
        assert forall|i: int| 0 <= i < updates@.len() implies {
            &&& user_id_problem((#[trigger] updates@[i]).user_id@) is None
            &&& -0x1F_FFFF_FFFF_FFFF <= updates@[i].power_level <= 0x1F_FFFF_FFFF_FFFF
        } by {
            assert(update_problem(updates@[i]) is None);
        }
        assert forall|i: int| 0 <= i < updates@.len() implies {
            &&& (#[trigger] levels@[i]).0@ == updates@[i].user_id@
            &&& levels@[i].1 == updates@[i].power_level
        } by {
            assert(update_problem(updates@[i]) is None);
        }
    }
    if let Err(error) = r {
        let i = choose|i: int|
            0 <= i < updates@.len() && (forall|j: int|
                0 <= j < i ==> update_problem(#[trigger] updates@[j]) is None) && update_problem(
                #[trigger] updates@[i],
            ) == Some(error@);
        assert forall|j: int| 0 <= j < i implies {
            &&& user_id_problem((#[trigger] updates@[j]).user_id@) is None
            &&& -0x1F_FFFF_FFFF_FFFF <= updates@[j].power_level <= 0x1F_FFFF_FFFF_FFFF
        } by {
            assert(update_problem(updates@[j]) is None);
        }
        assert(update_problem(updates@[i]) is Some);
    }
}

/// The user who is invited, banned, unbanned or removed is the one who was named, for the reason that
/// was given. A name that is no user ID is refused with what is wrong with it.
pub proof fn law_named_user_is_meant(
    room: Room,
    user_id: String,
    reason: Option<String>,
    invited: Result<UserId, ClientError>,
    banned: Result<MemberAction, ClientError>,
    unbanned: Result<MemberAction, ClientError>,
    removed: Result<MemberAction, ClientError>,
)
    requires
        call_ensures(Room::invite_user_by_id, (&room, user_id), invited),
        call_ensures(Room::ban_user, (&room, user_id, reason), banned),
        call_ensures(Room::unban_user, (&room, user_id, reason), unbanned),
        call_ensures(Room::kick_user, (&room, user_id, reason), removed),
    ensures
        match user_id_problem(user_id@) {
            None => {
                &&& invited matches Ok(id) && id@ == user_id@
                &&& banned matches Ok(action) && action.user_id@ == user_id@ && action.reason
                    == reason
                &&& unbanned matches Ok(action) && action.user_id@ == user_id@ && action.reason
                    == reason
                &&& removed matches Ok(action) && action.user_id@ == user_id@ && action.reason
                    == reason
            },
            Some(problem) => {
                let refused = ClientText::Generic {
                    msg: problem.message,
                    details: Some(problem.debug),
                };
                &&& invited is Err
                &&& banned matches Err(error) && error@ == refused
                &&& unbanned matches Err(error) && error@ == refused
                &&& removed matches Err(error) && error@ == refused
            },
        },
{
}

/// A member that was found is handed out as it is, and one that was not found is an error.
pub proof fn law_member_must_be_found<M>(member: Option<M>, r: Result<M, ClientError>)
    requires
        call_ensures(require_member::<M>, (member,), r),
    ensures
        r is Ok <==> member is Some,
        r matches Ok(found) ==> member == Some(found),
{
}

/// An invitation that cannot be sent, and a member who was not found, are told of in words of their
/// own.
pub proof fn law_words_about_members(
    room: Room,
    user_id: String,
    invited: ClientError,
    member: ClientError,
)
    requires
        call_ensures(Room::invite_user_by_id, (&room, user_id), Err(invited)),
        call_ensures(require_member::<UserId>, (None,), Err(member)),
    ensures
        user_id_problem(user_id@) matches Some(problem) && invited@ == (ClientText::Generic {
            msg: "Could not create user from string: "@ + problem.message,
            details: Some(problem.debug),
        }),
        member@ == (ClientText::Generic { msg: "User not found"@, details: None }),
{
}

} // verus!
