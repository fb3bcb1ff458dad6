//! Sending a message again although its recipients are not all trusted.
//!
//! Before the message is sent again, every user or device that stood in its way is looked up, one
//! after the other, and where there is one, the demand on it is dropped. The lookups and the changes
//! happen elsewhere; a step names the next of them.

use vstd::prelude::*;

use crate::errors::{foreign_client_error, ClientError, ClientText};
use crate::ids::{user_id_problem, UserId};
use crate::room::Room;
use crate::text::texts;

verus! {

/// What to do next about users whose identity changed.
#[derive(Debug)]
pub enum WithdrawStep {
    /// Look the identity of a user up.
    FindIdentity { user_id: String, next: WithdrawWalk },
    /// Withdraw the verification of the identity that was found.
    Withdraw { next: WithdrawWalk },
    /// Send the message again: there is no user left.
    Resend,
    /// Nothing: the message is not sent again.
    Failed { error: ClientError },
}

/// A walk over users.
#[derive(Debug)]
pub struct WithdrawWalk {
    pub user_ids: Vec<String>,
    /// How many of the users are done.
    pub done: usize,
}

impl WithdrawStep {
    /// The walk is over, with an error.
    pub open spec fn fails(self, problem: ClientText) -> bool {
        self matches WithdrawStep::Failed { error } && error@ == problem
    }

    /// The next user is looked up, or there is none and the message is sent again.
    pub open spec fn turns_to(self, user_ids: Seq<Seq<char>>, user: int) -> bool {
        if user < user_ids.len() {
            &&& self matches WithdrawStep::FindIdentity { user_id, next }
            &&& user_id@ == user_ids[user]
            &&& texts(next.user_ids@) == user_ids
            &&& next.done == user + 1
        } else {
            self is Resend
        }
    }
}

impl WithdrawWalk {
    fn turn(self) -> (r: WithdrawStep)
        ensures
            r.turns_to(texts(self.user_ids@), self.done as int),
    {
        if self.done < self.user_ids.len() {
            let user_id = self.user_ids[self.done].clone();
            WithdrawStep::FindIdentity {
                user_id,
                next: WithdrawWalk { user_ids: self.user_ids, done: self.done + 1 },
            }
        } else {
            WithdrawStep::Resend
        }
    }

    /// Goes on with whether the user has an identity.
    pub fn found(self, identity: Result<bool, ClientError>) -> (r: WithdrawStep)
        ensures
            match identity {
                Err(error) => r.fails(error@),
                Ok(true) => r == (WithdrawStep::Withdraw { next: self }),
                Ok(false) => r.turns_to(texts(self.user_ids@), self.done as int),
            },
    {
        match identity {
            Err(error) => WithdrawStep::Failed { error },
            Ok(true) => WithdrawStep::Withdraw { next: self },
            Ok(false) => self.turn(),
        }
    }

    /// Goes on once the verification was withdrawn.
    pub fn withdrawn(self, outcome: Result<(), ClientError>) -> (r: WithdrawStep)
        ensures
            match outcome {
                Err(error) => r.fails(error@),
                Ok(_) => r.turns_to(texts(self.user_ids@), self.done as int),
            },
    {
        match outcome {
            Err(error) => WithdrawStep::Failed { error },
            Ok(_) => self.turn(),
        }
    }
}

/// The message is sent again exactly when no user is left.
pub proof fn law_resend_comes_after_every_user(
    step: WithdrawStep,
    user_ids: Seq<Seq<char>>,
    user: int,
)
    requires
        step.turns_to(user_ids, user),
    ensures
        step is Resend <==> user >= user_ids.len(),
{
}

/// What to do next about devices that are not trusted.
#[derive(Debug)]
pub enum IgnoreStep {
    /// Look a device up.
    FindDevice { user_id: UserId, device_id: String, next: IgnoreWalk },
    /// Ignore the trust of the device that was found.
    Ignore { next: IgnoreWalk },
    /// Send the message again: there is no device left.
    Resend,
    /// Nothing: the message is not sent again.
    Failed { error: ClientError },
}

/// A walk over the devices of users.
#[derive(Debug)]
pub struct IgnoreWalk {
    pub devices: Vec<(String, Vec<String>)>,
    /// Which user comes next.
    pub user: usize,
    /// How many of that user's devices are done.
    pub done: usize,
}

/// Where a walk over devices goes next.
pub enum DeviceTurn {
    /// To a device of a user.
    Device { user: int, device: int },
    /// To an end, since something is wrong with the ID of a user.
    BadUser { problem: ClientText },
    /// To an end, since there is no device left.
    End,
}

/// Where a walk over devices goes next. The ID of a user is judged when the walk comes to the user,
/// even if the user has no device.
pub open spec fn device_turn(
    devices: Seq<(String, Vec<String>)>,
    user: int,
    done: int,
) -> DeviceTurn
    decreases devices.len() - user,
{
    if user >= devices.len() {
        DeviceTurn::End
    } else {
        match user_id_problem(devices[user].0@) {
            Some(problem) => DeviceTurn::BadUser { problem: foreign_client_error(problem) },
            None => if done < devices[user].1@.len() {
                DeviceTurn::Device { user, device: done }
            } else {
                device_turn(devices, user + 1, 0)
            },
        }
    }
}

impl IgnoreStep {
    /// The walk is over, with an error.
    pub open spec fn fails(self, problem: ClientText) -> bool {
        self matches IgnoreStep::Failed { error } && error@ == problem
    }

    /// The walk goes where it should.
    pub open spec fn turns_to(
        self,
        devices: Seq<(String, Vec<String>)>,
        user: int,
        done: int,
    ) -> bool {
        match device_turn(devices, user, done) {
            DeviceTurn::End => self is Resend,
            DeviceTurn::BadUser { problem } => self.fails(problem),
            DeviceTurn::Device { user: at, device } => {
                &&& self matches IgnoreStep::FindDevice { user_id, device_id, next }
                &&& user_id@ == devices[at].0@
                &&& device_id == devices[at].1@[device]
                &&& next.devices@ == devices
                &&& next.user == at
                &&& next.done == device + 1
            },
        }
    }
}

impl IgnoreWalk {
    fn turn(self) -> (r: IgnoreStep)
        ensures
            r.turns_to(self.devices@, self.user as int, self.done as int),
    {
        let mut user: usize = self.user;
        let mut done: usize = self.done;
        while user < self.devices.len()
            invariant
                device_turn(self.devices@, self.user as int, self.done as int) == device_turn(
                    self.devices@,
                    user as int,
                    done as int,
                ),
            decreases self.devices@.len() - user,
        {
            let user_id = match UserId::request(self.devices[user].0.as_str()) {
                Ok(user_id) => user_id,
                Err(error) => return IgnoreStep::Failed { error },
            };
            if done < self.devices[user].1.len() {
                let device_id = self.devices[user].1[done].clone();
                return IgnoreStep::FindDevice {
                    user_id,
                    device_id,
                    next: IgnoreWalk { devices: self.devices, user, done: done + 1 },
                };
            }
            user = user + 1;
            done = 0;
        }
        IgnoreStep::Resend
    }

    /// Goes on with whether there is such a device.
    pub fn found(self, device: Result<bool, ClientError>) -> (r: IgnoreStep)
        ensures
            match device {
                Err(error) => r.fails(error@),
                Ok(true) => r == (IgnoreStep::Ignore { next: self }),
                Ok(false) => r.turns_to(self.devices@, self.user as int, self.done as int),
            },
    {
        match device {
            Err(error) => IgnoreStep::Failed { error },
            Ok(true) => IgnoreStep::Ignore { next: self },
            Ok(false) => self.turn(),
        }
    }

    /// Goes on once the trust of the device is ignored.
    pub fn ignored(self, outcome: Result<(), ClientError>) -> (r: IgnoreStep)
        ensures
            match outcome {
                Err(error) => r.fails(error@),
                Ok(_) => r.turns_to(self.devices@, self.user as int, self.done as int),
            },
    {
        match outcome {
            Err(error) => IgnoreStep::Failed { error },
            Ok(_) => self.turn(),
        }
    }
}

/// The message is sent again only when no device is left: the user at hand has none any more, and
/// neither has any user after it.
pub proof fn law_resend_comes_after_every_device(
    devices: Seq<(String, Vec<String>)>,
    user: int,
    done: int,
)
    requires
        0 <= user,
        device_turn(devices, user, done) is End,
    ensures
        user < devices.len() ==> devices[user].1@.len() <= done,
        forall|later: int| user < later < devices.len() ==> (#[trigger] devices[later]).1@.len() == 0,
        forall|at: int|
            user <= at < devices.len() ==> user_id_problem((#[trigger] devices[at]).0@) is None,
    decreases devices.len() - user,
{
    if user < devices.len() {
        law_resend_comes_after_every_device(devices, user + 1, 0);
    }
}

/// A walk never skips a device: it goes to the next one of the user at hand if there is one.
pub proof fn law_no_device_is_skipped(devices: Seq<(String, Vec<String>)>, user: int, done: int)
    requires
        0 <= user < devices.len(),
        user_id_problem(devices[user].0@) is None,
        0 <= done < devices[user].1@.len(),
    ensures
        device_turn(devices, user, done) == (DeviceTurn::Device { user, device: done }),
{
}

impl Room {
    /// Begins to withdraw the verification of users, in order, so that a message can be sent again.
    /// Every ID is judged first.
    pub fn withdraw_verification_and_resend(&self, user_ids: Vec<String>) -> (r: WithdrawStep)
        ensures
            (forall|i: int| 0 <= i < user_ids@.len() ==> user_id_problem(#[trigger] user_ids@[i]@)
                is None) ==> r.turns_to(texts(user_ids@), 0),
            !(forall|i: int| 0 <= i < user_ids@.len() ==> user_id_problem(#[trigger] user_ids@[i]@)
                is None) ==> exists|i: int|
                0 <= i < user_ids@.len() && (forall|j: int|
                    0 <= j < i ==> user_id_problem(#[trigger] user_ids@[j]@) is None) && (
                user_id_problem(#[trigger] user_ids@[i]@) matches Some(problem) && r.fails(
                    foreign_client_error(problem),
                )),
    {
        match UserId::request_all(&user_ids) {
            Ok(_) => WithdrawWalk { user_ids, done: 0 }.turn(),
            Err(error) => WithdrawStep::Failed { error },
        }
    }

    /// Begins to ignore the trust of devices, so that a message can be sent again. Each user comes
    /// with the user's devices.
    pub fn ignore_device_trust_and_resend(&self, devices: Vec<(String, Vec<String>)>) -> (r:
        IgnoreStep)
        ensures
            r.turns_to(devices@, 0, 0),
    {
        IgnoreWalk { devices, user: 0, done: 0 }.turn()
    }
}

/// What comes back between two steps over users.
pub enum WithdrawAnswer {
    /// Whether the user has an identity.
    Identity(Result<bool, ClientError>),
    /// Whether the verification could be withdrawn.
    Withdrawal(Result<(), ClientError>),
}

/// A walk over users may go from one step to the other on an answer.
pub open spec fn withdraw_leads(
    before: WithdrawStep,
    answer: WithdrawAnswer,
    after: WithdrawStep,
) -> bool {
    match (before, answer) {
        (WithdrawStep::FindIdentity { next, .. }, WithdrawAnswer::Identity(identity)) => {
            call_ensures(WithdrawWalk::found, (next, identity), after)
        },
        (WithdrawStep::Withdraw { next }, WithdrawAnswer::Withdrawal(outcome)) => {
            call_ensures(WithdrawWalk::withdrawn, (next, outcome), after)
        },
        _ => false,
    }
}

/// The steps of a walk over users, and the answers between them.
pub open spec fn withdraw_run(steps: Seq<WithdrawStep>, answers: Seq<WithdrawAnswer>) -> bool {
    &&& steps.len() == answers.len() + 1
    &&& forall|i: int|
        0 <= i < answers.len() ==> withdraw_leads(steps[i], #[trigger] answers[i], steps[i + 1])
}

/// The users whose identities are looked up on the way, in order.
pub open spec fn looked_up(steps: Seq<WithdrawStep>) -> Seq<Seq<char>>
    decreases steps.len(),
{
    if steps.len() == 0 {
        Seq::empty()
    } else {
        match steps.last() {
            WithdrawStep::FindIdentity { user_id, .. } => looked_up(steps.drop_last()).push(user_id@),
            _ => looked_up(steps.drop_last()),
        }
    }
}

/// Where a walk over users stands after a step.
spec fn users_left(step: WithdrawStep, user_ids: Seq<Seq<char>>, done: int) -> bool {
    match step {
        WithdrawStep::FindIdentity { next, .. } => texts(next.user_ids@) == user_ids && next.done
            == done,
        WithdrawStep::Withdraw { next } => texts(next.user_ids@) == user_ids && next.done == done,
        WithdrawStep::Resend => done == user_ids.len(),
        WithdrawStep::Failed { .. } => true,
    }
}

proof fn lemma_users_in_order(
    user_ids: Seq<Seq<char>>,
    steps: Seq<WithdrawStep>,
    answers: Seq<WithdrawAnswer>,
) -> (done: int)
    requires
        withdraw_run(steps, answers),
        steps[0].turns_to(user_ids, 0),
    ensures
        0 <= done <= user_ids.len(),
        looked_up(steps) == user_ids.take(done),
        users_left(steps.last(), user_ids, done),
    decreases answers.len(),
{
    let earlier = steps.drop_last();
    if answers.len() == 0 {
        assert(looked_up(earlier) == Seq::<Seq<char>>::empty());
        if user_ids.len() > 0 {
            assert(looked_up(steps) =~= user_ids.take(1));
            1
        } else {
            assert(looked_up(steps) =~= user_ids.take(0));
            0
        }
    } else {
        let n = answers.len() - 1;
        let before = answers.drop_last();
        assert forall|i: int| 0 <= i < before.len() implies withdraw_leads(
            earlier[i],
            #[trigger] before[i],
            earlier[i + 1],
        ) by {
            assert(answers[i] == before[i]);
        }
        let done = lemma_users_in_order(user_ids, earlier, before);
        assert(withdraw_leads(steps[n], answers[n], steps[n + 1]));
        assert(earlier.last() == steps[n]);
        if steps.last() is FindIdentity {
            assert(looked_up(steps) =~= user_ids.take(done + 1));
            done + 1
        } else {
            done
        }
    }
}

/// Once the message is sent again, the identity of every listed user was looked up, in the order of
/// the list; on the way there, that of the first ones.
pub proof fn law_every_user_is_looked_up(
    room: Room,
    user_ids: Vec<String>,
    steps: Seq<WithdrawStep>,
    answers: Seq<WithdrawAnswer>,
)
    requires
        call_ensures(Room::withdraw_verification_and_resend, (&room, user_ids), steps[0]),
        withdraw_run(steps, answers),
    ensures
        looked_up(steps).len() <= user_ids@.len(),
        forall|i: int|
            0 <= i < looked_up(steps).len() ==> #[trigger] looked_up(steps)[i] == user_ids@[i]@,
        steps.last() is Resend ==> looked_up(steps).len() == user_ids@.len(),
{
    if forall|i: int| 0 <= i < user_ids@.len() ==> user_id_problem(#[trigger] user_ids@[i]@) is None {
        let done = lemma_users_in_order(texts(user_ids@), steps, answers);
    } else {
        assert(steps[0] is Failed);
        if answers.len() > 0 {
            assert(withdraw_leads(steps[0], answers[0], steps[1]));
        }
        assert(looked_up(steps.drop_last()) == Seq::<Seq<char>>::empty());
        assert(steps.last() == steps[0]);
    }
}

/// The verification of an identity is withdrawn right after the identity was found, and only then.
pub proof fn law_found_identity_is_withdrawn(
    steps: Seq<WithdrawStep>,
    answers: Seq<WithdrawAnswer>,
    i: int,
)
    requires
        withdraw_run(steps, answers),
        0 <= i < answers.len(),
    ensures
        steps[i + 1] is Withdraw <==> answers[i] == WithdrawAnswer::Identity(Ok(true)),
{
    assert(withdraw_leads(steps[i], answers[i], steps[i + 1]));
}

/// The message is not sent again exactly where the ID of a user is no ID, in which case nothing was
/// looked up, or where a lookup or a change failed.
pub proof fn law_withdrawing_fails_only_for_cause(
    room: Room,
    user_ids: Vec<String>,
    steps: Seq<WithdrawStep>,
    answers: Seq<WithdrawAnswer>,
    i: int,
)
    requires
        call_ensures(Room::withdraw_verification_and_resend, (&room, user_ids), steps[0]),
        withdraw_run(steps, answers),
        0 <= i < answers.len(),
    ensures
        steps[0] is Failed <==> exists|j: int|
            0 <= j < user_ids@.len() && user_id_problem(#[trigger] user_ids@[j]@) is Some,
        match answers[i] {
            WithdrawAnswer::Identity(Err(problem)) => steps[i + 1] matches WithdrawStep::Failed {
                error,
            } && error@ == problem@,
            WithdrawAnswer::Withdrawal(Err(problem)) => steps[i + 1] matches WithdrawStep::Failed {
                error,
            } && error@ == problem@,
            _ => !(steps[i + 1] is Failed),
        },
{
    assert(withdraw_leads(steps[i], answers[i], steps[i + 1]));
}

/// What comes back between two steps over devices.
pub enum IgnoreAnswer {
    /// Whether there is such a device.
    Device(Result<bool, ClientError>),
    /// Whether the trust of the device could be ignored.
    Ignored(Result<(), ClientError>),
}

/// A walk over devices may go from one step to the other on an answer.
pub open spec fn ignore_leads(before: IgnoreStep, answer: IgnoreAnswer, after: IgnoreStep) -> bool {
    match (before, answer) {
        (IgnoreStep::FindDevice { next, .. }, IgnoreAnswer::Device(device)) => {
            call_ensures(IgnoreWalk::found, (next, device), after)
        },
        (IgnoreStep::Ignore { next }, IgnoreAnswer::Ignored(outcome)) => {
            call_ensures(IgnoreWalk::ignored, (next, outcome), after)
        },
        _ => false,
    }
}

/// The steps of a walk over devices, and the answers between them.
pub open spec fn ignore_run(steps: Seq<IgnoreStep>, answers: Seq<IgnoreAnswer>) -> bool {
    &&& steps.len() == answers.len() + 1
    &&& forall|i: int|
        0 <= i < answers.len() ==> ignore_leads(steps[i], #[trigger] answers[i], steps[i + 1])
}

/// The devices that are looked up on the way, in order, each after its user.
pub open spec fn devices_asked(steps: Seq<IgnoreStep>) -> Seq<(Seq<char>, Seq<char>)>
    decreases steps.len(),
{
    if steps.len() == 0 {
        Seq::empty()
    } else {
        match steps.last() {
            IgnoreStep::FindDevice { user_id, device_id, .. } => devices_asked(
                steps.drop_last(),
            ).push((user_id@, device_id@)),
            _ => devices_asked(steps.drop_last()),
        }
    }
}

/// All the devices of a user, in order, each after the user.
pub open spec fn devices_of(user: (String, Vec<String>)) -> Seq<(Seq<char>, Seq<char>)> {
    user.1@.map_values(|device: String| (user.0@, device@))
}

/// All the devices of a list, user by user.
pub open spec fn devices_listed(devices: Seq<(String, Vec<String>)>) -> Seq<
    (Seq<char>, Seq<char>),
>
    decreases devices.len(),
{
    if devices.len() == 0 {
        Seq::empty()
    } else {
        devices_listed(devices.drop_last()) + devices_of(devices.last())
    }
}

/// The devices of a list before one of them: those of the earlier users, and the first ones of the
/// user.
spec fn devices_before(devices: Seq<(String, Vec<String>)>, user: int, done: int) -> Seq<
    (Seq<char>, Seq<char>),
> {
    if user < devices.len() {
        devices_listed(devices.take(user)) + devices_of(devices[user]).take(done)
    } else {
        devices_listed(devices)
    }
}

/// The walk goes on from the very place it has come to: whatever lies between is empty.
proof fn lemma_turn_skips_nothing(
    devices: Seq<(String, Vec<String>)>,
    user: int,
    done: int,
)
    requires
        0 <= user <= devices.len(),
        0 <= done,
        user < devices.len() ==> done <= devices[user].1@.len(),
        user == devices.len() ==> done == 0,
    ensures
        match device_turn(devices, user, done) {
            DeviceTurn::End => devices_before(devices, user, done) == devices_listed(devices)
                && forall|at: int|
                user <= at < devices.len() ==> user_id_problem((#[trigger] devices[at]).0@) is None,
            DeviceTurn::BadUser { problem } => exists|at: int|
                #![trigger devices[at]]
                user <= at < devices.len() && devices_before(devices, user, done) == devices_before(
                    devices,
                    at,
                    if at == user {
                        done
                    } else {
                        0
                    },
                ) && (user_id_problem(devices[at].0@) matches Some(text) && problem
                    == foreign_client_error(text)) && (forall|earlier: int|
                    user <= earlier < at ==> user_id_problem((#[trigger] devices[earlier]).0@)
                        is None),
            DeviceTurn::Device { user: at, device } => {
                &&& user <= at < devices.len()
                &&& 0 <= device < devices[at].1@.len()
                &&& forall|earlier: int|
                    user <= earlier <= at ==> user_id_problem((#[trigger] devices[earlier]).0@)
                        is None
                &&& devices_before(devices, user, done) == devices_before(devices, at, device)
            },
        },
    decreases devices.len() - user,
{
    if user < devices.len() {
        if user_id_problem(devices[user].0@) is Some {
        } else if done < devices[user].1@.len() {
        } else {
            assert(devices_of(devices[user]).take(done) =~= devices_of(devices[user]));
            assert(devices.take(user + 1).drop_last() =~= devices.take(user));
            assert(devices.take(user + 1).last() == devices[user]);
            assert(devices.take(devices.len() as int) =~= devices);
            if user + 1 < devices.len() {
                assert(devices_of(devices[user + 1]).take(0) =~= Seq::<
                    (Seq<char>, Seq<char>),
                >::empty());
            }
            assert(devices_before(devices, user, done) =~= devices_before(devices, user + 1, 0));
            lemma_turn_skips_nothing(devices, user + 1, 0);
        }
    }
}

/// Where a walk over devices stands after a step.
spec fn devices_left(
    step: IgnoreStep,
    devices: Seq<(String, Vec<String>)>,
    asked: Seq<(Seq<char>, Seq<char>)>,
) -> bool {
    match step {
        IgnoreStep::FindDevice { next, .. } => next.stands(devices, asked),
        IgnoreStep::Ignore { next } => next.stands(devices, asked),
        IgnoreStep::Resend => asked == devices_listed(devices),
        IgnoreStep::Failed { .. } => exists|user: int, done: int| #[trigger]
            devices_before(devices, user, done) == asked && 0 <= user <= devices.len() && 0 <= done
                && (user < devices.len() ==> done <= devices[user].1@.len()),
    }
}

impl IgnoreWalk {
    spec fn stands(
        self,
        devices: Seq<(String, Vec<String>)>,
        asked: Seq<(Seq<char>, Seq<char>)>,
    ) -> bool {
        &&& self.devices@ == devices
        &&& self.user < devices.len()
        &&& self.done <= devices[self.user as int].1@.len()
        &&& forall|at: int|
            0 <= at <= self.user ==> user_id_problem((#[trigger] devices[at]).0@) is None
        &&& asked == devices_before(devices, self.user as int, self.done as int)
    }
}

/// A step that goes on from a place, after the devices before it.
proof fn lemma_devices_left(
    step: IgnoreStep,
    devices: Seq<(String, Vec<String>)>,
    user: int,
    done: int,
    asked: Seq<(Seq<char>, Seq<char>)>,
)
    requires
        step.turns_to(devices, user, done),
        0 <= user <= devices.len(),
        0 <= done,
        user < devices.len() ==> done <= devices[user].1@.len(),
        user == devices.len() ==> done == 0,
        user > 0 ==> forall|at: int|
            0 <= at <= user && at < devices.len() ==> user_id_problem((#[trigger] devices[at]).0@)
                is None,
        asked == devices_before(devices, user, done),
    ensures
        devices_left(
            step,
            devices,
            if let IgnoreStep::FindDevice { user_id, device_id, .. } = step {
                asked.push((user_id@, device_id@))
            } else {
                asked
            },
        ),
{
    lemma_turn_skips_nothing(devices, user, done);
    if let DeviceTurn::Device { user: at, device } = device_turn(devices, user, done) {
        assert(devices_before(devices, at, device + 1) =~= devices_before(devices, at, device).push(
            (devices[at].0@, devices[at].1@[device]@),
        )) by {
            assert(devices_of(devices[at]).take(device + 1) =~= devices_of(devices[at]).take(
                device,
            ).push((devices[at].0@, devices[at].1@[device]@)));
        }
    }
}

proof fn lemma_devices_in_order(
    devices: Seq<(String, Vec<String>)>,
    steps: Seq<IgnoreStep>,
    answers: Seq<IgnoreAnswer>,
)
    requires
        ignore_run(steps, answers),
        steps[0].turns_to(devices, 0, 0),
    ensures
        devices_left(steps.last(), devices, devices_asked(steps)),
    decreases answers.len(),
{
    let earlier = steps.drop_last();
    if answers.len() == 0 {
        assert(devices_asked(earlier) == Seq::<(Seq<char>, Seq<char>)>::empty());
        assert(devices_before(devices, 0, 0) =~= Seq::<(Seq<char>, Seq<char>)>::empty()) by {
            assert(devices_listed(devices.take(0)) == Seq::<(Seq<char>, Seq<char>)>::empty());
        }
        lemma_devices_left(steps[0], devices, 0, 0, Seq::empty());
    } else {
        let n = answers.len() - 1;
        let before = answers.drop_last();
        assert forall|i: int| 0 <= i < before.len() implies ignore_leads(
            earlier[i],
            #[trigger] before[i],
            earlier[i + 1],
        ) by {
            assert(answers[i] == before[i]);
        }
        lemma_devices_in_order(devices, earlier, before);
        assert(ignore_leads(steps[n], answers[n], steps[n + 1]));
        assert(earlier.last() == steps[n]);
        let asked = devices_asked(earlier);
        let walk = if let IgnoreStep::FindDevice { next, .. } = steps[n] {
            next
        } else {
            steps[n]->Ignore_next
        };
        assert(walk.stands(devices, asked));
        if steps.last() is Failed {
            assert(devices_before(devices, walk.user as int, walk.done as int) == asked);
        }
        if steps.last().turns_to(devices, walk.user as int, walk.done as int) {
            lemma_devices_left(
                steps.last(),
                devices,
                walk.user as int,
                walk.done as int,
                asked,
            );
        }
    }
}

/// Once the message is sent again, every listed device of every listed user was looked up, user by
/// user and in order, and no other.
pub proof fn law_every_device_is_looked_up(
    room: Room,
    devices: Vec<(String, Vec<String>)>,
    steps: Seq<IgnoreStep>,
    answers: Seq<IgnoreAnswer>,
)
    requires
        call_ensures(Room::ignore_device_trust_and_resend, (&room, devices), steps[0]),
        ignore_run(steps, answers),
        steps.last() is Resend,
    ensures
        devices_asked(steps) == devices_listed(devices@),
{
    lemma_devices_in_order(devices@, steps, answers);
}

/// Wherever a walk has come to, the devices that were looked up are those before that place, user by
/// user and in order: nothing is skipped, nothing comes twice.
pub proof fn law_devices_are_looked_up_in_order(
    room: Room,
    devices: Vec<(String, Vec<String>)>,
    steps: Seq<IgnoreStep>,
    answers: Seq<IgnoreAnswer>,
)
    requires
        call_ensures(Room::ignore_device_trust_and_resend, (&room, devices), steps[0]),
        ignore_run(steps, answers),
    ensures
        devices_asked(steps).is_prefix_of(devices_listed(devices@)),
{
    lemma_devices_in_order(devices@, steps, answers);
    let asked = devices_asked(steps);
    let (user, done) = match steps.last() {
        IgnoreStep::FindDevice { next, .. } => (next.user as int, next.done as int),
        IgnoreStep::Ignore { next } => (next.user as int, next.done as int),
        IgnoreStep::Resend => (devices@.len() as int, 0int),
        IgnoreStep::Failed { .. } => choose|user: int, done: int| #[trigger]
            devices_before(devices@, user, done) == asked && 0 <= user <= devices@.len() && 0
                <= done && (user < devices@.len() ==> done <= devices@[user].1@.len()),
    };
    assert(asked == devices_before(devices@, user, done));
    lemma_before_is_prefix(devices@, user, done);
}

proof fn lemma_before_is_prefix(devices: Seq<(String, Vec<String>)>, user: int, done: int)
    requires
        0 <= user <= devices.len(),
        0 <= done,
        user < devices.len() ==> done <= devices[user].1@.len(),
    ensures
        devices_before(devices, user, done).is_prefix_of(devices_listed(devices)),
    decreases devices.len(),
{
    if user < devices.len() {
        let shorter = devices.drop_last();
        assert(devices_listed(devices) == devices_listed(shorter) + devices_of(devices.last()));
        if user == devices.len() - 1 {
            assert(devices.take(user) =~= shorter);
            assert(devices_before(devices, user, done) =~= devices_listed(devices).take(
                devices_before(devices, user, done).len() as int,
            ));
        } else {
            lemma_before_is_prefix(shorter, user, done);
            assert(shorter.take(user) =~= devices.take(user));
            assert(devices_before(shorter, user, done) == devices_before(devices, user, done));
            let before = devices_before(devices, user, done);
            assert(before =~= devices_listed(devices).subrange(0, before.len() as int)) by {
                assert(before =~= devices_listed(shorter).subrange(0, before.len() as int));
            }
        }
    }
}

/// The trust of a device is ignored right after the device was found, and only then.
pub proof fn law_found_device_is_ignored(
    steps: Seq<IgnoreStep>,
    answers: Seq<IgnoreAnswer>,
    i: int,
)
    requires
        ignore_run(steps, answers),
        0 <= i < answers.len(),
    ensures
        steps[i + 1] is Ignore <==> answers[i] == IgnoreAnswer::Device(Ok(true)),
{
    assert(ignore_leads(steps[i], answers[i], steps[i + 1]));
}

/// Where the ID of every user is one, the message is not sent again exactly where a lookup or a
/// change failed.
pub proof fn law_ignoring_fails_only_for_cause(
    room: Room,
    devices: Vec<(String, Vec<String>)>,
    steps: Seq<IgnoreStep>,
    answers: Seq<IgnoreAnswer>,
    i: int,
)
    requires
        call_ensures(Room::ignore_device_trust_and_resend, (&room, devices), steps[0]),
        ignore_run(steps, answers),
        forall|at: int|
            0 <= at < devices@.len() ==> user_id_problem((#[trigger] devices@[at]).0@) is None,
        0 <= i < answers.len(),
    ensures
        !(steps[0] is Failed),
        match answers[i] {
            IgnoreAnswer::Device(Err(problem)) => steps[i + 1] matches IgnoreStep::Failed { error }
                && error@ == problem@,
            IgnoreAnswer::Ignored(Err(problem)) => steps[i + 1] matches IgnoreStep::Failed {
                error,
            } && error@ == problem@,
            _ => !(steps[i + 1] is Failed),
        },
{
    lemma_turn_skips_nothing(devices@, 0, 0);
    assert(ignore_leads(steps[i], answers[i], steps[i + 1]));
    let walked = steps.take(i + 1);
    let given = answers.take(i);
    assert forall|j: int| 0 <= j < given.len() implies ignore_leads(
        walked[j],
        #[trigger] given[j],
        walked[j + 1],
    ) by {
        assert(answers[j] == given[j]);
    }
    lemma_devices_in_order(devices@, walked, given);
    assert(walked.last() == steps[i]);
    if let IgnoreStep::FindDevice { next, .. } = steps[i] {
        lemma_turn_skips_nothing(devices@, next.user as int, next.done as int);
    }
    if let IgnoreStep::Ignore { next } = steps[i] {
        lemma_turn_skips_nothing(devices@, next.user as int, next.done as int);
    }
}

/// A walk in which no lookup and no change failed ends at the first user whose ID is none, once it
/// comes to that user, with what is wrong with the ID. The devices of the users before were looked up
/// by then.
pub proof fn law_walk_ends_at_the_first_bad_user(
    room: Room,
    devices: Vec<(String, Vec<String>)>,
    steps: Seq<IgnoreStep>,
    answers: Seq<IgnoreAnswer>,
    error: ClientError,
)
    requires
        call_ensures(Room::ignore_device_trust_and_resend, (&room, devices), steps[0]),
        ignore_run(steps, answers),
        forall|i: int|
            0 <= i < answers.len() ==> match #[trigger] answers[i] {
                IgnoreAnswer::Device(device) => device is Ok,
                IgnoreAnswer::Ignored(outcome) => outcome is Ok,
            },
        steps.last() == (IgnoreStep::Failed { error }),
    ensures
        exists|user: int|
            #![trigger devices@[user]]
            {
                &&& 0 <= user < devices@.len()
                &&& user_id_problem(devices@[user].0@) matches Some(problem)
                &&& error@ == (ClientText::Generic {
                    msg: problem.message,
                    details: Some(problem.debug),
                })
                &&& forall|earlier: int|
                    0 <= earlier < user ==> user_id_problem((#[trigger] devices@[earlier]).0@) is None
                &&& devices_asked(steps) == devices_listed(devices@.take(user))
            },
{
    let all = devices@;
    let earlier = steps.drop_last();
    let (user, done) = if answers.len() == 0 {
        assert(devices_asked(earlier) == Seq::<(Seq<char>, Seq<char>)>::empty());
        assert(devices_listed(all.take(0)) == Seq::<(Seq<char>, Seq<char>)>::empty());
        assert(devices_before(all, 0, 0) =~= devices_asked(steps));
        (0int, 0int)
    } else {
        let n = answers.len() - 1;
        let before = answers.drop_last();
        assert forall|i: int| 0 <= i < before.len() implies ignore_leads(
            earlier[i],
            #[trigger] before[i],
            earlier[i + 1],
        ) by {
            assert(answers[i] == before[i]);
        }
        lemma_devices_in_order(all, earlier, before);
        assert(ignore_leads(steps[n], answers[n], steps[n + 1]));
        assert(earlier.last() == steps[n]);
        let walk = if let IgnoreStep::FindDevice { next, .. } = steps[n] {
            next
        } else {
            steps[n]->Ignore_next
        };
        (walk.user as int, walk.done as int)
    };
    assert(devices_asked(steps) == devices_before(all, user, done));
    lemma_turn_skips_nothing(all, user, done);
    let at = choose|at: int|
        #![trigger all[at]]
        user <= at < all.len() && devices_before(all, user, done) == devices_before(
            all,
            at,
            if at == user {
                done
            } else {
                0
            },
        ) && user_id_problem(all[at].0@) is Some && (forall|earlier: int|
            user <= earlier < at ==> user_id_problem((#[trigger] all[earlier]).0@) is None);
    assert(devices_of(all[at]).take(0) =~= Seq::<(Seq<char>, Seq<char>)>::empty());
    assert(devices_before(all, at, 0) =~= devices_listed(all.take(at)));
}

/// Users of whom one is named by no ID are not looked up: the walk fails at once, with what is wrong
/// with the first such name.
pub proof fn law_first_bad_user_ends_the_withdrawal(
    room: Room,
    user_ids: Vec<String>,
    error: ClientError,
)
    requires
        call_ensures(
            Room::withdraw_verification_and_resend,
            (&room, user_ids),
            WithdrawStep::Failed { error },
        ),
    ensures
        exists|i: int|
            #![trigger user_ids@[i]]
            {
                &&& 0 <= i < user_ids@.len()
                &&& user_id_problem(user_ids@[i]@) matches Some(problem)
                &&& error@ == (ClientText::Generic {
                    msg: problem.message,
                    details: Some(problem.debug),
                })
                &&& forall|j: int|
                    0 <= j < i ==> user_id_problem(#[trigger] user_ids@[j]@) is None
            },
{
    let i = choose|i: int|
        0 <= i < user_ids@.len() && (forall|j: int|
            0 <= j < i ==> user_id_problem(#[trigger] user_ids@[j]@) is None) && (user_id_problem(
            #[trigger] user_ids@[i]@,
        ) matches Some(problem) && error@ == foreign_client_error(problem));
    let id = user_ids@[i];
}

/// A walk goes on to the very next user of the list, and to the message once there is none left.
pub proof fn law_next_user_is_the_next_of_the_list(
    walk: WithdrawWalk,
    passed: WithdrawStep,
    withdrawn: WithdrawStep,
)
    requires
        call_ensures(WithdrawWalk::found, (walk, Ok(false)), passed),
        call_ensures(WithdrawWalk::withdrawn, (walk, Ok(())), withdrawn),
    ensures
        walk.done >= walk.user_ids@.len() ==> passed is Resend && withdrawn is Resend,
        walk.done < walk.user_ids@.len() ==> {
            &&& passed matches WithdrawStep::FindIdentity { user_id, next }
            &&& user_id@ == walk.user_ids@[walk.done as int]@
            &&& next.done == walk.done + 1
        },
        walk.done < walk.user_ids@.len() ==> {
            &&& withdrawn matches WithdrawStep::FindIdentity { user_id, next }
            &&& user_id@ == walk.user_ids@[walk.done as int]@
            &&& next.done == walk.done + 1
        },
{
    if walk.done < walk.user_ids@.len() {
        assert(texts(walk.user_ids@)[walk.done as int] == walk.user_ids@[walk.done as int]@);
    }
}

/// A walk goes on to the next device of the user at hand, where there is one.
pub proof fn law_next_device_is_the_next_of_the_user(
    walk: IgnoreWalk,
    passed: IgnoreStep,
    ignored: IgnoreStep,
)
    requires
        call_ensures(IgnoreWalk::found, (walk, Ok(false)), passed),
        call_ensures(IgnoreWalk::ignored, (walk, Ok(())), ignored),
        walk.user < walk.devices@.len(),
        walk.done < walk.devices@[walk.user as int].1@.len(),
        user_id_problem(walk.devices@[walk.user as int].0@) is None,
    ensures
        passed matches IgnoreStep::FindDevice { user_id, device_id, next } && {
            &&& user_id@ == walk.devices@[walk.user as int].0@
            &&& device_id == walk.devices@[walk.user as int].1@[walk.done as int]
            &&& next.devices@ == walk.devices@
            &&& next.user == walk.user
            &&& next.done == walk.done + 1
        },
        ignored matches IgnoreStep::FindDevice { user_id, device_id, next } && {
            &&& user_id@ == walk.devices@[walk.user as int].0@
            &&& device_id == walk.devices@[walk.user as int].1@[walk.done as int]
            &&& next.devices@ == walk.devices@
            &&& next.user == walk.user
            &&& next.done == walk.done + 1
        },
{
}

/// Where the user at hand has no device left, a walk goes on to the first device of the first later
/// user who has any.
pub proof fn law_next_user_with_devices_comes_next(
    walk: IgnoreWalk,
    later: int,
    passed: IgnoreStep,
    ignored: IgnoreStep,
)
    requires
        call_ensures(IgnoreWalk::found, (walk, Ok(false)), passed),
        call_ensures(IgnoreWalk::ignored, (walk, Ok(())), ignored),
        walk.user < later < walk.devices@.len(),
        walk.done >= walk.devices@[walk.user as int].1@.len(),
        walk.devices@[later].1@.len() > 0,
        forall|between: int|
            walk.user < between < later ==> (#[trigger] walk.devices@[between]).1@.len() == 0,
        forall|at: int|
            walk.user <= at <= later ==> user_id_problem((#[trigger] walk.devices@[at]).0@) is None,
    ensures
        passed matches IgnoreStep::FindDevice { user_id, device_id, next } && {
            &&& user_id@ == walk.devices@[later].0@
            &&& device_id == walk.devices@[later].1@[0]
            &&& next.devices@ == walk.devices@
            &&& next.user == later
            &&& next.done == 1
        },
        ignored matches IgnoreStep::FindDevice { user_id, device_id, next } && {
            &&& user_id@ == walk.devices@[later].0@
            &&& device_id == walk.devices@[later].1@[0]
            &&& next.devices@ == walk.devices@
            &&& next.user == later
            &&& next.done == 1
        },
{
    assert(user_id_problem(walk.devices@[walk.user as int].0@) is None);
    lemma_first_later_user(walk.devices@, walk.user + 1, later);
}

proof fn lemma_first_later_user(devices: Seq<(String, Vec<String>)>, user: int, later: int)
    requires
        0 <= user <= later < devices.len(),
        devices[later].1@.len() > 0,
        forall|between: int|
            user <= between < later ==> (#[trigger] devices[between]).1@.len() == 0,
        forall|at: int|
            user <= at <= later ==> user_id_problem((#[trigger] devices[at]).0@) is None,
    ensures
        device_turn(devices, user, 0) == (DeviceTurn::Device { user: later, device: 0 }),
    decreases later - user,
{
    assert(user_id_problem(devices[user].0@) is None);
    if user < later {
        assert(devices[user].1@.len() == 0);
        lemma_first_later_user(devices, user + 1, later);
    }
}

/// Once the message is sent again, each device that is on the list of a user was looked up: one of the
/// steps asked for it.
pub proof fn law_each_listed_device_was_asked_for(
    room: Room,
    devices: Vec<(String, Vec<String>)>,
    steps: Seq<IgnoreStep>,
    answers: Seq<IgnoreAnswer>,
    user: int,
    device: int,
)
    requires
        call_ensures(Room::ignore_device_trust_and_resend, (&room, devices), steps[0]),
        ignore_run(steps, answers),
        steps.last() is Resend,
        0 <= user < devices@.len(),
        0 <= device < devices@[user].1@.len(),
    ensures
        exists|k: int|
            #![trigger steps[k]]
            0 <= k < steps.len() && (steps[k] matches IgnoreStep::FindDevice {
                user_id,
                device_id,
                ..
            } && user_id@ == devices@[user].0@ && device_id@ == devices@[user].1@[device]@),
{
    law_every_device_is_looked_up(room, devices, steps, answers);
    let wanted = (devices@[user].0@, devices@[user].1@[device]@);
    lemma_listed_device(devices@, user, device);
    let at = choose|at: int|
        0 <= at < devices_listed(devices@).len() && devices_listed(devices@)[at] == wanted;
    let k = lemma_asked_in_a_step(steps, at);
    let step = steps[k];
}

proof fn lemma_listed_device(devices: Seq<(String, Vec<String>)>, user: int, device: int)
    requires
        0 <= user < devices.len(),
        0 <= device < devices[user].1@.len(),
    ensures
        devices_listed(devices).contains((devices[user].0@, devices[user].1@[device]@)),
    decreases devices.len(),
{
    let shorter = devices_listed(devices.drop_last());
    let wanted = (devices[user].0@, devices[user].1@[device]@);
    if user == devices.len() - 1 {
        assert(devices_of(devices.last())[device] == wanted);
        assert(devices_listed(devices)[shorter.len() + device] == wanted);
    } else {
        lemma_listed_device(devices.drop_last(), user, device);
        let at = choose|at: int| 0 <= at < shorter.len() && shorter[at] == wanted;
        assert(devices_listed(devices)[at] == wanted);
    }
}

proof fn lemma_asked_in_a_step(steps: Seq<IgnoreStep>, at: int) -> (k: int)
    requires
        0 <= at < devices_asked(steps).len(),
    ensures
        0 <= k < steps.len(),
        steps[k] matches IgnoreStep::FindDevice { user_id, device_id, .. } && (
            user_id@,
            device_id@,
        ) == devices_asked(steps)[at],
    decreases steps.len(),
{
    let shorter = devices_asked(steps.drop_last());
    if at < shorter.len() {
        lemma_asked_in_a_step(steps.drop_last(), at)
    } else {
        steps.len() - 1
    }
}

} // verus!
