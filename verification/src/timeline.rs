//! Timelines and what they show.

use vstd::prelude::*;

use crate::errors::{plain_client_error, ClientError, ClientText};
use crate::room::Room;

verus! {

/// The kinds of messages.
#[derive(Debug, Clone, Copy, PartialEq, Eq, Structural)]
pub enum RoomMessageEventMessageType {
    Audio,
    Emote,
    File,
    Gallery,
    Image,
    Location,
    Notice,
    ServerNotice,
    Text,
    Video,
    VerificationRequest,
    Other,
}

/// Which events a client wants to see.
#[derive(Debug)]
pub enum TimelineFilter {
    /// All that a timeline shows.
    All,
    /// Messages of some kinds.
    OnlyMessage { types: Vec<RoomMessageEventMessageType> },
    /// Those that a rule of the client's lets pass.
    EventFilter,
}

/// What a client wants of a timeline. `F` is what the timeline is about, `D` where it puts dividers.
#[derive(Debug)]
pub struct TimelineConfiguration<F, D> {
    /// What the timeline is about, if it could be made out.
    pub focus: Result<F, ClientError>,
    pub filter: TimelineFilter,
    pub internal_id_prefix: Option<String>,
    pub date_divider_mode: D,
    pub track_read_receipts: bool,
    /// Whether events that could not be decrypted are reported.
    pub report_utds: bool,
}

/// A rule that is put on top of a timeline's own.
#[derive(Debug)]
pub enum EventRule {
    /// Only messages of some kinds pass.
    OnlyMessage { types: Vec<RoomMessageEventMessageType> },
    /// Only events that a rule of the client's lets pass do.
    Client,
}

/// A timeline to build.
#[derive(Debug)]
pub struct TimelinePlan<F, D> {
    pub focus: F,
    pub date_divider_mode: D,
    pub track_read_receipts: bool,
    /// The rule on top of the timeline's own, if any.
    pub rule: Option<EventRule>,
    pub internal_id_prefix: Option<String>,
    /// Whether events that could not be decrypted are reported.
    pub report_utds: bool,
}

impl EventRule {
    /// Whether an event passes: the timeline's own rule comes first. `message` is the kind of
    /// message that the event is, if it is one and was not redacted.
    pub open spec fn passes(
        self,
        by_default: bool,
        message: Option<RoomMessageEventMessageType>,
        by_client: bool,
    ) -> bool {
        by_default && match self {
            EventRule::OnlyMessage { types } => message matches Some(kind) && types@.contains(kind),
            EventRule::Client => by_client,
        }
    }

    /// Whether an event passes.
    pub fn admits(
        &self,
        by_default: bool,
        message: Option<RoomMessageEventMessageType>,
        by_client: bool,
    ) -> (r: bool)
        ensures
            r == self.passes(by_default, message, by_client),
    {
        if !by_default {
            return false;
        }
        match self {
            EventRule::OnlyMessage { types } => match message {
                Some(kind) => includes(types, kind),
                None => false,
            },
            EventRule::Client => by_client,
        }
    }
}

fn includes(types: &Vec<RoomMessageEventMessageType>, kind: RoomMessageEventMessageType) -> (r:
    bool)
    ensures
        r == types@.contains(kind),
{
    let mut i: usize = 0;
    while i < types.len()
        invariant
            i <= types@.len(),
            forall|j: int| 0 <= j < i ==> #[trigger] types@[j] != kind,
        decreases types@.len() - i,
    {
        if types[i] == kind {
            return true;
        }
        i = i + 1;
    }
    false
}

/// An event that the timeline's own rule keeps out stays out, whatever rule is put on top.
pub proof fn law_default_filter_comes_first(
    rule: EventRule,
    message: Option<RoomMessageEventMessageType>,
    by_client: bool,
)
    ensures
        !rule.passes(false, message, by_client),
{
}

/// The rule that a filter puts on top of a timeline's own.
pub open spec fn rule_of(filter: TimelineFilter) -> Option<EventRule> {
    match filter {
        TimelineFilter::All => None,
        TimelineFilter::OnlyMessage { types } => Some(EventRule::OnlyMessage { types }),
        TimelineFilter::EventFilter => Some(EventRule::Client),
    }
}

impl Room {
    /// Plans a timeline. What the timeline is about must have been made out, and events that could
    /// not be decrypted can be reported only where someone wants to hear of them.
    pub fn timeline_with_configuration<F, D>(&self, configuration: TimelineConfiguration<F, D>) -> (
    r: Result<TimelinePlan<F, D>, ClientError>)
        ensures
            match (configuration.focus, r) {
                (Err(problem), Err(error)) => error@ == problem@,
                (Ok(focus), Ok(plan)) => {
                    &&& configuration.report_utds ==> self.has_utd_hook_manager
                    &&& plan == (TimelinePlan {
                        focus,
                        date_divider_mode: configuration.date_divider_mode,
                        track_read_receipts: configuration.track_read_receipts,
                        rule: rule_of(configuration.filter),
                        internal_id_prefix: configuration.internal_id_prefix,
                        report_utds: configuration.report_utds,
                    })
                },
                (Ok(focus), Err(error)) => {
                    &&& configuration.report_utds && !self.has_utd_hook_manager
                    &&& error@ == plain_client_error(
                        "Failed creating timeline because the configuration is set to report UTDs but no hook manager is set"@,
                    )
                },
                (Err(_), Ok(_)) => false,
            },
    {
        let focus = configuration.focus?;
        let rule = match configuration.filter {
            TimelineFilter::All => None,
            TimelineFilter::OnlyMessage { types } => Some(EventRule::OnlyMessage { types }),
            TimelineFilter::EventFilter => Some(EventRule::Client),
        };
        if configuration.report_utds && !self.has_utd_hook_manager {
            return Err(
                ClientError::plain(
                    "Failed creating timeline because the configuration is set to report UTDs but no hook manager is set",
                ),
            );
        }
        Ok(
            TimelinePlan {
                focus,
                date_divider_mode: configuration.date_divider_mode,
                track_read_receipts: configuration.track_read_receipts,
                rule,
                internal_id_prefix: configuration.internal_id_prefix,
                report_utds: configuration.report_utds,
            },
        )
    }
}

/// An event passes a rule exactly if the timeline's own rule lets it pass and, under a rule on kinds of
/// messages, it is a message of one of the kinds, or, under a rule of the client's, that rule lets it
/// pass.
pub proof fn law_rule_admits_what_it_says(
    rule: EventRule,
    by_default: bool,
    message: Option<RoomMessageEventMessageType>,
    by_client: bool,
    r: bool,
)
    requires
        call_ensures(EventRule::admits, (&rule, by_default, message, by_client), r),
    ensures
        r ==> by_default,
        by_default ==> match rule {
            EventRule::Client => r == by_client,
            EventRule::OnlyMessage { types } => r == exists|i: int|
                0 <= i < types@.len() && message == Some(#[trigger] types@[i]),
        },
{
    if let EventRule::OnlyMessage { types } = rule {
        if let Some(kind) = message {
            if types@.contains(kind) {
                let i = choose|i: int| 0 <= i < types@.len() && types@[i] == kind;
                assert(message == Some(types@[i]));
            }
        }
    }
}

/// A timeline is planned as the client configured it: what it is about, where it puts dividers, whether
/// it tracks receipts, and a rule for the events that the client wants to see. It is planned exactly if
/// what it is about could be made out and reports about events that could not be decrypted, if wanted,
/// have someone to go to.
pub proof fn law_timeline_is_planned_as_configured<F, D>(
    room: Room,
    configuration: TimelineConfiguration<F, D>,
    r: Result<TimelinePlan<F, D>, ClientError>,
)
    requires
        call_ensures(Room::timeline_with_configuration::<F, D>, (&room, configuration), r),
    ensures
        r is Ok <==> configuration.focus is Ok && (configuration.report_utds
            ==> room.has_utd_hook_manager),
        r matches Ok(plan) ==> {
            &&& configuration.focus matches Ok(focus) && plan.focus == focus
            &&& plan.date_divider_mode == configuration.date_divider_mode
            &&& plan.track_read_receipts == configuration.track_read_receipts
            &&& plan.internal_id_prefix == configuration.internal_id_prefix
            &&& plan.report_utds == configuration.report_utds
            &&& match configuration.filter {
                TimelineFilter::All => plan.rule is None,
                TimelineFilter::OnlyMessage { types } => plan.rule matches Some(
                    EventRule::OnlyMessage { types: kept },
                ) && kept == types,
                TimelineFilter::EventFilter => plan.rule matches Some(EventRule::Client),
            }
        },
        r matches Err(error) ==> match configuration.focus {
            Err(problem) => error@ == problem@,
            Ok(_) => error@ == (ClientText::Generic {
                msg: "Failed creating timeline because the configuration is set to report UTDs but no hook manager is set"@,
                details: None,
            }),
        },
{
}

} // verus!
