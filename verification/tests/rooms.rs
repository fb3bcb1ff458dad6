use matrix_room::about::{
    HeroRecord, Membership, PredecessorRoom, Replaced, Replacement, RoomState, SuccessorRoom,
};
use matrix_room::access::{HistoryVisibility, RoomHistoryVisibility, ThreadSubscriptionChange};
use matrix_room::avatar::AvatarImageInfo;
use matrix_room::errors::{ClientError, ForeignError, MediaInfoError, NotYetImplemented, RoomError};
use matrix_room::ids::{matrix_to_room_alias_permalink, server_of_user, EventId, UserId};
use matrix_room::media::{EncryptedFile, ImageInfo, MediaSource};
use matrix_room::members::{next_chunk, readable_members, require_member, UserPowerLevelUpdate};
use matrix_room::room::Room;
use matrix_room::send_queue::{AbstractProgress, LocalEcho, QueueReport, RoomSendQueueUpdate};
use matrix_room::timeline::{
    EventRule, RoomMessageEventMessageType, TimelineConfiguration, TimelineFilter,
};
use matrix_room::trust::{IgnoreStep, WithdrawStep};

fn room() -> Room {
    Room {
        room_id: "!room:example.org".to_owned(),
        canonical_alias: None,
        has_utd_hook_manager: false,
    }
}

fn message_of(error: ClientError) -> String {
    match error {
        ClientError::Generic { msg, .. } => msg,
        ClientError::Room(error) => panic!("{error:?}"),
    }
}

fn texts(list: &[&str]) -> Vec<String> {
    list.iter().map(|text| (*text).to_owned()).collect()
}

#[test]
fn rooms_have_ids() {
    assert_eq!(room().id(), "!room:example.org");
}

#[test]
fn memberships_differ() {
    let pairs = [
        (RoomState::Joined, Membership::Joined),
        (RoomState::Left, Membership::Left),
        (RoomState::Invited, Membership::Invited),
        (RoomState::Knocked, Membership::Knocked),
        (RoomState::Banned, Membership::Banned),
    ];
    for (state, membership) in pairs {
        assert_eq!(Membership::from(state), membership);
    }
}

#[test]
fn heroes_and_neighbours() {
    let heroes = room().heroes(vec![
        HeroRecord {
            user_id: "@a:b".to_owned(),
            display_name: Some("A".to_owned()),
            avatar_url: None,
        },
        HeroRecord {
            user_id: "@c:d".to_owned(),
            display_name: None,
            avatar_url: Some("mxc://d/c".to_owned()),
        },
    ]);
    assert_eq!(heroes.len(), 2);
    assert_eq!(heroes[0].display_name.as_deref(), Some("A"));
    assert_eq!(heroes[1].avatar_url.as_deref(), Some("mxc://d/c"));
    let successor = SuccessorRoom::from(Replacement {
        room_id: "!new:b".to_owned(),
        reason: Some("moved".to_owned()),
    });
    assert_eq!((successor.room_id.as_str(), successor.reason.as_deref()), ("!new:b", Some("moved")));
    let predecessor = PredecessorRoom::from(Replaced { room_id: "!old:b".to_owned() });
    assert_eq!(predecessor.room_id, "!old:b");
}

#[test]
fn what_cannot_be_found_out_passes_for_no() {
    let unknown = || Err(ClientError::Generic { msg: "?".to_owned(), details: None });
    assert!(room().is_encrypted(Ok(true)));
    assert!(!room().is_encrypted(Ok(false)));
    assert!(!room().is_encrypted(unknown()));
    assert!(room().is_direct(Ok(true)));
    assert!(!room().is_direct(unknown()));
}

#[test]
fn inviters_and_identities() {
    assert_eq!(room().inviter(Some(Ok(7))).unwrap(), Some(7));
    assert_eq!(room().inviter::<u8>(None).unwrap(), None);
    let bad: Result<u8, ClientError> =
        Err(ClientError::Generic { msg: "bad".to_owned(), details: None });
    assert_eq!(message_of(room().inviter(Some(bad)).unwrap_err()), "bad");
    let changes = room().identity_status_changes(vec![("@a:b".to_owned(), 1), ("@c:d".to_owned(), 2)]);
    assert_eq!(changes.len(), 2);
    assert_eq!((changes[1].user_id.as_str(), changes[1].changed_to), ("@c:d", 2));
}

#[test]
fn history_visibility_goes_both_ways() {
    for value in [
        RoomHistoryVisibility::Invited,
        RoomHistoryVisibility::Joined,
        RoomHistoryVisibility::Shared,
        RoomHistoryVisibility::WorldReadable,
    ] {
        let name = format!("{value:?}");
        let kept = room().update_history_visibility(value).unwrap();
        assert_eq!(format!("{kept:?}"), name);
        assert_eq!(format!("{:?}", RoomHistoryVisibility::try_from(kept).unwrap()), name);
    }
    let custom = RoomHistoryVisibility::Custom { value: "org.example".to_owned() };
    assert_eq!(room().update_history_visibility(custom).unwrap_err(), NotYetImplemented);
    match RoomHistoryVisibility::try_from(HistoryVisibility::Custom("org.example".to_owned())) {
        Ok(RoomHistoryVisibility::Custom { value }) => assert_eq!(value, "org.example"),
        other => panic!("{other:?}"),
    }
    assert!(RoomHistoryVisibility::try_from(HistoryVisibility::Unsupported).is_err());
}

#[test]
fn aliases_of_a_room() {
    let aliases = room()
        .update_canonical_alias(Some("#a:b".to_owned()), texts(&["#c:d", "#e:f"]))
        .unwrap();
    assert_eq!(aliases.alias.unwrap().as_str(), "#a:b");
    assert_eq!(aliases.alt_aliases[1].as_str(), "#e:f");
    assert!(room().update_canonical_alias(None, vec![]).unwrap().alias.is_none());
    assert!(room().update_canonical_alias(Some("a".to_owned()), vec![]).is_err());
    assert!(room().update_canonical_alias(None, texts(&["#c:d", "e"])).is_err());
    assert_eq!(
        room().publish_room_alias_in_room_directory("#a:b".to_owned()).unwrap().as_str(),
        "#a:b"
    );
    assert!(room().publish_room_alias_in_room_directory("a".to_owned()).is_err());
    assert!(room().remove_room_alias_from_room_directory("#a:b".to_owned()).is_ok());
    assert!(room().remove_room_alias_from_room_directory("a".to_owned()).is_err());
}

#[test]
fn links_to_aliases() {
    assert_eq!(
        matrix_to_room_alias_permalink("#room:example.org".to_owned()).unwrap(),
        "https://matrix.to/#/%23room:example.org"
    );
    let expected = ruma::RoomAliasId::parse("#\u{e9}t\u{e9} 1:example.org").unwrap();
    assert_eq!(
        matrix_to_room_alias_permalink("#\u{e9}t\u{e9} 1:example.org".to_owned()).unwrap(),
        expected.matrix_to_uri().to_string()
    );
    let error = matrix_to_room_alias_permalink("room".to_owned()).unwrap_err();
    assert_eq!(message_of(error), ruma::RoomAliasId::parse("room").unwrap_err().to_string());
}

#[test]
fn servers_of_users() {
    assert_eq!(server_of_user("@alice:example.org:8448").unwrap(), "example.org:8448");
    assert!(server_of_user("alice").is_err());
}

#[test]
fn previews_ask_servers() {
    let plan = room().preview_room(texts(&["one.org", "two.org"])).unwrap();
    assert_eq!(plan.room_or_alias_id, "!room:example.org");
    assert!(!plan.lacks_servers());
    let plan = plan.with_inviter(Some("@alice:three.org".to_owned()));
    assert_eq!(plan.server_names, texts(&["one.org", "two.org"]));

    let plan = room().preview_room(vec![]).unwrap();
    assert!(plan.lacks_servers());
    let plan = plan.with_inviter(Some("@alice:three.org".to_owned()));
    assert_eq!(plan.server_names, texts(&["three.org"]));
    let plan = room().preview_room(vec![]).unwrap().with_inviter(None);
    assert!(plan.server_names.is_empty());
}

#[test]
fn previews_prefer_the_alias() {
    let mut room = room();
    room.canonical_alias = Some("#room:example.org".to_owned());
    let plan = room.preview_room(texts(&["one.org"])).unwrap();
    assert_eq!(plan.room_or_alias_id, "#room:example.org");
    assert!(plan.lacks_servers());
    let error = room.preview_room(texts(&["one.org", "not a server"])).unwrap_err();
    assert_eq!(
        message_of(error),
        ruma::ServerName::parse("not a server").unwrap_err().to_string()
    );
}

#[test]
fn threads_are_followed_or_not() {
    let root = || "$root:example.org".to_owned();
    match room().set_thread_subscription(root(), true).unwrap() {
        ThreadSubscriptionChange::Subscribe { thread_root } => {
            assert_eq!(thread_root.as_str(), "$root:example.org")
        }
        other => panic!("{other:?}"),
    }
    assert!(matches!(
        room().set_thread_subscription(root(), false).unwrap(),
        ThreadSubscriptionChange::Unsubscribe { .. }
    ));
    assert!(room().set_thread_subscription("root".to_owned(), true).is_err());
}

fn picture(thumbnail_source: Option<MediaSource>) -> ImageInfo {
    ImageInfo {
        height: Some(u64::MAX),
        width: Some(5),
        mimetype: Some("image/png".to_owned()),
        size: None,
        thumbnail_info: None,
        thumbnail_source,
        blurhash: Some("hash".to_owned()),
        is_animated: None,
    }
}

#[test]
fn pictures_of_rooms() {
    let plain = MediaSource::Plain { url: "mxc://example.org/a".to_owned() };
    let upload = room()
        .upload_avatar("image/png".to_owned(), vec![1, 2], Some(picture(Some(plain))))
        .unwrap();
    assert_eq!(upload.mimetype.essence, "image/png");
    assert_eq!(upload.data, vec![1, 2]);
    let info = upload.info.unwrap();
    assert_eq!((info.height, info.width, info.size), (Some(9007199254740991), Some(5), None));
    assert_eq!(info.thumbnail_url.as_deref(), Some("mxc://example.org/a"));
    assert!(room().upload_avatar("image/png".to_owned(), vec![], None).unwrap().info.is_none());
    assert!(AvatarImageInfo::try_from(picture(None)).unwrap().thumbnail_url.is_none());
}

#[test]
fn pictures_of_rooms_at_fault() {
    let encrypted = || MediaSource::Encrypted {
        file: EncryptedFile { url: "mxc://example.org/a".to_owned(), json: "{}".to_owned() },
    };
    assert_eq!(
        AvatarImageInfo::try_from(picture(Some(encrypted()))).unwrap_err(),
        MediaInfoError::InvalidField
    );
    match room().upload_avatar("image/png".to_owned(), vec![], Some(picture(Some(encrypted())))) {
        Err(ClientError::Room(error)) => assert_eq!(error, RoomError::InvalidMediaInfo),
        other => panic!("{other:?}"),
    }
    match room().upload_avatar("nonsense".to_owned(), vec![], Some(picture(Some(encrypted())))) {
        Err(ClientError::Generic { msg, .. }) => {
            assert_eq!(msg, "nonsense".parse::<mime::Mime>().unwrap_err().to_string())
        }
        other => panic!("{other:?}"),
    }
}

#[test]
fn power_levels_of_users() {
    let update = |user_id: &str, power_level: i64| UserPowerLevelUpdate {
        user_id: user_id.to_owned(),
        power_level,
    };
    let levels = room()
        .update_power_levels_for_users(vec![update("@a:b", 50), update("@c:d", -1)])
        .unwrap();
    assert_eq!((levels[0].0.as_str(), levels[0].1), ("@a:b", 50));
    assert_eq!((levels[1].0.as_str(), levels[1].1), ("@c:d", -1));
    let error = room()
        .update_power_levels_for_users(vec![update("@a:b", i64::MAX), update("c", 0)])
        .unwrap_err();
    assert_eq!(message_of(error), "Invalid power level");
    let error = room()
        .update_power_levels_for_users(vec![update("@a:b", 0), update("c", i64::MAX)])
        .unwrap_err();
    assert_eq!(message_of(error), ruma::UserId::parse("c").unwrap_err().to_string());
}

#[test]
fn members_of_rooms() {
    assert_eq!(require_member(Some(3)).unwrap(), 3);
    assert_eq!(message_of(require_member::<u8>(None).unwrap_err()), "User not found");
    let action = room().ban_user("@a:b".to_owned(), Some("spam".to_owned())).unwrap();
    assert_eq!((action.user_id.as_str(), action.reason.as_deref()), ("@a:b", Some("spam")));
    assert!(room().unban_user("@a:b".to_owned(), None).is_ok());
    assert!(room().kick_user("a".to_owned(), None).is_err());
    assert!(room().ban_user("a".to_owned(), None).is_err());
    assert!(room().unban_user("a".to_owned(), None).is_err());
    assert!(UserId::request("@a:b").is_ok());
    assert_eq!(room().invite_user_by_id("@a:b".to_owned()).unwrap().as_str(), "@a:b");
    assert_eq!(
        message_of(room().invite_user_by_id("a".to_owned()).unwrap_err()),
        format!(
            "Could not create user from string: {}",
            ruma::UserId::parse("a").unwrap_err()
        )
    );
    let kept = readable_members(vec![Ok(1), Err("bad"), Ok(2), Err("worse"), Ok(3)]);
    assert_eq!(kept, vec![1, 2, 3]);
    let everyone: Vec<Result<u8, ()>> = vec![Ok(4), Ok(5)];
    assert_eq!(readable_members(everyone), vec![4, 5]);
    assert_eq!(next_chunk(Some(vec![Err("bad"), Ok(6)])), Some(vec![6]));
    assert_eq!(next_chunk::<u8, ()>(None), None);
}

#[test]
fn identifiers_keep_their_text() {
    assert_eq!(EventId::parse("$event:example.org").unwrap().into_string(), "$event:example.org");
    let error = EventId::parse("event").unwrap_err();
    assert_eq!(error.message, ruma::EventId::parse("event").unwrap_err().to_string());
    let ids = UserId::request_all(&texts(&["@a:b", "@c:d"])).unwrap();
    assert_eq!(ids[1].as_str(), "@c:d");
    assert!(UserId::request_all(&texts(&["@a:b", "c"])).is_err());
}

fn progress() -> AbstractProgress {
    AbstractProgress { current: 1, total: 2 }
}

#[test]
fn updates_of_the_queue() {
    let id = || "txn".to_owned();
    let told = |report: QueueReport<u8>| RoomSendQueueUpdate::from_report(report).unwrap();
    assert!(matches!(
        told(QueueReport::NewLocalEvent(LocalEcho { transaction_id: id() })),
        RoomSendQueueUpdate::NewLocalEvent { transaction_id } if transaction_id == "txn"
    ));
    assert!(matches!(
        told(QueueReport::CancelledLocalEvent { transaction_id: id() }),
        RoomSendQueueUpdate::CancelledLocalEvent { transaction_id } if transaction_id == "txn"
    ));
    assert!(matches!(
        told(QueueReport::ReplacedLocalEvent { transaction_id: id() }),
        RoomSendQueueUpdate::ReplacedLocalEvent { transaction_id } if transaction_id == "txn"
    ));
    assert!(matches!(
        told(QueueReport::SendError { transaction_id: id(), error: 9, is_recoverable: true }),
        RoomSendQueueUpdate::SendError { error: 9, is_recoverable: true, .. }
    ));
    assert!(matches!(
        told(QueueReport::RetryEvent { transaction_id: id() }),
        RoomSendQueueUpdate::RetryEvent { .. }
    ));
    assert!(matches!(
        told(QueueReport::SentEvent { transaction_id: id(), event_id: "$e".to_owned() }),
        RoomSendQueueUpdate::SentEvent { event_id, .. } if event_id == "$e"
    ));
    match told(QueueReport::MediaUpload {
        related_to: id(),
        file: Some(MediaSource::Plain { url: "mxc://example.org/a".to_owned() }),
        index: 3,
        progress: progress(),
    }) {
        RoomSendQueueUpdate::MediaUpload { related_to, file, index, progress } => {
            assert_eq!((related_to.as_str(), index, progress.total), ("txn", 3, 2));
            assert_eq!(file.unwrap().url(), "mxc://example.org/a");
        }
        other => panic!("{other:?}"),
    }
}

#[test]
fn uploads_to_nowhere_are_errors() {
    let report: QueueReport<u8> = QueueReport::MediaUpload {
        related_to: "txn".to_owned(),
        file: Some(MediaSource::Plain { url: "nowhere".to_owned() }),
        index: 0,
        progress: progress(),
    };
    let error = RoomSendQueueUpdate::tell(report).unwrap().unwrap_err();
    let expected = <&ruma::MxcUri>::from("nowhere").validate().unwrap_err();
    assert_eq!(message_of(error), expected.to_string());
}

#[test]
fn uploads_whose_place_cannot_be_judged() {
    let report: QueueReport<u8> = QueueReport::MediaUpload {
        related_to: "txn".to_owned(),
        file: Some(MediaSource::Plain { url: format!("mxc://{}/a", "a".repeat(250)) }),
        index: 0,
        progress: progress(),
    };
    assert!(RoomSendQueueUpdate::tell(report).is_none());
    let report: QueueReport<u8> = QueueReport::RetryEvent { transaction_id: "txn".to_owned() };
    assert!(matches!(
        RoomSendQueueUpdate::tell(report),
        Some(Ok(RoomSendQueueUpdate::RetryEvent { .. }))
    ));
}

#[test]
fn events_that_wait_are_told_of_at_once() {
    let updates: Vec<RoomSendQueueUpdate<u8>> = room().subscribe_to_send_queue_updates(vec![
        LocalEcho { transaction_id: "one".to_owned() },
        LocalEcho { transaction_id: "two".to_owned() },
    ]);
    assert_eq!(updates.len(), 2);
    assert!(matches!(
        &updates[1],
        RoomSendQueueUpdate::NewLocalEvent { transaction_id } if transaction_id == "two"
    ));
}

fn configuration(filter: TimelineFilter, report_utds: bool) -> TimelineConfiguration<u8, u8> {
    TimelineConfiguration {
        focus: Ok(1),
        filter,
        internal_id_prefix: Some("prefix".to_owned()),
        date_divider_mode: 2,
        track_read_receipts: true,
        report_utds,
    }
}

#[test]
fn timelines_as_configured() {
    let plan = room().timeline_with_configuration(configuration(TimelineFilter::All, false)).unwrap();
    assert_eq!((plan.focus, plan.date_divider_mode), (1, 2));
    assert!(plan.rule.is_none() && plan.track_read_receipts && !plan.report_utds);
    assert_eq!(plan.internal_id_prefix.as_deref(), Some("prefix"));
    let error = room()
        .timeline_with_configuration(configuration(TimelineFilter::All, true))
        .unwrap_err();
    assert_eq!(
        message_of(error),
        "Failed creating timeline because the configuration is set to report UTDs but no hook manager is set"
    );
    let mut hooked = room();
    hooked.has_utd_hook_manager = true;
    assert!(hooked
        .timeline_with_configuration(configuration(TimelineFilter::EventFilter, true))
        .unwrap()
        .report_utds);
    let mut lost = configuration(TimelineFilter::All, true);
    lost.focus = Err(ClientError::Generic { msg: "lost".to_owned(), details: None });
    assert_eq!(message_of(room().timeline_with_configuration(lost).unwrap_err()), "lost");
}

#[test]
fn the_default_filter_comes_first() {
    let rule = EventRule::OnlyMessage {
        types: vec![RoomMessageEventMessageType::Text, RoomMessageEventMessageType::Image],
    };
    assert!(rule.admits(true, Some(RoomMessageEventMessageType::Image), false));
    assert!(!rule.admits(true, Some(RoomMessageEventMessageType::Audio), true));
    assert!(!rule.admits(true, None, true));
    assert!(!rule.admits(false, Some(RoomMessageEventMessageType::Image), true));
    assert!(EventRule::Client.admits(true, None, true));
    assert!(!EventRule::Client.admits(true, None, false));
    assert!(!EventRule::Client.admits(false, None, true));
    let plan = room()
        .timeline_with_configuration(configuration(
            TimelineFilter::OnlyMessage { types: vec![RoomMessageEventMessageType::Text] },
            false,
        ))
        .unwrap();
    assert!(plan.rule.unwrap().admits(true, Some(RoomMessageEventMessageType::Text), false));
}

#[test]
fn verification_is_withdrawn_user_by_user() {
    let mut done: Vec<String> = Vec::new();
    let mut step = room().withdraw_verification_and_resend(texts(&["@a:b", "@c:d"]));
    loop {
        step = match step {
            WithdrawStep::FindIdentity { user_id, next } => {
                let found = user_id == "@c:d";
                done.push(format!("find {user_id}"));
                next.found(Ok(found))
            }
            WithdrawStep::Withdraw { next } => {
                done.push("withdraw".to_owned());
                next.withdrawn(Ok(()))
            }
            WithdrawStep::Resend => break,
            WithdrawStep::Failed { error } => panic!("{error:?}"),
        };
    }
    assert_eq!(done, texts(&["find @a:b", "find @c:d", "withdraw"]));
    match room().withdraw_verification_and_resend(texts(&["@a:b", "c"])) {
        WithdrawStep::Failed { error } => {
            assert_eq!(message_of(error), ruma::UserId::parse("c").unwrap_err().to_string())
        }
        other => panic!("{other:?}"),
    }
    match room().withdraw_verification_and_resend(texts(&["@a:b"])) {
        WithdrawStep::FindIdentity { next, .. } => {
            let offline = ClientError::Generic { msg: "offline".to_owned(), details: None };
            assert!(matches!(next.found(Err(offline)), WithdrawStep::Failed { .. }));
        }
        other => panic!("{other:?}"),
    }
    assert!(matches!(room().withdraw_verification_and_resend(vec![]), WithdrawStep::Resend));
}

#[test]
fn trust_is_ignored_device_by_device() {
    let mut done: Vec<String> = Vec::new();
    let mut step = room().ignore_device_trust_and_resend(vec![
        ("@a:b".to_owned(), texts(&["ONE", "TWO"])),
        ("@c:d".to_owned(), vec![]),
        ("@e:f".to_owned(), texts(&["THREE"])),
    ]);
    loop {
        step = match step {
            IgnoreStep::FindDevice { user_id, device_id, next } => {
                done.push(format!("find {} {device_id}", user_id.as_str()));
                next.found(Ok(device_id == "TWO"))
            }
            IgnoreStep::Ignore { next } => {
                done.push("ignore".to_owned());
                next.ignored(Ok(()))
            }
            IgnoreStep::Resend => break,
            IgnoreStep::Failed { error } => panic!("{error:?}"),
        };
    }
    assert_eq!(done, texts(&["find @a:b ONE", "find @a:b TWO", "ignore", "find @e:f THREE"]));
}

#[test]
fn a_user_is_judged_when_the_walk_comes_to_it() {
    let step = room().ignore_device_trust_and_resend(vec![
        ("@a:b".to_owned(), texts(&["ONE"])),
        ("c".to_owned(), vec![]),
    ]);
    let step = match step {
        IgnoreStep::FindDevice { next, .. } => next.found(Ok(false)),
        other => panic!("{other:?}"),
    };
    match step {
        IgnoreStep::Failed { error } => {
            assert_eq!(message_of(error), ruma::UserId::parse("c").unwrap_err().to_string())
        }
        other => panic!("{other:?}"),
    }
    let walk = match room().ignore_device_trust_and_resend(vec![(
        "@a:b".to_owned(),
        texts(&["ONE"]),
    )]) {
        IgnoreStep::FindDevice { next, .. } => next,
        other => panic!("{other:?}"),
    };
    let offline = ClientError::from_err(ForeignError {
        message: "offline".to_owned(),
        debug: "Offline".to_owned(),
    });
    assert!(matches!(walk.ignored(Err(offline)), IgnoreStep::Failed { .. }));
}
