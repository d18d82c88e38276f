use antimomobot::cache::MemberSnapshot;
use antimomobot::error::{
    DecodeError, DetectError, DownloadError, HandlerError, OcrEngineError, RemoteActionError,
    RemoteLookupError,
};
use antimomobot::handler::{
    command_handler, invite_link, local_path, message_handler, permission_handler, Action, BotAdminChange,
    Command, CommandReply, Event, Message, Notice, Permissions, Phase, Session, TranslateContext,
    User, BAN_DURATION,
};

const CHAT: i64 = -1001234567890;
const SENDER: u64 = 777;
const MESSAGE: i32 = 31;
const NOW: i64 = 1_700_000_000;

fn photo(from: Option<u64>, sizes: usize) -> Message {
    Message {
        chat: CHAT,
        id: MESSAGE,
        from: from.map(|id| User { id, language_code: None }),
        photo_sizes: Some(sizes),
    }
}

fn member(can_restrict_members: bool) -> MemberSnapshot {
    MemberSnapshot { can_restrict_members, is_owner: false, is_administrator: can_restrict_members }
}

/// Runs a session to its end against canned answers and records what was asked.
struct World {
    user_is_admin: Result<bool, RemoteLookupError>,
    download: Result<(), DownloadError>,
    detection: Result<bool, DetectError>,
    bot_is_admin: Result<bool, RemoteLookupError>,
    restriction: Result<(), RemoteActionError>,
    notification: Result<(), RemoteActionError>,
    asked: Vec<String>,
    restricts: Vec<(i64, u64, Permissions, i64)>,
    notices: Vec<(i64, i32, Notice)>,
    classifier_runs: usize,
}

impl World {
    fn new() -> World {
        World {
            user_is_admin: Ok(false),
            download: Ok(()),
            detection: Ok(true),
            bot_is_admin: Ok(true),
            restriction: Ok(()),
            notification: Ok(()),
            asked: Vec::new(),
            restricts: Vec::new(),
            notices: Vec::new(),
            classifier_runs: 0,
        }
    }

    fn handle(&mut self, message: &Message) -> Result<(), HandlerError> {
        let (mut session, mut action) = message_handler(message);
        loop {
            let event = match action {
                Action::Finish(result) => return result,
                Action::Ignored => panic!("an awaited event was ignored"),
                Action::AskUserAdmin { user, chat } => {
                    self.asked.push(format!("user {user} in {chat}"));
                    Event::UserAdmin(self.user_is_admin.clone())
                }
                Action::Download => {
                    self.asked.push("download".to_string());
                    Event::Downloaded(self.download.clone())
                }
                Action::Detect => {
                    self.classifier_runs += 1;
                    Event::Detected(self.detection.clone())
                }
                Action::AskBotAdmin { chat } => {
                    self.asked.push(format!("bot in {chat}"));
                    Event::BotAdmin(self.bot_is_admin.clone())
                }
                Action::Restrict { chat, user, permissions, until } => {
                    self.restricts.push((chat, user, permissions, until));
                    Event::Restricted(self.restriction.clone())
                }
                Action::Notify { chat, reply_to, notice } => {
                    self.notices.push((chat, reply_to, notice));
                    Event::Notified(self.notification.clone())
                }
            };
            let (next, then) = session.step(event, NOW);
            session = next;
            action = then;
        }
    }
}

#[test]
fn detection_with_rights_restricts_the_sender_once() {
    let mut world = World::new();
    assert_eq!(world.handle(&photo(Some(SENDER), 3)), Ok(()));
    assert_eq!(world.restricts, vec![(CHAT, SENDER, Permissions { bits: 0 }, NOW + BAN_DURATION)]);
    assert_eq!(world.restricts[0].2, Permissions::empty());
    assert!(world.restricts[0].2.allows_nothing());
    assert!(!Permissions { bits: 4 }.allows_nothing());
    assert_eq!(world.notices, vec![(CHAT, MESSAGE, Notice::Restrict)]);
    assert_eq!(world.classifier_runs, 1);
    assert_eq!(
        world.asked,
        vec![
            format!("user {SENDER} in {CHAT}"),
            "download".to_string(),
            format!("bot in {CHAT}")
        ]
    );
}

#[test]
fn ban_lasts_the_fixed_time() {
    assert_eq!(BAN_DURATION, 60);
    let session = Session {
        chat: 1,
        message_id: 2,
        sender: Some(3),
        photo_sizes: 2,
        phase: Phase::CheckingBot,
    };
    let (next, action) = session.step(Event::BotAdmin(Ok(true)), 1000);
    assert_eq!(
        action,
        Action::Restrict { chat: 1, user: 3, permissions: Permissions { bits: 0 }, until: 1060 }
    );
    assert_eq!(next.phase, Phase::Restricting { user: 3, until: 1060 });
    let (_, action) = session.step(Event::BotAdmin(Ok(true)), i64::MAX - BAN_DURATION);
    assert_eq!(
        action,
        Action::Restrict { chat: 1, user: 3, permissions: Permissions { bits: 0 }, until: i64::MAX }
    );
    let (_, action) = session.step(Event::BotAdmin(Ok(true)), -5);
    assert_eq!(
        action,
        Action::Restrict { chat: 1, user: 3, permissions: Permissions { bits: 0 }, until: 55 }
    );
}

#[test]
fn detection_without_rights_only_tells() {
    let mut world = World::new();
    world.bot_is_admin = Ok(false);
    assert_eq!(world.handle(&photo(Some(SENDER), 3)), Ok(()));
    assert_eq!(world.restricts, vec![]);
    assert_eq!(world.notices, vec![(CHAT, MESSAGE, Notice::MomoFound)]);
}

#[test]
fn admin_sender_is_skipped() {
    let mut world = World::new();
    world.user_is_admin = Ok(true);
    assert_eq!(world.handle(&photo(Some(SENDER), 3)), Ok(()));
    assert_eq!(world.classifier_runs, 0);
    assert_eq!(world.asked, vec![format!("user {SENDER} in {CHAT}")]);
    assert_eq!(world.restricts, vec![]);
    assert_eq!(world.notices, vec![]);
}

#[test]
fn detection_without_sender_says_it_cannot_restrict() {
    let mut world = World::new();
    assert_eq!(world.handle(&photo(None, 2)), Ok(()));
    assert_eq!(world.restricts, vec![]);
    assert_eq!(world.notices, vec![(CHAT, MESSAGE, Notice::RestrictFailed)]);
    assert_eq!(world.asked, vec!["download".to_string(), format!("bot in {CHAT}")]);
}

#[test]
fn no_detection_no_action() {
    for detection in [
        Ok(false),
        Err(DetectError::Decode(DecodeError { reason: "not an image".to_string() })),
        Err(DetectError::OcrEngine(OcrEngineError { reason: "engine".to_string() })),
    ] {
        let mut world = World::new();
        world.detection = detection;
        assert_eq!(world.handle(&photo(Some(SENDER), 2)), Ok(()));
        assert_eq!(world.classifier_runs, 1);
        assert_eq!(world.asked, vec![format!("user {SENDER} in {CHAT}"), "download".to_string()]);
        assert_eq!(world.restricts, vec![]);
        assert_eq!(world.notices, vec![]);
    }
}

#[test]
fn message_without_photo_is_left_alone() {
    let message = Message {
        chat: CHAT,
        id: MESSAGE,
        from: Some(User { id: SENDER, language_code: None }),
        photo_sizes: None,
    };
    let (session, action) = message_handler(&message);
    assert_eq!(action, Action::Finish(Ok(())));
    assert_eq!(session.phase, Phase::Closed);
    let mut world = World::new();
    assert_eq!(world.handle(&message), Ok(()));
    assert!(world.asked.is_empty());
}

#[test]
fn photo_of_a_single_size_is_examined() {
    let mut world = World::new();
    assert_eq!(world.handle(&photo(Some(SENDER), 1)), Ok(()));
    assert_eq!(world.classifier_runs, 1);
    assert_eq!(
        world.asked,
        vec![
            format!("user {SENDER} in {CHAT}"),
            "download".to_string(),
            format!("bot in {CHAT}")
        ]
    );
    assert_eq!(world.restricts, vec![(CHAT, SENDER, Permissions { bits: 0 }, NOW + BAN_DURATION)]);
    assert_eq!(world.notices, vec![(CHAT, MESSAGE, Notice::Restrict)]);

    let mut world = World::new();
    assert_eq!(world.handle(&photo(None, 1)), Ok(()));
    assert_eq!(world.classifier_runs, 1);
    assert_eq!(world.asked, vec!["download".to_string(), format!("bot in {CHAT}")]);
    assert_eq!(world.notices, vec![(CHAT, MESSAGE, Notice::RestrictFailed)]);
}

#[test]
fn photo_of_every_number_of_sizes_is_examined() {
    for sizes in [1, 2, 3, 7, usize::MAX] {
        let (session, action) = message_handler(&photo(None, sizes));
        assert_eq!(action, Action::Download);
        assert_eq!(session.phase, Phase::Fetching);
        let (session, _) = message_handler(&photo(Some(SENDER), sizes));
        let (session, action) = session.step(Event::UserAdmin(Ok(false)), NOW);
        assert_eq!(action, Action::Download);
        assert_eq!(session.phase, Phase::Fetching);
    }
}

#[test]
fn photo_without_any_size_is_left_alone() {
    let mut world = World::new();
    assert_eq!(world.handle(&photo(Some(SENDER), 0)), Ok(()));
    assert_eq!(world.asked, vec![format!("user {SENDER} in {CHAT}")]);
    assert_eq!(world.classifier_runs, 0);
    assert_eq!(world.restricts, vec![]);
    let mut world = World::new();
    assert_eq!(world.handle(&photo(None, 0)), Ok(()));
    assert!(world.asked.is_empty());
    assert_eq!(world.classifier_runs, 0);
}

#[test]
fn failed_lookup_of_the_sender_ends_the_handling() {
    let e = RemoteLookupError { reason: "user not found".to_string() };
    let mut world = World::new();
    world.user_is_admin = Err(e.clone());
    assert_eq!(world.handle(&photo(Some(SENDER), 3)), Err(HandlerError::RemoteLookup(e)));
    assert_eq!(world.classifier_runs, 0);
    assert_eq!(world.restricts, vec![]);
}

#[test]
fn failed_download_ends_the_handling() {
    let e = DownloadError { reason: "connection reset".to_string() };
    let mut world = World::new();
    world.download = Err(e.clone());
    assert_eq!(world.handle(&photo(Some(SENDER), 3)), Err(HandlerError::Download(e)));
    assert_eq!(world.classifier_runs, 0);
    assert_eq!(world.notices, vec![]);
}

#[test]
fn failed_lookup_of_the_bot_ends_the_handling() {
    let e = RemoteLookupError { reason: "bot was kicked".to_string() };
    let mut world = World::new();
    world.bot_is_admin = Err(e.clone());
    assert_eq!(world.handle(&photo(Some(SENDER), 3)), Err(HandlerError::RemoteLookup(e)));
    assert_eq!(world.restricts, vec![]);
    assert_eq!(world.notices, vec![]);
}

#[test]
fn failed_restriction_sends_no_notice() {
    let e = RemoteActionError { reason: "user is an administrator".to_string() };
    let mut world = World::new();
    world.restriction = Err(e.clone());
    assert_eq!(world.handle(&photo(Some(SENDER), 3)), Err(HandlerError::RemoteAction(e)));
    assert_eq!(world.restricts.len(), 1);
    assert_eq!(world.notices, vec![]);
}

#[test]
fn failed_notice_is_handed_on() {
    let e = RemoteActionError { reason: "chat is read-only".to_string() };
    let mut world = World::new();
    world.bot_is_admin = Ok(false);
    world.notification = Err(e.clone());
    assert_eq!(world.handle(&photo(Some(SENDER), 3)), Err(HandlerError::RemoteAction(e)));
    assert_eq!(world.notices, vec![(CHAT, MESSAGE, Notice::MomoFound)]);
}

#[test]
fn events_out_of_turn_are_ignored() {
    let (session, _) = message_handler(&photo(Some(SENDER), 3));
    assert_eq!(session.phase, Phase::CheckingSender { user: SENDER });
    for event in [
        Event::Downloaded(Ok(())),
        Event::Detected(Ok(true)),
        Event::BotAdmin(Ok(true)),
        Event::Restricted(Ok(())),
        Event::Notified(Ok(())),
    ] {
        assert_eq!(session.step(event, NOW), (session, Action::Ignored));
    }
    let closed = Session { phase: Phase::Closed, ..session };
    for event in [
        Event::UserAdmin(Ok(false)),
        Event::Downloaded(Ok(())),
        Event::Detected(Ok(true)),
        Event::BotAdmin(Ok(true)),
        Event::Restricted(Ok(())),
        Event::Notified(Ok(())),
    ] {
        assert_eq!(closed.step(event, NOW), (closed, Action::Ignored));
    }
    let detecting = Session { phase: Phase::Detecting, ..session };
    assert_eq!(detecting.step(Event::BotAdmin(Ok(true)), NOW), (detecting, Action::Ignored));
}

#[test]
fn membership_change_that_moves_the_right() {
    assert_eq!(
        permission_handler(CHAT, member(false), member(true)),
        Some(BotAdminChange { chat: CHAT, is_admin: true, notice: Notice::BotPermUpdate })
    );
    assert_eq!(
        permission_handler(CHAT, member(true), member(false)),
        Some(BotAdminChange { chat: CHAT, is_admin: false, notice: Notice::BotPermUpdate })
    );
}

#[test]
fn membership_change_that_leaves_the_right() {
    assert_eq!(permission_handler(CHAT, member(false), member(false)), None);
    assert_eq!(permission_handler(CHAT, member(true), member(true)), None);
    let promoted =
        MemberSnapshot { can_restrict_members: false, is_owner: false, is_administrator: true };
    assert_eq!(permission_handler(CHAT, member(false), promoted), None);
}

#[test]
fn commands() {
    assert_eq!(
        command_handler(Command::Start),
        CommandReply::Welcome { body: Notice::WelcomeBody, button: Notice::WelcomeSetMeAsAdmin }
    );
    assert_eq!(command_handler(Command::Help), CommandReply::Help);
}

#[test]
fn invite_link_of_a_bot() {
    assert_eq!(
        invite_link(Some("antimomobot")),
        Some("https://t.me/antimomobot?startgroup=start&admin=can_restrict_members".to_string())
    );
    assert_eq!(
        invite_link(Some("")),
        Some("https://t.me/?startgroup=start&admin=can_restrict_members".to_string())
    );
    assert_eq!(invite_link(None), None);
}

#[test]
fn notice_keys() {
    assert_eq!(Notice::BotPermUpdate.key(), "bot_perm_update");
    assert_eq!(Notice::Restrict.key(), "restrict");
    assert_eq!(Notice::RestrictFailed.key(), "restrict_failed");
    assert_eq!(Notice::MomoFound.key(), "momo_found");
    assert_eq!(Notice::WelcomeBody.key(), "welcome_body");
    assert_eq!(Notice::WelcomeSetMeAsAdmin.key(), "welcome_setmeasadmin");
}

#[test]
fn new_context_is_english() {
    assert_eq!(TranslateContext::new().locale(), "en");
}

#[test]
fn context_follows_the_users_language() {
    let user = User { id: 1, language_code: Some("zh-hans".to_string()) };
    assert_eq!(TranslateContext::from_user(&user).locale(), "zh-hans");
    let user = User { id: 1, language_code: None };
    assert_eq!(TranslateContext::from_user(&user).locale(), "en");
    let user = User { id: 1, language_code: Some(String::new()) };
    assert_eq!(TranslateContext::from_user(&user).locale(), "");
}

#[test]
fn context_of_a_message() {
    let mut message = photo(Some(SENDER), 2);
    assert_eq!(TranslateContext::from_message(&message).locale(), "en");
    message.from = Some(User { id: SENDER, language_code: Some("ru".to_string()) });
    assert_eq!(TranslateContext::from_message(&message).locale(), "ru");
    message.from = None;
    assert_eq!(TranslateContext::from_message(&message).locale(), "en");
}

#[test]
fn fetched_files_go_under_tmp() {
    assert_eq!(local_path("photos/file_3.jpg"), "/tmp/photos/file_3.jpg");
    assert_eq!(local_path(""), "/tmp/");
}
