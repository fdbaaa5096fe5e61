use business::features::critic::domain::{ApplicationStatus, CriticApplication};
use business::features::critic::input::UseCaseError as CriticError;
use business::features::critic::output::RepositoryError;
use business::features::critic::postgres::{
    applications_from_rows, CriticApplicationDbRow, CriticApplicationWithUserDbRow, LocalError as CriticLocalError,
};
use business::features::critic::service::{plan_review, prepare_application, ReviewDecision};
use business::features::friends::input::UseCaseError as FriendsError;
use business::features::friends::output::{ConflictError, FriendRequest, FriendRequestStatus, PortError, UserSummary};
use business::features::friends::postgres::{
    is_unique_violation, FriendRequestDbRow, LocalError as FriendsLocalError, UserSummaryDbRow,
};
use business::features::friends::service::{answered_request, prepare_friend_request};
use business::features::group::domain::Group;
use business::features::group::input::UseCaseError as GroupError;
use business::features::group::output::LocalRepositoryError as GroupRepoError;
use business::features::group::postgres::{recipe_groups_from_rows, GroupDbRow, RecipesGroupCountDbRow};
use business::features::group::service::{check_group_owner, prepare_group};
use business::features::messages::input::UseCaseError as MessagesError;
use business::features::messages::output::{Message, MessageType, PortError as MessagesPortError};
use business::features::messages::postgres::{LocalError as MessagesLocalError, MessageDbRow};
use business::features::messages::service::{are_friends_in, check_conversation, check_recipient, prepare_message};
use business::features::recipe::postgres::RecipePreviewDbRow;

fn s(x: &str) -> String {
    x.to_string()
}

fn application(status: ApplicationStatus) -> CriticApplication {
    CriticApplication {
        id: 1,
        user_id: 42,
        status,
        applied_at: 0,
        reviewed_at: None,
        reviewed_by: None,
        username: None,
        email: None,
    }
}

// ─── Critic ───

#[test]
fn statuses_read_from_their_text() {
    for st in [ApplicationStatus::Pending, ApplicationStatus::Approved, ApplicationStatus::Rejected] {
        assert_eq!(ApplicationStatus::parse(&st.as_text()), Some(st));
    }
    assert_eq!(ApplicationStatus::parse(&s("Pending")), None);
}

#[test]
fn one_open_application_per_user() {
    assert!(matches!(
        prepare_application(42, &Some(application(ApplicationStatus::Pending))),
        Err(CriticError::AlreadyApplied)
    ));
    assert!(matches!(
        prepare_application(42, &Some(application(ApplicationStatus::Approved))),
        Err(CriticError::AlreadyApplied)
    ));
    let n = prepare_application(42, &Some(application(ApplicationStatus::Rejected))).unwrap();
    assert_eq!(n.user_id, 42);
    assert_eq!(prepare_application(7, &None).unwrap().user_id, 7);
    assert_eq!(CriticError::AlreadyApplied.message(), "You have already applied for the Critic role.");
}

#[test]
fn approving_grants_the_critic_role() {
    let p = plan_review(1, 5, Some(application(ApplicationStatus::Pending)), ReviewDecision::Approve).unwrap();
    assert_eq!(p.status, ApplicationStatus::Approved);
    assert_eq!(p.application_id, 1);
    assert_eq!(p.reviewer_id, 5);
    assert_eq!(p.grant_role, Some((42, s("Critic"))));
}

#[test]
fn rejecting_grants_nothing() {
    let p = plan_review(1, 5, Some(application(ApplicationStatus::Pending)), ReviewDecision::Reject).unwrap();
    assert_eq!(p.status, ApplicationStatus::Rejected);
    assert_eq!(p.grant_role, None);
}

#[test]
fn only_pending_applications_are_decided() {
    assert!(matches!(plan_review(1, 5, None, ReviewDecision::Approve), Err(CriticError::ApplicationNotFound)));
    for st in [ApplicationStatus::Approved, ApplicationStatus::Rejected] {
        assert!(matches!(
            plan_review(1, 5, Some(application(st)), ReviewDecision::Reject),
            Err(CriticError::AlreadyReviewed)
        ));
    }
    assert_eq!(CriticError::ApplicationNotFound.message(), "Application not found.");
    assert_eq!(CriticError::AlreadyReviewed.message(), "Application has already been reviewed.");
}

#[test]
fn critic_rows() {
    let row = CriticApplicationDbRow {
        id: 3,
        user_id: 4,
        status: s("approved"),
        applied_at: 10,
        reviewed_at: Some(20),
        reviewed_by: Some(5),
    };
    let a = CriticApplication::from_row(row).ok().unwrap();
    assert_eq!(a.status, ApplicationStatus::Approved);
    assert_eq!(a.reviewed_at, Some(20));
    assert_eq!(a.username, None);
    let with_user = |status: &str| CriticApplicationWithUserDbRow {
        id: 3,
        user_id: 4,
        status: s(status),
        applied_at: 10,
        reviewed_at: None,
        reviewed_by: None,
        username: s("ana"),
        email: s("ana@x"),
    };
    let apps = applications_from_rows(vec![with_user("pending")]).ok().unwrap();
    assert_eq!(apps[0].username, Some(s("ana")));
    assert_eq!(apps[0].email, Some(s("ana@x")));
    match applications_from_rows(vec![with_user("pending"), with_user("weird"), with_user("odd")]) {
        Err(e) => match e.into_repository_error() {
            RepositoryError::Internal(m) => {
                assert_eq!(m, "Invalid application status 'weird': Matching variant not found")
            },
        },
        Ok(_) => panic!(),
    }
    assert!(matches!(
        CriticLocalError::Sqlx(s("down")).into_repository_error(),
        RepositoryError::Internal(m) if m == "down"
    ));
    assert_eq!(
        CriticError::from_repository(&RepositoryError::Internal(s("down"))).message(),
        "Critic service: Critic repository: down"
    );
}

// ─── Friends ───

#[test]
fn nobody_befriends_themselves() {
    assert!(matches!(prepare_friend_request(3, 3), Err(FriendsError::CannotFriendYourself)));
    let n = prepare_friend_request(3, 4).unwrap();
    assert_eq!((n.sender_id, n.receiver_id), (3, 4));
    assert_eq!(FriendsError::CannotFriendYourself.message(), "You cannot send a friend request to yourself.");
}

fn request(status: FriendRequestStatus) -> FriendRequest {
    FriendRequest {
        id: 1,
        sender_id: 2,
        sender_username: s("a"),
        receiver_id: 3,
        receiver_username: s("b"),
        status,
        created_at: 0,
        updated_at: 0,
    }
}

#[test]
fn answering_a_missing_request() {
    assert!(matches!(answered_request(None), Err(FriendsError::RequestNotFound)));
    assert_eq!(answered_request(Some(request(FriendRequestStatus::Accepted))).unwrap().id, 1);
}

#[test]
fn friend_request_statuses() {
    assert_eq!(FriendRequestStatus::Pending.as_str(), "pending");
    assert_eq!(FriendRequestStatus::Accepted.as_str(), "accepted");
    assert_eq!(FriendRequestStatus::Rejected.as_str(), "rejected");
    let row = |status: &str| FriendRequestDbRow {
        id: 1,
        sender_id: 2,
        sender_username: s("a"),
        receiver_id: 3,
        receiver_username: s("b"),
        status: s(status),
        created_at: 5,
        updated_at: 6,
    };
    assert_eq!(FriendRequest::from_row(row("accepted")).status, FriendRequestStatus::Accepted);
    assert_eq!(FriendRequest::from_row(row("rejected")).status, FriendRequestStatus::Rejected);
    assert_eq!(FriendRequest::from_row(row("whatever")).status, FriendRequestStatus::Pending);
    assert_eq!(FriendRequest::from_row(row("pending")).updated_at, 6);
}

#[test]
fn unique_violations_are_conflicts() {
    assert!(is_unique_violation(&Some(s("23505"))));
    assert!(!is_unique_violation(&Some(s("23503"))));
    assert!(!is_unique_violation(&None));
    let e = FriendsLocalError::Sqlx { code: Some(s("23505")), message: s("dup") }.into_port_error();
    assert!(matches!(e, PortError::Conflict(ConflictError::PendingRequestExists)));
    assert!(matches!(FriendsError::from_port(e), FriendsError::PendingRequestExists));
    let e = FriendsLocalError::Sqlx { code: None, message: s("down") }.into_port_error();
    assert_eq!(e.message(), "Friends repository: down");
    assert!(matches!(FriendsError::from_port(e), FriendsError::Internal(m) if m == "down"));
    assert_eq!(
        PortError::Conflict(ConflictError::PendingRequestExists).message(),
        "A pending friend request already exists between these users."
    );
}

#[test]
fn users_keep_their_last_message_only_when_complete() {
    let row = |content: Option<&str>| UserSummaryDbRow {
        id: 1,
        username: s("u"),
        profile_picture_url: None,
        last_msg_id: Some(2),
        last_msg_sender_id: Some(3),
        last_msg_content: content.map(s),
        last_msg_created_at: Some(4),
    };
    let u = UserSummary::from_row(row(Some("hi")));
    let m = u.last_message.unwrap();
    assert_eq!((m.id, m.sender_id, m.content.as_str(), m.created_at), (2, 3, "hi", 4));
    assert!(UserSummary::from_row(row(None)).last_message.is_none());
}

// ─── Messages ───

fn friend(id: u128) -> UserSummary {
    UserSummary { id, username: s("f"), profile_picture_url: None, last_message: None }
}

#[test]
fn only_friends_exchange_messages() {
    let friends = vec![friend(5), friend(6)];
    assert!(are_friends_in(&friends, 6));
    assert!(!are_friends_in(&friends, 7));
    assert!(matches!(check_recipient(1, 1), Err(MessagesError::CannotMessageYourself)));
    assert!(check_recipient(1, 2).is_ok());
    assert!(matches!(
        prepare_message(1, 1, &friends, MessageType::Text, s("x")),
        Err(MessagesError::CannotMessageYourself)
    ));
    assert!(matches!(prepare_message(1, 7, &friends, MessageType::Text, s("x")), Err(MessagesError::NotFriends)));
    let m = prepare_message(1, 5, &friends, MessageType::Image, s("url")).unwrap();
    assert_eq!((m.sender_id, m.receiver_id, m.message_type, m.content.as_str()), (1, 5, MessageType::Image, "url"));
    assert!(matches!(check_conversation(&friends, 9), Err(MessagesError::NotFriends)));
    assert!(check_conversation(&friends, 5).is_ok());
    assert_eq!(MessagesError::NotFriends.message(), "You are not friends with this user.");
    assert_eq!(MessagesError::CannotMessageYourself.message(), "Cannot send a message to yourself.");
}

#[test]
fn message_types_and_rows() {
    assert_eq!(MessageType::Text.as_str(), "text");
    assert_eq!(MessageType::Image.as_str(), "image");
    assert_eq!(MessageType::parse(&s("image")), Some(MessageType::Image));
    assert_eq!(MessageType::parse(&s("video")), None);
    let row = |t: &str| MessageDbRow {
        id: 1,
        sender_id: 2,
        receiver_id: 3,
        message_type: s(t),
        content: s("hello"),
        created_at: 9,
    };
    let m = Message::from_row(row("text")).ok().unwrap();
    assert_eq!(m.message_type, MessageType::Text);
    assert_eq!(m.content, "hello");
    assert!(matches!(Message::from_row(row("gif")), Err(MessagesLocalError::UnknownType(t)) if t == "gif"));
    let e = MessagesLocalError::UnknownType(s("gif")).into_port_error();
    assert!(matches!(e, MessagesPortError::Internal(ref m) if m == "Matching variant not found"));
    assert_eq!(
        MessagesError::from_friends_port(&PortError::Internal(s("down"))).message(),
        "Messages service: Friends repository: down"
    );
    assert!(matches!(MessagesError::from_port(e), MessagesError::Internal(m) if m == "Matching variant not found"));
}

// ─── Groups ───

fn group(owner: u128) -> Group {
    Group { id: 1, name: s("g"), description: None, created_by_id: owner }
}

#[test]
fn only_the_owner_uses_a_group() {
    assert!(matches!(check_group_owner(3, &None), Err(GroupError::GroupNotFound)));
    assert!(matches!(check_group_owner(3, &Some(group(4))), Err(GroupError::NotGroupOwner)));
    assert!(check_group_owner(3, &Some(group(3))).is_ok());
    assert_eq!(GroupError::GroupNotFound.message(), "Group not found.");
    assert_eq!(GroupError::NotGroupOwner.message(), "You are not the owner of this group.");
}

#[test]
fn groups_need_a_name() {
    assert!(matches!(prepare_group("", None, 3), Err(GroupError::EmptyName)));
    assert_eq!(prepare_group("  ", None, 3).unwrap().name, "  ");
    let g = prepare_group("Desserts", Some(s("sweet")), 3).unwrap();
    assert_eq!(g.name, "Desserts");
    assert_eq!(g.description, Some(s("sweet")));
    assert_eq!(g.created_by_id, 3);
    assert_eq!(GroupError::EmptyName.message(), "Group name cannot be empty.");
    assert_eq!(
        GroupError::from_local(&GroupRepoError::Internal(s("x"))).message(),
        "Group service: Recipe local repository: x."
    );
}

#[test]
fn new_groups_get_fresh_ids() {
    let a = Group::new(s("a"), None, 1);
    let b = Group::new(s("a"), None, 1);
    assert_ne!(a.id, b.id);
    for g in [a, b] {
        assert_eq!((g.id >> 76) & 0xf, 4);
        assert_eq!((g.id >> 62) & 0x3, 2);
        assert_eq!(uuid::Uuid::from_u128(g.id).get_version_num(), 4);
    }
}

#[test]
fn group_rows() {
    let g = Group::from_row(GroupDbRow { id: 7, group_name: s("n"), group_description: Some(s("d")), created_by: 2 });
    assert_eq!((g.id, g.name.as_str(), g.created_by_id), (7, "n", 2));
    let preview = |origin: &str| RecipePreviewDbRow {
        id: 5,
        origin: s(origin),
        recipe_name: s("r"),
        tags: vec![],
        thumbnail_url: None,
    };
    let row = |origin: &str| RecipesGroupCountDbRow {
        group_id: 7,
        group_name: s("n"),
        recipes: vec![preview("local"), preview(origin)],
        total_groups_count: 3,
        total_recipes_count: 12,
    };
    let (groups, total) = recipe_groups_from_rows(vec![row("external")]).ok().unwrap();
    assert_eq!(total, 3);
    assert_eq!(groups[0].total_recipes, 12);
    assert_eq!(groups[0].recipes.len(), 2);
    assert!(recipe_groups_from_rows(vec![row("external"), row("bad")]).is_err());
    let (groups, total) = recipe_groups_from_rows(vec![]).ok().unwrap();
    assert!(groups.is_empty());
    assert_eq!(total, 0);
}
