use messaging_app_backend::accounts::{
    check_current_password, check_email_verified, check_login, check_new_account,
    check_not_yet_verified, check_token_purpose, check_unregistered, generate_otp, verify_otp,
    LoginFailure, VerifyOtp,
};
use messaging_app_backend::app_error::AppError;
use messaging_app_backend::auth_error::AuthError;
use messaging_app_backend::groups::{
    check_admin, check_capacity, check_removable, check_visible, group_capacity, initial_members,
    role_from_name, role_name, AdminChange, GroupRole,
};
use messaging_app_backend::messaging::{
    check_group_member, check_participant, check_sender, content_or_empty, forward_target,
    message_notice, require_message, sender_name_or_unknown, validate_content, Conversation,
    MessageChange,
};
use messaging_app_backend::refusal::Refusal;
use messaging_app_backend::tokens::{AuthenticatedUser, Claims, TokenType};
use messaging_app_backend::uploads::{
    avatar_location, check_media_owner, check_status_deleted, media_upload_location,
    status_expires_at, status_visible, AvatarOwner,
};

#[test]
fn message_content_rules() {
    assert_eq!(validate_content("hello"), Ok(()));
    assert_eq!(validate_content("   "), Err(Refusal::EmptyContent));
    assert_eq!(validate_content(""), Err(Refusal::EmptyContent));
    assert_eq!(validate_content(&"a".repeat(4000)), Ok(()));
    assert_eq!(validate_content(&"a".repeat(4001)), Err(Refusal::ContentTooLong));
    assert_eq!(validate_content(&"é".repeat(2001)), Err(Refusal::ContentTooLong));
    let e = Refusal::ContentTooLong.to_app_error();
    assert_eq!(e, AppError::BadRequest("Message content exceeds maximum length of 4000 characters".to_string()));
    assert_eq!(e.status_code(), 400);
}

#[test]
fn message_permissions() {
    assert_eq!(check_group_member(false), Err(Refusal::NotGroupMember));
    assert_eq!(Refusal::NotGroupMember.to_app_error().status_code(), 403);
    assert_eq!(require_message::<u8>(None), Err(Refusal::MessageNotFound));
    assert_eq!(Refusal::MessageNotFound.to_app_error().status_code(), 404);
    assert_eq!(check_sender(1, 1, MessageChange::Edit), Ok(()));
    assert_eq!(check_sender(1, 2, MessageChange::Edit), Err(Refusal::CannotEditOthersMessage));
    assert_eq!(check_sender(1, 2, MessageChange::Delete), Err(Refusal::CannotDeleteOthersMessage));
    assert_eq!(check_participant(None, Refusal::NotInSourceChat), Err(Refusal::NotInSourceChat));
    assert_eq!(check_participant(Some(true), Refusal::NotInSourceChat), Ok(()));
    assert_eq!(forward_target(&vec![7, 8]), Ok(7));
    assert_eq!(forward_target(&vec![]), Err(Refusal::NoTargetChat));
    assert_eq!(Refusal::NoTargetChat.message(), "No target chat_id provided");
}

#[test]
fn message_presentation() {
    let n = message_notice(Conversation::Group, None, "g-1");
    assert_eq!(n.title, "New Group Message");
    assert_eq!(n.body, "New group message");
    assert_eq!(n.data, vec![("group_id".to_string(), "g-1".to_string())]);
    let n = message_notice(Conversation::Chat, Some("Ann".to_string()), "c-1");
    assert_eq!(n.title, "New Message");
    assert_eq!(n.body, "Ann");
    assert_eq!(sender_name_or_unknown(None), "Unknown");
    assert_eq!(content_or_empty(None), "");
}

#[test]
fn group_rules() {
    let members = initial_members(1, &vec![2, 1, 3]);
    assert_eq!(members, vec![(1, GroupRole::Owner), (2, GroupRole::Member), (3, GroupRole::Member)]);
    assert_eq!(group_capacity(None), 100);
    assert_eq!(group_capacity(Some(5)), 5);
    assert_eq!(check_admin(Some(GroupRole::Admin), AdminChange::AddMember), Ok(()));
    assert_eq!(check_admin(Some(GroupRole::Member), AdminChange::AddMember), Err(Refusal::OnlyAdminsAdd));
    assert_eq!(check_admin(None, AdminChange::UpdateSettings), Err(Refusal::OnlyAdminsUpdate));
    assert_eq!(check_capacity(99, 100), Ok(()));
    assert_eq!(check_capacity(100, 100), Err(Refusal::GroupFull));
    assert_eq!(check_removable(Some(GroupRole::Owner)), Err(Refusal::CannotRemoveOwner));
    assert_eq!(check_removable(Some(GroupRole::Admin)), Ok(()));
    assert_eq!(check_visible(false), Err(Refusal::GroupNotFoundOrDenied));
    assert_eq!(role_name(GroupRole::Admin), "admin");
    assert_eq!(role_from_name("owner"), Some(GroupRole::Owner));
    assert_eq!(role_from_name("Owner"), None);
}

#[test]
fn account_rules() {
    assert_eq!(check_new_account(true, "Aa1!aaaaaaaa"), Err(AppError::BadRequest("User already exists".to_string())));
    assert_eq!(check_new_account(false, "Aa1!aaaaaaaa"), Ok(()));
    assert!(check_new_account(false, "short").is_err());
    assert!(matches!(check_login(None, "x"), Err(LoginFailure::InvalidCredentials)));
    let hash = bcrypt::hash("right", 4).unwrap();
    assert!(check_login(Some(&hash), "right").is_ok());
    assert!(matches!(check_login(Some(&hash), "wrong"), Err(LoginFailure::InvalidCredentials)));
    assert!(matches!(check_login(Some("not a hash"), "x"), Err(LoginFailure::Hash(_))));
    assert!(check_current_password("right", &hash).is_ok());
    assert!(matches!(check_current_password("wrong", &hash), Err(AuthError::IncorrectPassword)));
    assert!(matches!(check_unregistered(true), Err(AuthError::InvalidCredentials)));
    assert!(check_unregistered(false).is_ok());
    let verified = AuthenticatedUser { user_id: 1, email_verified: true };
    let unverified = AuthenticatedUser { user_id: 1, email_verified: false };
    assert!(check_email_verified(&verified).is_ok());
    assert!(matches!(check_email_verified(&unverified), Err(AuthError::EmailNotVerified)));
    assert!(matches!(check_not_yet_verified(true), Err(AuthError::EmailAlreadyVerified)));
    let reset = Claims::for_user(1, TokenType::PasswordReset, 0, 0);
    assert!(check_token_purpose(Some(reset), TokenType::PasswordReset, AuthError::PasswordReset).is_ok());
    let access = Claims::for_user(1, TokenType::Access, 0, 0);
    assert!(matches!(
        check_token_purpose(Some(access), TokenType::Verification, AuthError::EmailVerification),
        Err(AuthError::EmailVerification)
    ));
}

#[test]
fn one_time_codes() {
    for _ in 0..20 {
        let code = generate_otp();
        assert_eq!(code.len(), 6);
        assert!(code.chars().all(|c| c.is_ascii_digit()));
    }
    let req = VerifyOtp { phone_number: "1".to_string(), otp_code: "123456".to_string() };
    assert_eq!(verify_otp(&req), Err(Refusal::OtpNotImplemented));
    assert_eq!(Refusal::OtpNotImplemented.message(), "OTP functionality not yet implemented");
}

#[test]
fn upload_locations_and_ownership() {
    let f = media_upload_location(Some("cat.png"));
    assert_eq!(f.path, "media_uploads/cat.png");
    assert_eq!(f.url, "/media/cat.png");
    assert_eq!(media_upload_location(None).url, "/media/file");
    let a = avatar_location(AvatarOwner::User, "u1", None);
    assert_eq!(a.path, "user_avatars/user_u1_avatar");
    assert_eq!(a.url, "/user_avatars/user_u1_avatar");
    let g = avatar_location(AvatarOwner::Group, "g1", Some("me.jpg"));
    assert_eq!(g.url, "/group_avatars/group_g1_me.jpg");
    assert_eq!(status_expires_at(1000), 1000 + 86400);
    assert!(status_visible(10, 9));
    assert!(!status_visible(10, 10));
    assert_eq!(check_status_deleted(0), Err(Refusal::StatusNotFound));
    assert_eq!(check_status_deleted(1), Ok(()));
    assert_eq!(check_media_owner(None, 1), Err(404));
    assert_eq!(check_media_owner(Some(2), 1), Err(403));
    assert_eq!(check_media_owner(Some(1), 1), Ok(()));
}

#[test]
fn sign_in_records() {
    let r = messaging_app_backend::accounts::login_record(Some(Some("Firefox/1")), Some("1.2.3.4"));
    assert_eq!(r.device_id, "Firefox/1");
    assert_eq!(r.device_info, "Browser: Firefox/1");
    assert_eq!(r.activity_details, "Successful login from 1.2.3.4");
    let r = messaging_app_backend::accounts::login_record(Some(None), None);
    assert_eq!(r.device_id, "unknown");
    assert_eq!(r.ip_address, "unknown");
}
