use chat_realtime::auth::{AuthError, AuthService};
use chat_realtime::helpers::{is_valid_email, sanitize_input, Claims};
use chat_realtime::logging::{log_error, log_info, log_warning, LogLevel};
use chat_realtime::models::{HistoryQuery, SearchQuery, UpdateProfileInput};
use chat_realtime::repository::{ContactError, ContactRepository, MessageRepository, ProfileField, UserRepository};
use chat_realtime::response::{ApiResponse, ErrorResponse};

#[test]
fn email_needs_at_and_dot() {
    assert!(is_valid_email("a@b.c"));
    assert!(!is_valid_email("ab.c"));
    assert!(!is_valid_email("a@bc"));
    assert!(!is_valid_email(""));
}

#[test]
fn sanitize_trims_both_ends() {
    assert_eq!(sanitize_input("  hello world \n"), "hello world");
    assert_eq!(sanitize_input("plain"), "plain");
    assert_eq!(sanitize_input("   "), "");
}

#[test]
fn claims_expire_after_lifetime() {
    let c = Claims::issue(3, "u@x.io", 1_000, 3600).unwrap();
    assert_eq!(c.sub, 3);
    assert_eq!(c.email, "u@x.io");
    assert_eq!(c.iat, 1_000);
    assert_eq!(c.exp, 4_600);
    assert!(Claims::issue(3, "u@x.io", i64::MAX, 1).is_none());
}

#[test]
fn log_records_keep_level_and_text() {
    let i = log_info("started");
    assert_eq!(i.level, LogLevel::Info);
    assert_eq!(i.message, "started");
    assert_eq!(log_warning("w").level, LogLevel::Warning);
    assert_eq!(log_error("e").level, LogLevel::Error);
    assert_eq!(log_error("e").message, "e");
}

#[test]
fn history_page_defaults_and_cap() {
    assert_eq!(HistoryQuery { limit: None, offset: None }.page(), (50, 0));
    assert_eq!(HistoryQuery { limit: Some(500), offset: Some(20) }.page(), (100, 20));
    assert_eq!(HistoryQuery { limit: Some(10), offset: None }.page(), (10, 0));
    assert_eq!(HistoryQuery { limit: Some(100), offset: None }.page(), (100, 0));
}

#[test]
fn search_needs_three_bytes() {
    assert!(!SearchQuery { q: "ab".to_string() }.is_long_enough());
    assert!(SearchQuery { q: "abc".to_string() }.is_long_enough());
    assert!(SearchQuery { q: "é1".to_string() }.is_long_enough());
}

#[test]
fn conversation_key_orders_pair() {
    assert_eq!(MessageRepository::conversation_participants(9, 4), (4, 9));
    assert_eq!(MessageRepository::conversation_participants(4, 9), (4, 9));
    assert_eq!(MessageRepository::conversation_participants(5, 5), (5, 5));
}

#[test]
fn partner_is_the_other_participant() {
    assert_eq!(MessageRepository::partner_of(1, 2, 1), Some(2));
    assert_eq!(MessageRepository::partner_of(1, 2, 2), Some(1));
    assert_eq!(MessageRepository::partner_of(1, 2, 3), None);
}

#[test]
fn group_members_exclude_creator() {
    assert_eq!(MessageRepository::additional_members(1, &vec![1, 2, 3]), vec![2, 3]);
    assert_eq!(MessageRepository::additional_members(1, &vec![]), Vec::<i32>::new());
}

#[test]
fn contact_request_checks() {
    assert_eq!(ContactRepository::check_request(1, None, None), Err(ContactError::UserNotFound));
    assert_eq!(ContactRepository::check_request(1, Some(1), None), Err(ContactError::CannotAddYourself));
    assert_eq!(
        ContactRepository::check_request(1, Some(2), Some("pending".to_string())),
        Err(ContactError::RequestAlreadySent)
    );
    assert_eq!(
        ContactRepository::check_request(1, Some(2), Some("accepted".to_string())),
        Err(ContactError::AlreadyFriends)
    );
    assert_eq!(
        ContactRepository::check_request(1, Some(2), Some("blocked".to_string())),
        Err(ContactError::UserBlocked)
    );
    assert_eq!(ContactRepository::check_request(1, Some(2), Some("rejected".to_string())), Ok(2));
    assert_eq!(ContactRepository::check_request(1, Some(2), None), Ok(2));
}

#[test]
fn contact_accept_checks() {
    assert_eq!(ContactRepository::check_accept(None), Err(ContactError::NoRequestFound));
    assert_eq!(
        ContactRepository::check_accept(Some("accepted".to_string())),
        Err(ContactError::NoPendingRequest)
    );
    assert_eq!(ContactRepository::check_accept(Some("pending".to_string())), Ok(()));
}

#[test]
fn contact_error_texts() {
    assert_eq!(ContactError::UserNotFound.message(), "User not found");
    assert_eq!(ContactError::CannotAddYourself.message(), "Cannot add yourself");
    assert_eq!(ContactError::RequestAlreadySent.message(), "Request already sent");
    assert_eq!(ContactError::AlreadyFriends.message(), "Already friends");
    assert_eq!(ContactError::UserBlocked.message(), "User blocked");
    assert_eq!(ContactError::NoRequestFound.message(), "No request found");
    assert_eq!(ContactError::NoPendingRequest.message(), "No pending request from this user");
}

#[test]
fn response_bodies() {
    let ok = ApiResponse::success("done", 5u8);
    assert!(ok.success);
    assert_eq!(ok.message, "done");
    assert_eq!(ok.data, Some(5));
    let empty: ApiResponse<u8> = ApiResponse::success_no_data("fine");
    assert!(empty.data.is_none());
    let e = ErrorResponse::bad_request("bad");
    assert!(!e.success);
    assert_eq!(e.message, "bad");
    assert_eq!(e.error, "Bad Request");
    assert_eq!(ErrorResponse::unauthorized("x").error, "Unauthorized");
    assert_eq!(ErrorResponse::not_found("x").error, "Not Found");
    assert_eq!(ErrorResponse::internal_error("x").error, "Internal Server Error");
    assert_eq!(ErrorResponse::custom("m", "Teapot").error, "Teapot");
}

#[test]
fn registration_refuses_taken_email() {
    assert_eq!(AuthService::check_registration(true), Err(AuthError::EmailTaken));
    assert_eq!(AuthService::check_registration(false), Ok(()));
    assert_eq!(AuthError::EmailTaken.message(), "User with this email already exists");
}

#[test]
fn login_verdicts() {
    assert_eq!(AuthService::check_login(false, false, false), Err(AuthError::InvalidCredentials));
    assert_eq!(AuthService::check_login(true, false, true), Err(AuthError::InvalidCredentials));
    assert_eq!(AuthService::check_login(true, true, false), Err(AuthError::AccountDeactivated));
    assert_eq!(AuthService::check_login(true, true, true), Ok(()));
    assert_eq!(AuthError::InvalidCredentials.message(), "Invalid email or password");
    assert_eq!(AuthError::AccountDeactivated.message(), "Account is deactivated");
}

#[test]
fn profile_update_columns() {
    let none = UpdateProfileInput { first_name: None, last_name: None, phone: None };
    assert!(UserRepository::changed_fields(&none).is_empty());
    let some = UpdateProfileInput { first_name: Some("A".to_string()), last_name: None, phone: Some("1".to_string()) };
    assert_eq!(UserRepository::changed_fields(&some), vec![ProfileField::FirstName, ProfileField::Phone]);
}
