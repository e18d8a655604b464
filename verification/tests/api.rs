use chat_backend::api::{
    api_version, channels, create_channel, create_user, delete_message, get_channel, get_message,
    get_user, get_user_res, send_message, send_message_with, sign_in, update_message,
};
use chat_backend::errors::ApiError;
use chat_backend::store::ChatStore;

fn register(store: &mut ChatStore, username: &str, password: &str) -> String {
    create_user(
        store,
        username.to_string(),
        password.to_string(),
        password.to_string(),
    )
    .expect("registration should succeed")
}

fn login(store: &mut ChatStore, username: &str, password: &str) -> String {
    sign_in(store, username.to_string(), password.to_string()).expect("sign-in should succeed")
}

#[test]
fn version_tag() {
    assert_eq!(api_version(), "0.1");
}

#[test]
fn fresh_identifiers_are_uuid_strings() {
    let mut store = ChatStore::new();
    let uid = register(&mut store, "ada", "s3cret");
    assert_eq!(uid.chars().count(), 36);
}

#[test]
fn register_then_sign_in_with_correct_password() {
    let mut store = ChatStore::new();
    let uid = register(&mut store, "ada", "s3cret");
    let token = login(&mut store, "ada", "s3cret");
    let resolved = get_user(&store, &token).expect("token should resolve");
    assert_eq!(resolved, uid);
}

#[test]
fn wrong_password_and_unknown_username_fail_alike() {
    let mut store = ChatStore::new();
    register(&mut store, "ada", "s3cret");
    let wrong_password = sign_in(&mut store, "ada".to_string(), "nope".to_string());
    let unknown_user = sign_in(&mut store, "grace".to_string(), "s3cret".to_string());
    assert_eq!(wrong_password, Err(ApiError::AuthenticationFailure));
    assert_eq!(unknown_user, Err(ApiError::AuthenticationFailure));
    assert_eq!(wrong_password, unknown_user);
}

#[test]
fn registration_rejects_confirmation_mismatch() {
    let mut store = ChatStore::new();
    let r = create_user(
        &mut store,
        "ada".to_string(),
        "one".to_string(),
        "two".to_string(),
    );
    assert_eq!(r, Err(ApiError::ValidationFailure));
}

#[test]
fn registration_rejects_taken_username() {
    let mut store = ChatStore::new();
    register(&mut store, "ada", "s3cret");
    let r = create_user(
        &mut store,
        "ada".to_string(),
        "other".to_string(),
        "other".to_string(),
    );
    assert_eq!(r, Err(ApiError::ValidationFailure));
}

#[test]
fn bad_token_is_an_authorization_failure() {
    let mut store = ChatStore::new();
    let bogus = "not-a-token".to_string();
    assert_eq!(get_user(&store, &bogus), None);
    assert_eq!(
        get_user_res(&store, &bogus),
        Err(ApiError::AuthorizationFailure)
    );
    let r = create_channel(&mut store, &bogus, "general".to_string());
    assert!(matches!(r, Err(ApiError::AuthorizationFailure)));
}

#[test]
fn channel_creator_is_a_member() {
    let mut store = ChatStore::new();
    register(&mut store, "ada", "s3cret");
    let token = login(&mut store, "ada", "s3cret");
    let c = create_channel(&mut store, &token, "general".to_string()).expect("channel");
    assert_eq!(c.name(), "general");
    let listed = channels(&store, &token);
    assert_eq!(listed.len(), 1);
    assert_eq!(listed[0].id(), c.id());
    let seen = get_channel(&store, &token, c.id()).expect("creator should see the channel");
    assert_eq!(seen.id(), c.id());
    assert_eq!(seen.name(), "general");
}

#[test]
fn non_member_does_not_see_the_channel() {
    let mut store = ChatStore::new();
    register(&mut store, "ada", "s3cret");
    register(&mut store, "bob", "pw2");
    let token_a = login(&mut store, "ada", "s3cret");
    let token_b = login(&mut store, "bob", "pw2");
    let c = create_channel(&mut store, &token_a, "general".to_string()).expect("channel");
    assert!(get_channel(&store, &token_b, c.id()).is_none());
    assert!(channels(&store, &token_b).is_empty());
    let r = send_message(&mut store, &token_b, "hi".to_string(), c.id());
    assert!(matches!(r, Err(ApiError::AuthorizationFailure)));
}

#[test]
fn send_then_get_round_trip() {
    let mut store = ChatStore::new();
    let uid = register(&mut store, "ada", "s3cret");
    let token = login(&mut store, "ada", "s3cret");
    let c = create_channel(&mut store, &token, "general".to_string()).expect("channel");
    let m = send_message(&mut store, &token, "hello world".to_string(), c.id()).expect("send");
    let fetched = get_message(&store, &token, m.message_id()).expect("read back");
    assert_eq!(fetched.message(), m.message());
    assert_eq!(fetched.message(), "hello world");
    assert_eq!(fetched.user_id(), &uid);
    assert_eq!(fetched.channel_id(), c.id());
    assert_eq!(fetched.timestamp(), m.timestamp());
    let author = fetched.author(&store).expect("author is stored");
    assert_eq!(author.username(), "ada");
    assert_eq!(author.id(), &uid);
    assert!(author.profile_picture().is_none());
}

#[test]
fn only_the_author_edits_and_the_store_is_untouched_on_refusal() {
    let mut store = ChatStore::new();
    register(&mut store, "alice", "pw1");
    let token = login(&mut store, "alice", "pw1");
    let c = create_channel(&mut store, &token, "general".to_string()).expect("channel");
    let m = send_message(&mut store, &token, "hi".to_string(), c.id()).expect("send");
    let updated = update_message(&mut store, &token, m.message_id(), "hello".to_string())
        .expect("author edits");
    assert_eq!(updated.message(), "hello");
    register(&mut store, "bob", "pw2");
    let token_b = login(&mut store, "bob", "pw2");
    let refused = update_message(&mut store, &token_b, m.message_id(), "x".to_string());
    assert!(matches!(refused, Err(ApiError::AuthorizationFailure)));
    let still = get_message(&store, &token, m.message_id()).expect("still there");
    assert_eq!(still.message(), "hello");
}

#[test]
fn only_the_author_deletes_and_retry_is_safe() {
    let mut store = ChatStore::new();
    register(&mut store, "alice", "pw1");
    register(&mut store, "bob", "pw2");
    let token_a = login(&mut store, "alice", "pw1");
    let token_b = login(&mut store, "bob", "pw2");
    let c = create_channel(&mut store, &token_a, "general".to_string()).expect("channel");
    let m = send_message(&mut store, &token_a, "hi".to_string(), c.id()).expect("send");
    let refused = delete_message(&mut store, &token_b, m.message_id());
    assert_eq!(refused, Err(ApiError::AuthorizationFailure));
    assert!(get_message(&store, &token_a, m.message_id()).is_some());
    let deleted = delete_message(&mut store, &token_a, m.message_id()).expect("author deletes");
    assert_eq!(&deleted, m.message_id());
    assert!(get_message(&store, &token_a, m.message_id()).is_none());
    let again = delete_message(&mut store, &token_a, m.message_id());
    assert_eq!(again, Err(ApiError::AuthorizationFailure));
}

#[test]
fn listing_orders_messages_by_creation_time() {
    let mut store = ChatStore::new();
    register(&mut store, "ada", "s3cret");
    let token = login(&mut store, "ada", "s3cret");
    let c = create_channel(&mut store, &token, "general".to_string()).expect("channel");
    send_message_with(
        &mut store,
        &token,
        "third".to_string(),
        c.id(),
        "id-3".to_string(),
        300,
    )
    .expect("send");
    send_message_with(
        &mut store,
        &token,
        "first".to_string(),
        c.id(),
        "id-1".to_string(),
        100,
    )
    .expect("send");
    send_message_with(
        &mut store,
        &token,
        "second".to_string(),
        c.id(),
        "id-2".to_string(),
        200,
    )
    .expect("send");
    let listed = c.messages(&store);
    let bodies: Vec<&str> = listed.iter().map(|m| m.message().as_str()).collect();
    assert_eq!(bodies, vec!["first", "second", "third"]);
    assert!(listed[0].timestamp() < listed[1].timestamp());
    assert!(listed[1].timestamp() < listed[2].timestamp());
}

#[test]
fn a_reused_message_identifier_is_a_system_failure() {
    let mut store = ChatStore::new();
    register(&mut store, "ada", "s3cret");
    let token = login(&mut store, "ada", "s3cret");
    let c = create_channel(&mut store, &token, "general".to_string()).expect("channel");
    send_message_with(
        &mut store,
        &token,
        "one".to_string(),
        c.id(),
        "same-id".to_string(),
        1,
    )
    .expect("send");
    let clash = send_message_with(
        &mut store,
        &token,
        "two".to_string(),
        c.id(),
        "same-id".to_string(),
        2,
    );
    assert!(matches!(clash, Err(ApiError::SystemFailure)));
    assert_eq!(c.messages(&store).len(), 1);
}

#[test]
fn scenario_two_users_one_message() {
    let mut store = ChatStore::new();
    register(&mut store, "alice", "pw1");
    let t = login(&mut store, "alice", "pw1");
    let c = create_channel(&mut store, &t, "general".to_string()).expect("channel");
    let m = send_message(&mut store, &t, "hi".to_string(), c.id()).expect("send");
    let author = m.author(&store).expect("author");
    assert_eq!(author.username(), "alice");
    let m2 = update_message(&mut store, &t, m.message_id(), "hello".to_string()).expect("edit");
    assert_eq!(m2.message(), "hello");
    register(&mut store, "bob", "pw2");
    let t2 = login(&mut store, "bob", "pw2");
    let refused = update_message(&mut store, &t2, m.message_id(), "x".to_string());
    assert!(matches!(refused, Err(ApiError::AuthorizationFailure)));
    let still = get_message(&store, &t, m.message_id()).expect("readable by alice");
    assert_eq!(still.message(), "hello");
}

#[test]
fn error_texts_name_the_failure() {
    assert_eq!(
        ApiError::AuthenticationFailure.text(),
        "invalid username or password"
    );
    assert_eq!(
        ApiError::AuthorizationFailure.text(),
        "invalid auth token or permissions"
    );
    assert_eq!(ApiError::ValidationFailure.text(), "invalid input");
    assert_eq!(ApiError::SystemFailure.text(), "storage failure");
}
