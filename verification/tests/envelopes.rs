use supplement_api::db::{get_users, DataError, Store};
use supplement_api::handlers::{
    create_follow_handler, deletion_confirmation, create_review_handler, create_supplement_handler, create_user_handler,
    delete_user_handler, follow_create_response, get_follows_handler, get_supplements_handler,
    get_users_handler, list_response, review_create_response, supplement_create_response,
    user_create_response, CreateFollowRequest, CreateReviewRequest, CreateSupplementRequest,
    CreateUserRequest,
};

#[test]
fn malformed_user_body_yields_error_envelope() {
    let mut store = Store::new();
    let response = create_user_handler(&mut store, None);
    assert_eq!(response.status, "error");
    assert_eq!(response.data.id, 0);
    assert_eq!(response.data.name, "Failed");
    assert_eq!(get_users(&store).unwrap().len(), 0);
}

#[test]
fn malformed_supplement_body_yields_error_envelope() {
    let mut store = Store::new();
    let response = create_supplement_handler(&mut store, None);
    assert_eq!(response.status, "error");
    assert_eq!(response.data.id, 0);
    assert_eq!(response.data.name, "Failed");
    assert!(response.data.store_link.is_none());
    assert!(response.data.image_url.is_none());
}

#[test]
fn malformed_follow_body_yields_error_envelope() {
    let mut store = Store::new();
    let response = create_follow_handler(&mut store, None);
    assert_eq!(response.status, "error");
    assert_eq!(response.data.following_user, 0);
    assert_eq!(response.data.followed_user, 0);
}

#[test]
fn malformed_review_body_yields_error_envelope() {
    let mut store = Store::new();
    let response = create_review_handler(&mut store, None);
    assert_eq!(response.status, "error");
    assert_eq!(response.data.id, 0);
    assert_eq!(response.data.title, "Failed");
    assert_eq!(response.data.body, "");
    assert_eq!(response.data.rating, 0);
}

#[test]
fn user_create_handler_wraps_success() {
    let mut store = Store::new();
    let request = CreateUserRequest { name: "Alice".to_string() };
    let response = create_user_handler(&mut store, Some(request));
    assert_eq!(response.status, "success");
    assert_eq!(response.data.name, "Alice");
    assert_ne!(response.data.id, 0);
    let listing = get_users_handler(&store);
    assert_eq!(listing.status, "success");
    assert_eq!(listing.data.len(), 1);
    assert_eq!(listing.data[0].name, "Alice");
}

#[test]
fn supplement_create_handler_wraps_success() {
    let mut store = Store::new();
    let request = CreateSupplementRequest {
        name: "Vitamin C".to_string(),
        store_link: None,
        image_url: None,
    };
    let response = create_supplement_handler(&mut store, Some(request));
    assert_eq!(response.status, "success");
    assert_eq!(response.data.id, 1);
    assert_eq!(response.data.name, "Vitamin C");
    let listing = get_supplements_handler(&store);
    assert_eq!(listing.status, "success");
    assert_eq!(listing.data.len(), 1);
    assert!(listing.data[0].store_link.is_none());
    assert!(listing.data[0].image_url.is_none());
}

#[test]
fn follow_create_handler_wraps_success() {
    let mut store = Store::new();
    let request = CreateFollowRequest { following_user: 5, followed_user: 6 };
    let response = create_follow_handler(&mut store, Some(request));
    assert_eq!(response.status, "success");
    assert_eq!(response.data.following_user, 5);
    assert_eq!(response.data.followed_user, 6);
    let listing = get_follows_handler(&store);
    assert_eq!(listing.status, "success");
    assert_eq!(listing.data.len(), 1);
}

#[test]
fn review_create_handler_wraps_success() {
    let mut store = Store::new();
    let request = CreateReviewRequest {
        title: "Great".to_string(),
        body: "Worked".to_string(),
        user_id: 9,
        supplement_id: 3,
        rating: 4,
    };
    let response = create_review_handler(&mut store, Some(request));
    assert_eq!(response.status, "success");
    assert_eq!(response.data.id, 1);
    assert_eq!(response.data.title, "Great");
    assert_eq!(response.data.body, "Worked");
    assert_eq!(response.data.user_id, 9);
    assert_eq!(response.data.supplement_id, 3);
    assert_eq!(response.data.rating, 4);
}

#[test]
fn delete_handler_confirms_with_uuid_text() {
    let mut store = Store::new();
    let created = create_user_handler(
        &mut store,
        Some(CreateUserRequest { name: "Eve".to_string() }),
    );
    let response = delete_user_handler(&mut store, created.data.id);
    assert_eq!(response.status, "success");
    let expected = format!("Deleted user {}", uuid::Uuid::from_u128(created.data.id));
    assert_eq!(response.data, expected);
    assert_eq!(response.data.len(), "Deleted user ".len() + 36);
    assert_eq!(get_users(&store).unwrap().len(), 0);
}

#[test]
fn deletion_confirmation_matches_uuid_rendering() {
    let id: u128 = 0x0102_0304_0506_0708_090a_0b0c_0d0e_0f10;
    let text = deletion_confirmation(id);
    assert_eq!(
        text,
        format!("Deleted user {}", uuid::Uuid::from_u128(id))
    );
    assert_eq!(text, "Deleted user 01020304-0506-0708-090a-0b0c0d0e0f10");
}

#[test]
fn delete_handler_succeeds_for_absent_id() {
    let mut store = Store::new();
    let response = delete_user_handler(&mut store, 777);
    assert_eq!(response.status, "success");
    assert_eq!(
        response.data,
        format!("Deleted user {}", uuid::Uuid::from_u128(777))
    );
}

#[test]
fn persistence_errors_are_swallowed_into_placeholders() {
    let user = user_create_response(Err(DataError::ConnectionFailure));
    assert_eq!(user.status, "error");
    assert_eq!(user.data.id, 0);
    assert_eq!(user.data.name, "Failed");

    let supplement = supplement_create_response(Err(DataError::ConstraintViolation));
    assert_eq!(supplement.status, "error");
    assert_eq!(supplement.data.id, 0);
    assert_eq!(supplement.data.name, "Failed");

    let follow = follow_create_response(Err(DataError::ConnectionFailure));
    assert_eq!(follow.status, "error");
    assert_eq!(follow.data.following_user, 0);
    assert_eq!(follow.data.followed_user, 0);

    let review = review_create_response(Err(DataError::NotFound));
    assert_eq!(review.status, "error");
    assert_eq!(review.data.id, 0);
    assert_eq!(review.data.title, "Failed");
    assert_eq!(review.data.body, "");

    let listing: supplement_api::handlers::ApiResponse<Vec<supplement_api::db::User>> =
        list_response(Err(DataError::ConnectionFailure));
    assert_eq!(listing.status, "error");
    assert!(listing.data.is_empty());
}
