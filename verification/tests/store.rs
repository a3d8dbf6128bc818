use std::collections::HashSet;

use supplement_api::db::{
    create_follow, create_review, create_supplement, create_user, create_user_with_id,
    delete_user, get_follows, get_reviews, get_supplements, get_users, DataError, Store,
};

#[test]
fn create_user_returns_submitted_name() {
    let mut store = Store::new();
    let user = create_user(&mut store, "Alice".to_string()).unwrap();
    assert_eq!(user.name, "Alice");
    assert_ne!(user.id, 0);
}

#[test]
fn listed_after_create_is_single_alice() {
    let mut store = Store::new();
    let created = create_user(&mut store, "Alice".to_string()).unwrap();
    let users = get_users(&store).unwrap();
    assert_eq!(users.len(), 1);
    assert_eq!(users[0].name, "Alice");
    assert_ne!(users[0].id, 0);
    assert_eq!(users[0].id, created.id);
}

#[test]
fn delete_absent_user_succeeds() {
    let mut store = Store::new();
    assert!(delete_user(&mut store, 12345).is_ok());
    let user = create_user(&mut store, "Bob".to_string()).unwrap();
    assert!(delete_user(&mut store, user.id.wrapping_add(1)).is_ok());
    assert_eq!(get_users(&store).unwrap().len(), 1);
}

#[test]
fn delete_user_removes_row_and_is_idempotent() {
    let mut store = Store::new();
    let user = create_user(&mut store, "Carol".to_string()).unwrap();
    assert!(delete_user(&mut store, user.id).is_ok());
    assert_eq!(get_users(&store).unwrap().len(), 0);
    assert!(delete_user(&mut store, user.id).is_ok());
    assert_eq!(get_users(&store).unwrap().len(), 0);
}

#[test]
fn duplicate_user_id_is_constraint_violation() {
    let mut store = Store::new();
    assert!(create_user_with_id(&mut store, 42, "First".to_string()).is_ok());
    let second = create_user_with_id(&mut store, 42, "Second".to_string());
    assert_eq!(second.unwrap_err(), DataError::ConstraintViolation);
    let users = get_users(&store).unwrap();
    assert_eq!(users.len(), 1);
    assert_eq!(users[0].name, "First");
}

#[test]
fn thousand_creates_yield_distinct_ids() {
    let mut store = Store::new();
    let mut ids = HashSet::new();
    for i in 0..1000 {
        let user = create_user(&mut store, format!("user-{i}")).unwrap();
        assert_ne!(user.id, 0);
        ids.insert(user.id);
    }
    assert_eq!(ids.len(), 1000);
    assert_eq!(get_users(&store).unwrap().len(), 1000);
}

#[test]
fn user_round_trip_via_list() {
    let mut store = Store::new();
    create_user(&mut store, "Someone".to_string()).unwrap();
    let created = create_user(&mut store, "Dora".to_string()).unwrap();
    let users = get_users(&store).unwrap();
    let listed = users.last().unwrap();
    assert_eq!(listed.id, created.id);
    assert_eq!(listed.name, created.name);
}

#[test]
fn supplement_with_null_links_lists_absent_fields() {
    let mut store = Store::new();
    create_supplement(&mut store, "Vitamin C".to_string(), None, None).unwrap();
    let supplements = get_supplements(&store).unwrap();
    assert_eq!(supplements.len(), 1);
    assert_eq!(supplements[0].name, "Vitamin C");
    assert!(supplements[0].store_link.is_none());
    assert!(supplements[0].image_url.is_none());
}

#[test]
fn supplement_round_trip_all_fields() {
    let mut store = Store::new();
    let created = create_supplement(
        &mut store,
        "Magnesium".to_string(),
        Some("https://shop.example/mag".to_string()),
        Some("https://img.example/mag.png".to_string()),
    )
    .unwrap();
    let supplements = get_supplements(&store).unwrap();
    let listed = supplements.last().unwrap();
    assert_eq!(listed.id, created.id);
    assert_eq!(listed.name, created.name);
    assert_eq!(listed.store_link, created.store_link);
    assert_eq!(listed.image_url, created.image_url);
}

#[test]
fn supplement_ids_count_up_from_one() {
    let mut store = Store::new();
    let a = create_supplement(&mut store, "A".to_string(), None, None).unwrap();
    let b = create_supplement(&mut store, "B".to_string(), None, None).unwrap();
    let c = create_supplement(&mut store, "C".to_string(), None, None).unwrap();
    assert_eq!(a.id, 1);
    assert_eq!(b.id, 2);
    assert_eq!(c.id, 3);
}

#[test]
fn follow_accepts_any_pair_and_round_trips() {
    let mut store = Store::new();
    let follow = create_follow(&mut store, 11, 22).unwrap();
    assert_eq!(follow.following_user, 11);
    assert_eq!(follow.followed_user, 22);
    create_follow(&mut store, 7, 7).unwrap();
    create_follow(&mut store, 11, 22).unwrap();
    let follows = get_follows(&store).unwrap();
    assert_eq!(follows.len(), 3);
    assert_eq!(follows[1].following_user, 7);
    assert_eq!(follows[1].followed_user, 7);
    assert_eq!(follows[2].following_user, 11);
    assert_eq!(follows[2].followed_user, 22);
}

#[test]
fn review_round_trip_and_ids_count_up() {
    let mut store = Store::new();
    let first = create_review(
        &mut store,
        "Great".to_string(),
        "Worked well".to_string(),
        42,
        1,
        5,
    )
    .unwrap();
    let second = create_review(
        &mut store,
        "Bad".to_string(),
        "Did nothing".to_string(),
        43,
        1,
        99,
    )
    .unwrap();
    assert_eq!(first.id, 1);
    assert_eq!(second.id, 2);
    assert_eq!(second.rating, 99);
    let reviews = get_reviews(&store).unwrap();
    assert_eq!(reviews.len(), 2);
    assert_eq!(reviews[0].title, "Great");
    assert_eq!(reviews[0].body, "Worked well");
    assert_eq!(reviews[0].user_id, 42);
    assert_eq!(reviews[0].supplement_id, 1);
    assert_eq!(reviews[0].rating, 5);
    assert_eq!(reviews[1].title, second.title);
    assert_eq!(reviews[1].body, second.body);
    assert_eq!(reviews[1].user_id, second.user_id);
    assert_eq!(reviews[1].supplement_id, second.supplement_id);
    assert_eq!(reviews[1].rating, second.rating);
}
