//! The request-handling layer: a typed request value in, the uniform
//! response envelope out.
//!
//! Each handler decodes nothing itself: the transport hands it the decoded
//! body, or `None` where the body could not be decoded, and a malformed body
//! is answered with the error envelope, never a crash. Every persistence
//! error is swallowed into the same envelope, with a placeholder payload in
//! place of the record.

use vstd::prelude::*;
use vstd::string::StringExecFns;

use crate::db::{
    create_follow, create_review, create_supplement, create_user, delete_user, get_follows,
    follows_view, get_supplements, get_users, has_user_id, opt_text_view, supplements_view,
    users_view, users_without, DataError, Follow, FollowV, Review, ReviewV, Store, Supplement,
    SupplementV, User, UserV,
};

verus! {

/// The uniform response envelope: a status discriminator, `"success"` or
/// `"error"`, and a payload.
pub struct ApiResponse<T> {
    pub status: String,
    pub data: T,
}

/// The request body for creating a user.
pub struct CreateUserRequest {
    pub name: String,
}

/// The request body for creating a supplement.
pub struct CreateSupplementRequest {
    pub name: String,
    pub store_link: Option<String>,
    pub image_url: Option<String>,
}

/// The request body for creating a follow.
pub struct CreateFollowRequest {
    pub following_user: u128,
    pub followed_user: u128,
}

/// The request body for creating a review.
pub struct CreateReviewRequest {
    pub title: String,
    pub body: String,
    pub user_id: u128,
    pub supplement_id: i32,
    pub rating: i32,
}

/// The placeholder user reported when a user cannot be created: the nil
/// identifier and the name "Failed".
pub open spec fn failed_user() -> UserV {
    UserV { id: 0, name: "Failed"@ }
}

/// The placeholder supplement reported when a supplement cannot be created.
pub open spec fn failed_supplement() -> SupplementV {
    SupplementV { id: 0, name: "Failed"@, store_link: None, image_url: None }
}

/// The placeholder follow reported when a follow cannot be created: both
/// identifiers nil.
pub open spec fn failed_follow() -> FollowV {
    FollowV { following_user: 0, followed_user: 0 }
}

/// The placeholder review reported when a review cannot be created.
pub open spec fn failed_review() -> ReviewV {
    ReviewV { id: 0, title: "Failed"@, body: ""@, user_id: 0, supplement_id: 0, rating: 0 }
}

/// Wraps the outcome of a user create: the record under `"success"`, or the
/// placeholder user under `"error"`.
pub fn user_create_response(outcome: Result<User, DataError>) -> (r: ApiResponse<User>)
    ensures
        outcome matches Ok(u) ==> r.status@ == "success"@ && r.data@ == u@,
        outcome is Err ==> r.status@ == "error"@ && r.data@ == failed_user(),
{
    match outcome {
        Ok(user) => ApiResponse { status: String::from_str("success"), data: user },
        Err(_) => ApiResponse {
            status: String::from_str("error"),
            data: User { id: 0, name: String::from_str("Failed") },
        },
    }
}

/// Wraps the outcome of a supplement create: the record under `"success"`,
/// or the placeholder supplement under `"error"`.
pub fn supplement_create_response(outcome: Result<Supplement, DataError>) -> (r: ApiResponse<
    Supplement,
>)
    ensures
        outcome matches Ok(s) ==> r.status@ == "success"@ && r.data@ == s@,
        outcome is Err ==> r.status@ == "error"@ && r.data@ == failed_supplement(),
{
    match outcome {
        Ok(supplement) => ApiResponse { status: String::from_str("success"), data: supplement },
        Err(_) => ApiResponse {
            status: String::from_str("error"),
            data: Supplement {
                id: 0,
                name: String::from_str("Failed"),
                store_link: None,
                image_url: None,
            },
        },
    }
}

/// Wraps the outcome of a follow create: the record under `"success"`, or
/// the placeholder follow under `"error"`.
pub fn follow_create_response(outcome: Result<Follow, DataError>) -> (r: ApiResponse<Follow>)
    ensures
        outcome matches Ok(f) ==> r.status@ == "success"@ && r.data@ == f@,
        outcome is Err ==> r.status@ == "error"@ && r.data@ == failed_follow(),
{
    match outcome {
        Ok(follow) => ApiResponse { status: String::from_str("success"), data: follow },
        Err(_) => ApiResponse {
            status: String::from_str("error"),
            data: Follow { following_user: 0, followed_user: 0 },
        },
    }
}

/// Wraps the outcome of a review create: the record under `"success"`, or
/// the placeholder review under `"error"`.
pub fn review_create_response(outcome: Result<Review, DataError>) -> (r: ApiResponse<Review>)
    ensures
        outcome matches Ok(rev) ==> r.status@ == "success"@ && r.data@ == rev@,
        outcome is Err ==> r.status@ == "error"@ && r.data@ == failed_review(),
{
    match outcome {
        Ok(review) => ApiResponse { status: String::from_str("success"), data: review },
        Err(_) => ApiResponse {
            status: String::from_str("error"),
            data: Review {
                id: 0,
                title: String::from_str("Failed"),
                body: String::from_str(""),
                user_id: 0,
                supplement_id: 0,
                rating: 0,
            },
        },
    }
}

/// Wraps the outcome of a listing: the records under `"success"`, or an
/// empty listing under `"error"`.
pub fn list_response<T>(outcome: Result<Vec<T>, DataError>) -> (r: ApiResponse<Vec<T>>)
    ensures
        outcome matches Ok(v) ==> r.status@ == "success"@ && r.data@ == v@,
        outcome is Err ==> r.status@ == "error"@ && r.data@.len() == 0,
{
    match outcome {
        Ok(records) => ApiResponse { status: String::from_str("success"), data: records },
        Err(_) => ApiResponse { status: String::from_str("error"), data: Vec::new() },
    }
}

/// The text of a `u128` written as a hyphenated UUID.
pub uninterp spec fn uuid_text(id: u128) -> Seq<char>;

/// Relies on `uuid::Uuid`'s text form: hyphenated lowercase hexadecimal, a
/// function of the 128-bit value alone, 36 characters long.
#[verifier::external_body]
fn uuid_string(id: u128) -> (r: String)
    ensures
        r@ == uuid_text(id),
        r@.len() == 36,
{
    uuid::Uuid::from_u128(id).to_string()
}

/// The confirmation reported for a user deletion: the words
/// "Deleted user " followed by the identifier in its UUID text form.
pub fn deletion_confirmation(user_id: u128) -> (r: String)
    ensures
        r@ == "Deleted user "@ + uuid_text(user_id),
{
    let mut message = String::from_str("Deleted user ");
    let text = uuid_string(user_id);
    message.append(text.as_str());
    message
}

/// The error envelope answering a user create whose body did not decode.
pub fn malformed_user_response() -> (r: ApiResponse<User>)
    ensures
        r.status@ == "error"@,
        r.data@ == failed_user(),
{
    ApiResponse {
        status: String::from_str("error"),
        data: User { id: 0, name: String::from_str("Failed") },
    }
}

/// The error envelope answering a supplement create whose body did not
/// decode.
pub fn malformed_supplement_response() -> (r: ApiResponse<Supplement>)
    ensures
        r.status@ == "error"@,
        r.data@ == failed_supplement(),
{
    ApiResponse {
        status: String::from_str("error"),
        data: Supplement {
            id: 0,
            name: String::from_str("Failed"),
            store_link: None,
            image_url: None,
        },
    }
}

/// The error envelope answering a follow create whose body did not decode.
pub fn malformed_follow_response() -> (r: ApiResponse<Follow>)
    ensures
        r.status@ == "error"@,
        r.data@ == failed_follow(),
{
    ApiResponse {
        status: String::from_str("error"),
        data: Follow { following_user: 0, followed_user: 0 },
    }
}

/// The error envelope answering a review create whose body did not decode.
pub fn malformed_review_response() -> (r: ApiResponse<Review>)
    ensures
        r.status@ == "error"@,
        r.data@ == failed_review(),
{
    ApiResponse {
        status: String::from_str("error"),
        data: Review {
            id: 0,
            title: String::from_str("Failed"),
            body: String::from_str(""),
            user_id: 0,
            supplement_id: 0,
            rating: 0,
        },
    }
}

/// Answers a user create request: a missing or malformed body is answered
/// with the error envelope and changes nothing; a decoded body is handed to
/// the persistence layer, and the outcome is wrapped.
pub fn create_user_handler(store: &mut Store, payload: Option<CreateUserRequest>) -> (r:
    ApiResponse<User>)
    requires
        old(store).wf(),
    ensures
        final(store).wf(),
        final(store)@.supplements == old(store)@.supplements,
        final(store)@.follows == old(store)@.follows,
        final(store)@.reviews == old(store)@.reviews,
        payload is None ==> final(store)@.users == old(store)@.users && r.status@ == "error"@
            && r.data@ == failed_user(),
        payload is Some && old(store)@.users.len() == 0 ==> r.status@ == "success"@,
        payload matches Some(p) ==> (r.status@ == "success"@ && r.data@.name == p.name@
            && r.data@.id != 0 && !has_user_id(old(store)@.users, r.data@.id)
            && final(store)@.users == old(store)@.users.push(r.data@)) || (r.status@ == "error"@
            && r.data@ == failed_user() && final(store)@.users == old(store)@.users),
{
    match payload {
        None => malformed_user_response(),
        Some(p) => user_create_response(create_user(store, p.name)),
    }
}

/// Answers a user listing request: the stored users under `"success"`.
pub fn get_users_handler(store: &Store) -> (r: ApiResponse<Vec<User>>)
    ensures
        r.status@ == "success"@,
        users_view(r.data@) == store@.users,
{
    list_response(get_users(store))
}

/// Answers a user delete request: every row carrying the identifier is
/// removed, and the confirmation names the identifier. An identifier with
/// no matching row is still answered with `"success"`: deletion is
/// idempotent, and absence is not an error.
pub fn delete_user_handler(store: &mut Store, user_id: u128) -> (r: ApiResponse<String>)
    requires
        old(store).wf(),
    ensures
        final(store).wf(),
        final(store)@.users == users_without(old(store)@.users, user_id),
        final(store)@.supplements == old(store)@.supplements,
        final(store)@.follows == old(store)@.follows,
        final(store)@.reviews == old(store)@.reviews,
        r.status@ == "success"@,
        r.data@ == "Deleted user "@ + uuid_text(user_id),
{
    match delete_user(store, user_id) {
        Ok(_) => ApiResponse {
            status: String::from_str("success"),
            data: deletion_confirmation(user_id),
        },
        Err(_) => ApiResponse {
            status: String::from_str("error"),
            data: String::from_str("Failed to delete user"),
        },
    }
}

/// Answers a supplement create request: a missing or malformed body is
/// answered with the error envelope and changes nothing; a decoded body is
/// handed to the persistence layer, and the outcome is wrapped.
pub fn create_supplement_handler(store: &mut Store, payload: Option<CreateSupplementRequest>) -> (r:
    ApiResponse<Supplement>)
    requires
        old(store).wf(),
    ensures
        final(store).wf(),
        final(store)@.users == old(store)@.users,
        final(store)@.follows == old(store)@.follows,
        final(store)@.reviews == old(store)@.reviews,
        payload is None ==> final(store)@.supplements == old(store)@.supplements && r.status@
            == "error"@ && r.data@ == failed_supplement(),
        payload matches Some(p) ==> old(store)@.supplements.len() < i32::MAX ==> r.status@
            == "success"@ && r.data@ == (SupplementV {
            id: (old(store)@.supplements.len() + 1) as i32,
            name: p.name@,
            store_link: opt_text_view(p.store_link),
            image_url: opt_text_view(p.image_url),
        }) && final(store)@.supplements == old(store)@.supplements.push(r.data@),
        payload is Some && old(store)@.supplements.len() >= i32::MAX ==> r.status@ == "error"@
            && r.data@ == failed_supplement() && final(store)@.supplements == old(store)@.supplements,
{
    match payload {
        None => malformed_supplement_response(),
        Some(p) => supplement_create_response(
            create_supplement(store, p.name, p.store_link, p.image_url),
        ),
    }
}

/// Answers a supplement listing request: the stored supplements under
/// `"success"`.
pub fn get_supplements_handler(store: &Store) -> (r: ApiResponse<Vec<Supplement>>)
    ensures
        r.status@ == "success"@,
        supplements_view(r.data@) == store@.supplements,
{
    list_response(get_supplements(store))
}

/// Answers a follow create request: a missing or malformed body is answered
/// with the error envelope and changes nothing; a decoded body is stored as
/// given — any two identifiers are accepted.
pub fn create_follow_handler(store: &mut Store, payload: Option<CreateFollowRequest>) -> (r:
    ApiResponse<Follow>)
    requires
        old(store).wf(),
    ensures
        final(store).wf(),
        final(store)@.users == old(store)@.users,
        final(store)@.supplements == old(store)@.supplements,
        final(store)@.reviews == old(store)@.reviews,
        payload is None ==> final(store)@.follows == old(store)@.follows && r.status@ == "error"@
            && r.data@ == failed_follow(),
        payload matches Some(p) ==> r.status@ == "success"@ && r.data@ == (FollowV {
            following_user: p.following_user,
            followed_user: p.followed_user,
        }) && final(store)@.follows == old(store)@.follows.push(r.data@),
{
    match payload {
        None => malformed_follow_response(),
        Some(p) => follow_create_response(
            create_follow(store, p.following_user, p.followed_user),
        ),
    }
}

/// Answers a follow listing request: the stored follows under `"success"`.
pub fn get_follows_handler(store: &Store) -> (r: ApiResponse<Vec<Follow>>)
    ensures
        r.status@ == "success"@,
        follows_view(r.data@) == store@.follows,
{
    list_response(get_follows(store))
}

/// Answers a review create request: a missing or malformed body is answered
/// with the error envelope and changes nothing; a decoded body is stored as
/// given — the referenced identifiers and the rating are not checked.
pub fn create_review_handler(store: &mut Store, payload: Option<CreateReviewRequest>) -> (r:
    ApiResponse<Review>)
    requires
        old(store).wf(),
    ensures
        final(store).wf(),
        final(store)@.users == old(store)@.users,
        final(store)@.supplements == old(store)@.supplements,
        final(store)@.follows == old(store)@.follows,
        payload is None ==> final(store)@.reviews == old(store)@.reviews && r.status@ == "error"@
            && r.data@ == failed_review(),
        payload matches Some(p) ==> old(store)@.reviews.len() < i32::MAX ==> r.status@
            == "success"@ && r.data@ == (ReviewV {
            id: (old(store)@.reviews.len() + 1) as i32,
            title: p.title@,
            body: p.body@,
            user_id: p.user_id,
            supplement_id: p.supplement_id,
            rating: p.rating,
        }) && final(store)@.reviews == old(store)@.reviews.push(r.data@),
        payload is Some && old(store)@.reviews.len() >= i32::MAX ==> r.status@ == "error"@
            && r.data@ == failed_review() && final(store)@.reviews == old(store)@.reviews,
{
    match payload {
        None => malformed_review_response(),
        Some(p) => review_create_response(
            create_review(store, p.title, p.body, p.user_id, p.supplement_id, p.rating),
        ),
    }
}

} // verus!
