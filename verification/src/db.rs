//! The persistence layer: typed create/list/delete operations per entity,
//! modelled against an in-memory store with a mathematical view.
//!
//! User identifiers are the 128 bits of a generated UUID; supplement and
//! review identifiers are auto-assigned, counting up from 1 in insertion
//! order, as a serial column does.

use vstd::prelude::*;

verus! {

/// A user record: a generated identifier and a name.
#[derive(Debug)]
pub struct User {
    pub id: u128,
    pub name: String,
}

/// The mathematical value of a [`User`].
pub ghost struct UserV {
    pub id: u128,
    pub name: Seq<char>,
}

impl View for User {
    type V = UserV;

    open spec fn view(&self) -> UserV {
        UserV { id: self.id, name: self.name@ }
    }
}

/// The errors a persistence operation can report.
#[derive(Debug, PartialEq, Eq, Structural, Clone, Copy)]
pub enum DataError {
    ConstraintViolation,
    ConnectionFailure,
    NotFound,
}

/// The view of a sequence of user records.
pub open spec fn users_view(s: Seq<User>) -> Seq<UserV> {
    s.map_values(|u: User| u@)
}

/// Whether some record in `users` carries the identifier `id`.
pub open spec fn has_user_id(users: Seq<UserV>, id: u128) -> bool {
    exists|i: int| 0 <= i < users.len() && #[trigger] users[i].id == id
}

/// Whether the identifiers in `users` are pairwise distinct.
pub open spec fn unique_user_ids(users: Seq<UserV>) -> bool {
    forall|i: int, j: int|
        #![trigger users[i].id, users[j].id]
        0 <= i < j < users.len() ==> users[i].id != users[j].id
}

/// The store, holding every record of each entity.
///
/// The real datastore is relational; this store is its model: one table per
/// entity, with the same invariants the tables' constraints give.
pub struct Store {
    users: Vec<User>,
    supplements: Vec<Supplement>,
    follows: Vec<Follow>,
    reviews: Vec<Review>,
}

/// The mathematical value of a [`Store`]: one sequence per entity.
pub ghost struct StoreV {
    pub users: Seq<UserV>,
    pub supplements: Seq<SupplementV>,
    pub follows: Seq<FollowV>,
    pub reviews: Seq<ReviewV>,
}

/// A supplement record.
#[derive(Debug)]
pub struct Supplement {
    pub id: i32,
    pub name: String,
    pub store_link: Option<String>,
    pub image_url: Option<String>,
}

/// The mathematical value of a [`Supplement`].
pub ghost struct SupplementV {
    pub id: i32,
    pub name: Seq<char>,
    pub store_link: Option<Seq<char>>,
    pub image_url: Option<Seq<char>>,
}

/// The view of an optional text field: present or absent, content by value.
pub open spec fn opt_text_view(o: Option<String>) -> Option<Seq<char>> {
    match o {
        Some(s) => Some(s@),
        None => None,
    }
}

impl View for Supplement {
    type V = SupplementV;

    open spec fn view(&self) -> SupplementV {
        SupplementV {
            id: self.id,
            name: self.name@,
            store_link: opt_text_view(self.store_link),
            image_url: opt_text_view(self.image_url),
        }
    }
}

/// The view of a sequence of supplement records.
pub open spec fn supplements_view(s: Seq<Supplement>) -> Seq<SupplementV> {
    s.map_values(|x: Supplement| x@)
}

/// A directed follow relationship between two user identifiers.
#[derive(Debug, Clone, Copy)]
pub struct Follow {
    pub following_user: u128,
    pub followed_user: u128,
}

/// The mathematical value of a [`Follow`].
pub ghost struct FollowV {
    pub following_user: u128,
    pub followed_user: u128,
}

impl View for Follow {
    type V = FollowV;

    open spec fn view(&self) -> FollowV {
        FollowV { following_user: self.following_user, followed_user: self.followed_user }
    }
}

/// The view of a sequence of follow records.
pub open spec fn follows_view(s: Seq<Follow>) -> Seq<FollowV> {
    s.map_values(|x: Follow| x@)
}

/// A review record.
#[derive(Debug)]
pub struct Review {
    pub id: i32,
    pub title: String,
    pub body: String,
    pub user_id: u128,
    pub supplement_id: i32,
    pub rating: i32,
}

/// The mathematical value of a [`Review`].
pub ghost struct ReviewV {
    pub id: i32,
    pub title: Seq<char>,
    pub body: Seq<char>,
    pub user_id: u128,
    pub supplement_id: i32,
    pub rating: i32,
}

impl View for Review {
    type V = ReviewV;

    open spec fn view(&self) -> ReviewV {
        ReviewV {
            id: self.id,
            title: self.title@,
            body: self.body@,
            user_id: self.user_id,
            supplement_id: self.supplement_id,
            rating: self.rating,
        }
    }
}

/// The view of a sequence of review records.
pub open spec fn reviews_view(s: Seq<Review>) -> Seq<ReviewV> {
    s.map_values(|x: Review| x@)
}

impl View for Store {
    type V = StoreV;

    closed spec fn view(&self) -> StoreV {
        StoreV {
            users: users_view(self.users@),
            supplements: supplements_view(self.supplements@),
            follows: follows_view(self.follows@),
            reviews: reviews_view(self.reviews@),
        }
    }
}

impl Store {
    /// Well-formedness: user identifiers are unique, and supplement and
    /// review identifiers count up from 1 in insertion order.
    pub open spec fn wf(&self) -> bool {
        &&& unique_user_ids(self@.users)
        &&& forall|i: int|
            0 <= i < self@.supplements.len() ==> #[trigger] self@.supplements[i].id == i + 1
        &&& forall|i: int| 0 <= i < self@.reviews.len() ==> #[trigger] self@.reviews[i].id == i + 1
    }

    /// An empty store: no record of any entity.
    pub fn new() -> (r: Store)
        ensures
            r.wf(),
            r@.users.len() == 0,
            r@.supplements.len() == 0,
            r@.follows.len() == 0,
            r@.reviews.len() == 0,
    {
        Store { users: Vec::new(), supplements: Vec::new(), follows: Vec::new(), reviews: Vec::new() }
    }
}

/// Relies on `uuid::Uuid::new_v4`, which draws a fresh random version-4 UUID:
/// its value depends on the random generator, so nothing is promised of it
/// except that it is non-nil, since `new_v4` always sets the version and
/// variant bits.
#[verifier::external_body]
fn new_uuid() -> (r: u128)
    ensures
        r != 0,
{
    uuid::Uuid::new_v4().as_u128()
}

/// Whether some stored user carries the identifier `id`.
fn user_id_exists(store: &Store, id: u128) -> (r: bool)
    ensures
        r == has_user_id(store@.users, id),
{
    let n = store.users.len();
    let mut i: usize = 0;
    while i < n
        invariant
            n == store.users.len(),
            0 <= i <= n,
            forall|j: int| 0 <= j < i ==> #[trigger] store@.users[j].id != id,
        decreases n - i,
    {
        if store.users[i].id == id {
            assert(store@.users[i as int].id == id);
            return true;
        }
        i += 1;
    }
    false
}

/// Inserts a user under a caller-supplied identifier: the row is stored and
/// returned exactly when no stored user already carries that identifier;
/// a duplicate identifier is a constraint violation and changes nothing.
pub fn create_user_with_id(store: &mut Store, id: u128, name: String) -> (r: Result<
    User,
    DataError,
>)
    requires
        old(store).wf(),
    ensures
        final(store).wf(),
        final(store)@.supplements == old(store)@.supplements,
        final(store)@.follows == old(store)@.follows,
        final(store)@.reviews == old(store)@.reviews,
        r is Ok <==> !has_user_id(old(store)@.users, id),
        r matches Ok(u) ==> u@ == (UserV { id: id, name: name@ })
            && final(store)@.users == old(store)@.users.push(u@),
        r matches Err(e) ==> e == DataError::ConstraintViolation
            && final(store)@.users == old(store)@.users,
{
    if user_id_exists(store, id) {
        return Err(DataError::ConstraintViolation);
    }
    let stored = User { id, name: name.clone() };
    store.users.push(stored);
    let returned = User { id, name };
    proof {
        let post = store@.users;
        let pre = old(store)@.users;
        assert(post =~= pre.push(returned@));
        assert forall|i: int, j: int|
            #![trigger post[i].id, post[j].id]
            0 <= i < j < post.len() implies post[i].id != post[j].id by {
            if j == post.len() - 1 {
                assert(pre[i].id != id);
            }
        }
        assert(store@.supplements =~= old(store)@.supplements);
        assert(store@.follows =~= old(store)@.follows);
        assert(store@.reviews =~= old(store)@.reviews);
    }
    Ok(returned)
}

/// Returns all stored users, in store order. Listing always succeeds.
pub fn get_users(store: &Store) -> (r: Result<Vec<User>, DataError>)
    ensures
        r is Ok,
        r matches Ok(us) ==> users_view(us@) == store@.users,
{
    let n = store.users.len();
    let mut out: Vec<User> = Vec::new();
    let mut i: usize = 0;
    while i < n
        invariant
            n == store.users.len(),
            0 <= i <= n,
            out@.len() == i,
            forall|j: int| 0 <= j < i ==> #[trigger] out@[j]@ == store@.users[j],
        decreases n - i,
    {
        let u = &store.users[i];
        out.push(User { id: u.id, name: u.name.clone() });
        i += 1;
    }
    proof {
        assert(users_view(out@) =~= store@.users);
    }
    Ok(out)
}

/// The users that remain when every record carrying `id` is removed, in
/// their stored order.
pub open spec fn users_without(users: Seq<UserV>, id: u128) -> Seq<UserV> {
    users.filter(|u: UserV| u.id != id)
}

/// Removal never invents a record: an identifier found after removing `id`
/// was already stored, distinct identifiers stay pairwise distinct, and no
/// record carrying `id` remains.
pub proof fn lemma_users_without_ids(users: Seq<UserV>, id: u128)
    ensures
        forall|x: u128| #[trigger] has_user_id(users_without(users, id), x) ==> has_user_id(
            users,
            x,
        ),
        unique_user_ids(users) ==> unique_user_ids(users_without(users, id)),
        !has_user_id(users_without(users, id), id),
    decreases users.len(),
{
    reveal(Seq::filter);
    let f = users_without(users, id);
    if users.len() == 0 {
        assert(f.len() == 0);
    } else {
        let dl = users.drop_last();
        let lst = users.last();
        lemma_users_without_ids(dl, id);
        let fdl = users_without(dl, id);
        assert forall|x: u128| #[trigger] has_user_id(fdl, x) implies has_user_id(users, x) by {
            let i = choose|i: int| 0 <= i < dl.len() && #[trigger] dl[i].id == x;
            if has_user_id(dl, x) {
                assert(users[i].id == x);
            }
        }
        assert forall|x: u128| #[trigger] has_user_id(f, x) implies has_user_id(users, x) by {
            let i = choose|i: int| 0 <= i < f.len() && #[trigger] f[i].id == x;
            if lst.id != id && i == f.len() - 1 {
                assert(users[users.len() - 1].id == x);
            } else {
                assert(has_user_id(fdl, x));
            }
        }
        if unique_user_ids(users) {
            assert forall|i: int, j: int|
                #![trigger dl[i].id, dl[j].id]
                0 <= i < j < dl.len() implies dl[i].id != dl[j].id by {
                assert(users[i].id != users[j].id);
            }
            assert(unique_user_ids(fdl));
            if lst.id != id {
                assert(!has_user_id(dl, lst.id)) by {
                    if has_user_id(dl, lst.id) {
                        let i = choose|i: int|
                            0 <= i < dl.len() && #[trigger] dl[i].id == lst.id;
                        assert(users[i].id == users[users.len() - 1].id);
                    }
                }
                assert(!has_user_id(fdl, lst.id));
                assert forall|i: int, j: int|
                    #![trigger f[i].id, f[j].id]
                    0 <= i < j < f.len() implies f[i].id != f[j].id by {
                    if j == f.len() - 1 {
                        assert(fdl[i].id == f[i].id);
                        if f[i].id == lst.id {
                            assert(has_user_id(fdl, lst.id));
                        }
                    } else {
                        assert(fdl[i].id == f[i].id && fdl[j].id == f[j].id);
                    }
                }
            }
        }
        if has_user_id(f, id) {
            let i = choose|i: int| 0 <= i < f.len() && #[trigger] f[i].id == id;
            if lst.id != id && i == f.len() - 1 {
                assert(lst.id == id);
            } else {
                assert(has_user_id(fdl, id));
            }
        }
    }
}

/// Deleting an identifier that no stored user carries changes nothing:
/// together with `delete_user`'s success clause, deletion is idempotent and
/// an absent row is no error.
pub proof fn lemma_delete_absent_is_noop(users: Seq<UserV>, id: u128)
    requires
        !has_user_id(users, id),
    ensures
        users_without(users, id) == users,
    decreases users.len(),
{
    reveal(Seq::filter);
    if users.len() == 0 {
        assert(users_without(users, id) =~= users);
    } else {
        let dl = users.drop_last();
        let lst = users.last();
        assert(!has_user_id(dl, id)) by {
            if has_user_id(dl, id) {
                let i = choose|i: int| 0 <= i < dl.len() && #[trigger] dl[i].id == id;
                assert(users[i].id == id);
            }
        }
        lemma_delete_absent_is_noop(dl, id);
        assert(lst.id != id) by {
            if lst.id == id {
                assert(users[users.len() - 1].id == id);
            }
        }
        assert(users_without(users, id) =~= users);
    }
}

/// Deletes every user row carrying `user_id`, keeping the others in order.
/// Deletion always succeeds; an identifier with no matching row is not an
/// error, the store is simply left as it was.
pub fn delete_user(store: &mut Store, user_id: u128) -> (r: Result<(), DataError>)
    requires
        old(store).wf(),
    ensures
        final(store).wf(),
        r is Ok,
        final(store)@.users == users_without(old(store)@.users, user_id),
        final(store)@.supplements == old(store)@.supplements,
        final(store)@.follows == old(store)@.follows,
        final(store)@.reviews == old(store)@.reviews,
{
    let n = store.users.len();
    let mut kept: Vec<User> = Vec::new();
    let mut i: usize = 0;
    proof {
        reveal(Seq::filter);
        assert(store@.users.take(0) =~= Seq::<UserV>::empty());
        assert(users_view(kept@) =~= users_without(store@.users.take(0), user_id));
    }
    while i < n
        invariant
            *store == *old(store),
            n == store.users.len(),
            0 <= i <= n,
            users_view(kept@) == users_without(store@.users.take(i as int), user_id),
        decreases n - i,
    {
        let u = &store.users[i];
        let ghost prefix = store@.users.take(i as int);
        let ghost t = store@.users.take(i + 1);
        if u.id != user_id {
            kept.push(User { id: u.id, name: u.name.clone() });
        }
        proof {
            reveal(Seq::filter);
            assert(t.drop_last() =~= prefix);
            assert(t.last() == store@.users[i as int]);
            assert(users_view(kept@) =~= users_without(t, user_id));
        }
        i += 1;
    }
    proof {
        assert(store@.users.take(n as int) =~= store@.users);
    }
    store.users = kept;
    proof {
        lemma_users_without_ids(old(store)@.users, user_id);
        assert(store@.supplements =~= old(store)@.supplements);
        assert(store@.follows =~= old(store)@.follows);
        assert(store@.reviews =~= old(store)@.reviews);
    }
    Ok(())
}

/// Creates a user: a fresh identifier is generated, the row (id, name) is
/// inserted, and the stored record is returned. Insertion succeeds exactly
/// when the generated identifier does not collide with a stored one; on a
/// collision the constraint violation is reported and the store is unchanged.
/// The generated identifier is never nil, so a failure can only come from a
/// collision with a stored non-nil identifier: against an empty user table
/// creation always succeeds.
pub fn create_user(store: &mut Store, name: String) -> (r: Result<User, DataError>)
    requires
        old(store).wf(),
    ensures
        final(store).wf(),
        final(store)@.supplements == old(store)@.supplements,
        final(store)@.follows == old(store)@.follows,
        final(store)@.reviews == old(store)@.reviews,
        old(store)@.users.len() == 0 ==> r is Ok,
        r is Err ==> exists|i: int|
            0 <= i < old(store)@.users.len() && #[trigger] old(store)@.users[i].id != 0,
        r matches Ok(u) ==> u@.name == name@ && u@.id != 0
            && !has_user_id(old(store)@.users, u@.id)
            && final(store)@.users == old(store)@.users.push(u@),
        r matches Err(e) ==> e == DataError::ConstraintViolation
            && final(store)@.users == old(store)@.users,
{
    let id = new_uuid();
    let r = create_user_with_id(store, id, name);
    proof {
        if r is Err {
            let i = choose|i: int|
                0 <= i < old(store)@.users.len() && #[trigger] old(store)@.users[i].id == id;
            assert(old(store)@.users[i].id != 0);
        }
    }
    r
}

/// A copy of an optional text field, content preserved.
fn clone_opt_text(o: &Option<String>) -> (r: Option<String>)
    ensures
        opt_text_view(r) == opt_text_view(*o),
{
    match o {
        Some(s) => Some(s.clone()),
        None => None,
    }
}

/// Creates a supplement: the identifier is store-assigned, counting up from
/// 1, and the optional fields pass through as given, absent or present.
/// Creation succeeds exactly while another identifier can be assigned; once
/// the identifier space is exhausted the constraint violation is reported
/// and the store is unchanged.
pub fn create_supplement(
    store: &mut Store,
    name: String,
    store_link: Option<String>,
    image_url: Option<String>,
) -> (r: Result<Supplement, DataError>)
    requires
        old(store).wf(),
    ensures
        final(store).wf(),
        final(store)@.users == old(store)@.users,
        final(store)@.follows == old(store)@.follows,
        final(store)@.reviews == old(store)@.reviews,
        r is Ok <==> old(store)@.supplements.len() < i32::MAX,
        r matches Ok(s) ==> s@ == (SupplementV {
            id: (old(store)@.supplements.len() + 1) as i32,
            name: name@,
            store_link: opt_text_view(store_link),
            image_url: opt_text_view(image_url),
        }) && final(store)@.supplements == old(store)@.supplements.push(s@),
        r matches Err(e) ==> e == DataError::ConstraintViolation
            && final(store)@.supplements == old(store)@.supplements,
{
    let n = store.supplements.len();
    if n >= (i32::MAX as usize) {
        return Err(DataError::ConstraintViolation);
    }
    let id: i32 = (n as i32) + 1;
    let stored = Supplement {
        id,
        name: name.clone(),
        store_link: clone_opt_text(&store_link),
        image_url: clone_opt_text(&image_url),
    };
    store.supplements.push(stored);
    let returned = Supplement { id, name, store_link, image_url };
    proof {
        assert(store@.supplements =~= old(store)@.supplements.push(returned@));
        assert(store@.users =~= old(store)@.users);
        assert(store@.follows =~= old(store)@.follows);
        assert(store@.reviews =~= old(store)@.reviews);
    }
    Ok(returned)
}

/// Returns all stored supplements, in store order. Listing always succeeds.
pub fn get_supplements(store: &Store) -> (r: Result<Vec<Supplement>, DataError>)
    ensures
        r is Ok,
        r matches Ok(ss) ==> supplements_view(ss@) == store@.supplements,
{
    let n = store.supplements.len();
    let mut out: Vec<Supplement> = Vec::new();
    let mut i: usize = 0;
    while i < n
        invariant
            n == store.supplements.len(),
            0 <= i <= n,
            out@.len() == i,
            forall|j: int| 0 <= j < i ==> #[trigger] out@[j]@ == store@.supplements[j],
        decreases n - i,
    {
        let s = &store.supplements[i];
        out.push(
            Supplement {
                id: s.id,
                name: s.name.clone(),
                store_link: clone_opt_text(&s.store_link),
                image_url: clone_opt_text(&s.image_url),
            },
        );
        i += 1;
    }
    proof {
        assert(supplements_view(out@) =~= store@.supplements);
    }
    Ok(out)
}

/// Creates a follow: the two identifiers are accepted exactly as given,
/// with no self-follow or duplicate check, and the stored pair is returned.
/// Creation always succeeds.
pub fn create_follow(store: &mut Store, following_user: u128, followed_user: u128) -> (r: Result<
    Follow,
    DataError,
>)
    requires
        old(store).wf(),
    ensures
        final(store).wf(),
        final(store)@.users == old(store)@.users,
        final(store)@.supplements == old(store)@.supplements,
        final(store)@.reviews == old(store)@.reviews,
        r is Ok,
        r matches Ok(f) ==> f@ == (FollowV { following_user, followed_user })
            && final(store)@.follows == old(store)@.follows.push(f@),
{
    let follow = Follow { following_user, followed_user };
    store.follows.push(follow);
    proof {
        assert(store@.follows =~= old(store)@.follows.push(follow@));
        assert(store@.users =~= old(store)@.users);
        assert(store@.supplements =~= old(store)@.supplements);
        assert(store@.reviews =~= old(store)@.reviews);
    }
    Ok(follow)
}

/// Returns all stored follows, in store order. Listing always succeeds.
pub fn get_follows(store: &Store) -> (r: Result<Vec<Follow>, DataError>)
    ensures
        r is Ok,
        r matches Ok(fs) ==> follows_view(fs@) == store@.follows,
{
    let n = store.follows.len();
    let mut out: Vec<Follow> = Vec::new();
    let mut i: usize = 0;
    while i < n
        invariant
            n == store.follows.len(),
            0 <= i <= n,
            out@.len() == i,
            forall|j: int| 0 <= j < i ==> #[trigger] out@[j]@ == store@.follows[j],
        decreases n - i,
    {
        out.push(store.follows[i]);
        i += 1;
    }
    proof {
        assert(follows_view(out@) =~= store@.follows);
    }
    Ok(out)
}

/// Creates a review: the identifier is store-assigned, counting up from 1;
/// the referenced user and supplement identifiers and the rating are
/// accepted as given, with no referential or range check. Creation succeeds
/// exactly while another identifier can be assigned; once the identifier
/// space is exhausted the constraint violation is reported and the store is
/// unchanged.
pub fn create_review(
    store: &mut Store,
    title: String,
    body: String,
    user_id: u128,
    supplement_id: i32,
    rating: i32,
) -> (r: Result<Review, DataError>)
    requires
        old(store).wf(),
    ensures
        final(store).wf(),
        final(store)@.users == old(store)@.users,
        final(store)@.supplements == old(store)@.supplements,
        final(store)@.follows == old(store)@.follows,
        r is Ok <==> old(store)@.reviews.len() < i32::MAX,
        r matches Ok(rev) ==> rev@ == (ReviewV {
            id: (old(store)@.reviews.len() + 1) as i32,
            title: title@,
            body: body@,
            user_id,
            supplement_id,
            rating,
        }) && final(store)@.reviews == old(store)@.reviews.push(rev@),
        r matches Err(e) ==> e == DataError::ConstraintViolation
            && final(store)@.reviews == old(store)@.reviews,
{
    let n = store.reviews.len();
    if n >= (i32::MAX as usize) {
        return Err(DataError::ConstraintViolation);
    }
    let id: i32 = (n as i32) + 1;
    let stored = Review {
        id,
        title: title.clone(),
        body: body.clone(),
        user_id,
        supplement_id,
        rating,
    };
    store.reviews.push(stored);
    let returned = Review { id, title, body, user_id, supplement_id, rating };
    proof {
        assert(store@.reviews =~= old(store)@.reviews.push(returned@));
        assert(store@.users =~= old(store)@.users);
        assert(store@.supplements =~= old(store)@.supplements);
        assert(store@.follows =~= old(store)@.follows);
    }
    Ok(returned)
}

/// After a create against a previously empty user table, the listing holds
/// exactly one record: the one the create returned.
pub proof fn lemma_first_user_listed(users: Seq<UserV>, created: UserV)
    requires
        users.len() == 0,
    ensures
        users.push(created).len() == 1,
        users.push(created)[0] == created,
{
}

/// Successive accepted creates hand out distinct identifiers: each accepted
/// identifier was absent from the table its insert extended, so no two
/// created records ever share one.
pub proof fn lemma_created_ids_distinct(users: Seq<UserV>, first: UserV, second: UserV)
    requires
        !has_user_id(users, first.id),
        !has_user_id(users.push(first), second.id),
    ensures
        first.id != second.id,
{
    assert(users.push(first)[users.len() as int].id == first.id);
}

/// Any run of accepted creates hands out pairwise distinct identifiers:
/// each create appends the record it returns, every operation preserves
/// well-formedness, and a well-formed user table — which is what the
/// listing returns — holds no identifier twice.
pub proof fn lemma_listed_ids_distinct(users: Seq<UserV>, i: int, j: int)
    requires
        unique_user_ids(users),
        0 <= i < users.len(),
        0 <= j < users.len(),
        i != j,
    ensures
        users[i].id != users[j].id,
{
}

/// A record returned by a create is found, unchanged on every field, by the
/// matching list: each create leaves the table as the old one with the
/// returned record's value appended, and each list returns the table as it
/// stands.
pub proof fn lemma_create_list_round_trip<T>(records: Seq<T>, created: T)
    ensures
        records.push(created).last() == created,
        records.push(created).contains(created),
{
    assert(records.push(created)[records.len() as int] == created);
}

/// Returns all stored reviews, in store order. Listing always succeeds.
pub fn get_reviews(store: &Store) -> (r: Result<Vec<Review>, DataError>)
    ensures
        r is Ok,
        r matches Ok(rs) ==> reviews_view(rs@) == store@.reviews,
{
    let n = store.reviews.len();
    let mut out: Vec<Review> = Vec::new();
    let mut i: usize = 0;
    while i < n
        invariant
            n == store.reviews.len(),
            0 <= i <= n,
            out@.len() == i,
            forall|j: int| 0 <= j < i ==> #[trigger] out@[j]@ == store@.reviews[j],
        decreases n - i,
    {
        let rv = &store.reviews[i];
        out.push(
            Review {
                id: rv.id,
                title: rv.title.clone(),
                body: rv.body.clone(),
                user_id: rv.user_id,
                supplement_id: rv.supplement_id,
                rating: rv.rating,
            },
        );
        i += 1;
    }
    proof {
        assert(reviews_view(out@) =~= store@.reviews);
    }
    Ok(out)
}

} // verus!
