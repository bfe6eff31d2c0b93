//! The decisions of the `/persons` handlers. The HTTP layer reads the request and the
//! database, hands the results here, and sends what comes back.
use vstd::prelude::*;
use crate::appstate::{refreshed, touched, users_payload, users_tag, AppState, AppStateView};
use crate::entity_tag::{header_text, lemma_data_tags_differ_by_length, EntityTagView};
use crate::model::User;

verus! {

/// The `If-None-Match` header of a request.
pub enum IfNoneMatch {
    /// The request has no such header.
    Absent,
    /// The header's value is not visible ASCII text.
    Unreadable,
    /// The header's value.
    Value(String),
}

/// The answer to a listing request.
pub enum IndexResponse {
    /// `304 Not Modified`, with no body.
    NotModified,
    /// `200 OK` with the strong entity tag `etag` and the users as a JSON body.
    Full { etag: String, users: Vec<User> },
}

/// The answer to a request that adds a user.
pub enum AddUserResponse {
    /// `200 OK` with the added user as a JSON body.
    Added(User),
    /// `500 Internal Server Error` with the message as body.
    InternalServerError(&'static str),
}

/// The answer to a request that deletes a user.
pub enum DeleteUserResponse {
    /// `200 OK`, empty.
    Deleted,
    /// `404 Not Found` with the message as body.
    NotFound(&'static str),
}

/// Whether the header names exactly the tag `t`, written as in a header.
pub open spec fn if_none_match_hits(h: IfNoneMatch, t: EntityTagView) -> bool {
    match h {
        IfNoneMatch::Value(v) => v@ == header_text(t),
        _ => false,
    }
}

/// Whether a listing request with header `h`, served on state `s` with the list `users`
/// just read, is answered `304 Not Modified`.
pub open spec fn index_not_modified(s: AppStateView, users: Seq<User>, h: IfNoneMatch) -> bool {
    if_none_match_hits(h, refreshed(s, users).etag)
}

/// Answers a listing request: brings the tag up to date with the list just read when
/// the table changed, then answers `304` when the request's `If-None-Match` header is
/// the current tag, and the list with its tag otherwise.
pub fn index(state: &mut AppState, users: Vec<User>, if_none_match: &IfNoneMatch) -> (r:
    IndexResponse)
    ensures
        final(state)@ == refreshed(old(state)@, users@),
        (r is NotModified) == index_not_modified(old(state)@, users@, *if_none_match),
        r is NotModified ==> (if_none_match matches IfNoneMatch::Value(v) && v@ == header_text(
            final(state)@.etag,
        )),
        !(if_none_match is Value) ==> r is Full,
        r matches IndexResponse::Full { etag, users: body } ==> etag@ == final(state)@.etag.tag
            && body@ == users@,
{
    state.refresh(&users);
    let current = state.etag.to_string();
    match if_none_match {
        IfNoneMatch::Value(v) => {
            if *v == current {
                return IndexResponse::NotModified;
            }
        },
        _ => {},
    }
    IndexResponse::Full { etag: String::from_str(state.etag.tag()), users }
}

/// Answers a request that adds a user, given what the database layer did with it: the
/// added user when it succeeded, and the change is recorded; the message otherwise.
pub fn add_user(state: &mut AppState, added: Result<User, &'static str>) -> (r:
    AddUserResponse)
    ensures
        match added {
            Ok(user) => {
                &&& r == AddUserResponse::Added(user)
                &&& final(state)@ == touched(old(state)@)
            },
            Err(m) => {
                &&& r == AddUserResponse::InternalServerError(m)
                &&& final(state)@ == old(state)@
            },
        },
{
    match added {
        Ok(user) => {
            state.mark_modified();
            AddUserResponse::Added(user)
        },
        Err(m) => AddUserResponse::InternalServerError(m),
    }
}

/// Answers a request that deletes a user, given what the database layer did: `200`
/// when it succeeded, and the change is recorded; `404` otherwise.
pub fn delete_user(state: &mut AppState, deleted: Result<(), &'static str>) -> (r:
    DeleteUserResponse)
    ensures
        match deleted {
            Ok(()) => {
                &&& r is Deleted
                &&& final(state)@ == touched(old(state)@)
            },
            Err(_) => {
                &&& r matches DeleteUserResponse::NotFound(body) && body@ == "No Entry Found"@
                &&& final(state)@ == old(state)@
            },
        },
{
    match deleted {
        Ok(()) => {
            state.mark_modified();
            DeleteUserResponse::Deleted
        },
        Err(_) => DeleteUserResponse::NotFound("No Entry Found"),
    }
}

/// A listing request without a readable `If-None-Match` header is never answered
/// `304 Not Modified`, whatever the state and the list read.
pub proof fn lemma_no_header_gets_full_list(s: AppStateView, users: Seq<User>)
    ensures
        !index_not_modified(s, users, IfNoneMatch::Absent),
        !index_not_modified(s, users, IfNoneMatch::Unreadable),
{
}

/// A listing is answered `304 Not Modified` only when the request's header is, character
/// for character, the header form of the tag that the listing holds afterwards.
pub proof fn lemma_not_modified_only_on_match(s: AppStateView, users: Seq<User>, h: IfNoneMatch)
    requires
        index_not_modified(s, users, h),
    ensures
        h matches IfNoneMatch::Value(v) && v@ == header_text(refreshed(s, users).etag),
{
}

/// After any change to the table, the next listing computes the tag of the list it
/// reads, and the table is no longer marked changed.
pub proof fn lemma_change_then_listing_is_fresh(s: AppStateView, users: Seq<User>)
    ensures
        refreshed(touched(s), users) == (AppStateView { is_modified: false, etag: users_tag(users) }),
{
}

/// Listing twice with the same list and the same header leaves the state as the first
/// listing left it and gives the same answer.
pub proof fn lemma_listing_is_idempotent(s: AppStateView, users: Seq<User>, h: IfNoneMatch)
    ensures
        refreshed(refreshed(s, users), users) == refreshed(s, users),
        index_not_modified(refreshed(s, users), users, h) == index_not_modified(s, users, h),
{
}

/// A client that sends back, as `If-None-Match`, the strong tag of a full listing gets
/// `304 Not Modified` from the next listing while the table has not changed. This holds
/// whenever the tag that the listing serves is strong, as every computed tag is.
pub proof fn lemma_revalidation_hits(s: AppStateView, users: Seq<User>, h: IfNoneMatch)
    requires
        !refreshed(s, users).etag.weak,
        h matches IfNoneMatch::Value(v) && v@ == header_text(
            EntityTagView { weak: false, tag: refreshed(s, users).etag.tag },
        ),
    ensures
        index_not_modified(refreshed(s, users), users, h),
{
}

/// After a change that alters the size of the users' JSON, a client that revalidates
/// with the tag of the list it last saw gets the full new list.
pub proof fn lemma_stale_tag_misses(
    s: AppStateView,
    seen: Seq<User>,
    users: Seq<User>,
    h: IfNoneMatch,
)
    requires
        users_payload(seen).len() != users_payload(users).len(),
        h matches IfNoneMatch::Value(v) && v@ == header_text(users_tag(seen)),
    ensures
        !index_not_modified(touched(s), users, h),
{
    lemma_data_tags_differ_by_length(users_payload(seen), users_payload(users));
    let t1 = users_tag(seen).tag;
    let t2 = users_tag(users).tag;
    if header_text(users_tag(seen)) == header_text(users_tag(users)) {
        assert(t1 =~= header_text(users_tag(seen)).subrange(1, t1.len() + 1 as int));
        assert(t2 =~= header_text(users_tag(users)).subrange(1, t2.len() + 1 as int));
    }
}

} // verus!
