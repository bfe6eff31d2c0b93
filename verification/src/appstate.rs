//! The state that the handlers share: whether the user table changed since the entity
//! tag was last computed, and that tag.
use vstd::prelude::*;
use crate::entity_tag::{data_tag, lemma_data_tags_differ_by_length, EntityTag, EntityTagView};
use crate::json::{user_json_text, users_json, users_json_text};
use crate::model::User;

verus! {

/// The shared state of the handlers.
pub struct AppState {
    /// Set when the user table changed since `etag` was computed.
    pub is_modified: bool,
    /// The entity tag of the user list as last computed.
    pub etag: EntityTag,
}

/// What the shared state stands for.
pub struct AppStateView {
    pub is_modified: bool,
    pub etag: EntityTagView,
}

impl View for AppState {
    type V = AppStateView;

    open spec fn view(&self) -> AppStateView {
        AppStateView { is_modified: self.is_modified, etag: self.etag@ }
    }
}

/// The bytes from which the entity tag of a user list is computed: the UTF-8 encoding
/// of the users' JSON texts, joined.
pub open spec fn users_payload(users: Seq<User>) -> Seq<u8> {
    vstd::utf8::encode_utf8(users_json_text(users))
}

/// The entity tag of a user list.
pub open spec fn users_tag(users: Seq<User>) -> EntityTagView {
    data_tag(users_payload(users))
}

/// The state after the list `users` was read: a changed table gets the tag of `users`
/// and is no longer marked changed; otherwise nothing moves.
pub open spec fn refreshed(s: AppStateView, users: Seq<User>) -> AppStateView {
    if s.is_modified {
        AppStateView { is_modified: false, etag: users_tag(users) }
    } else {
        s
    }
}

/// The state after the table changed: marked changed, the old tag kept until the next
/// read.
pub open spec fn touched(s: AppStateView) -> AppStateView {
    AppStateView { is_modified: true, etag: s.etag }
}

/// Computes the entity tag of a user list.
pub fn users_etag(users: &Vec<User>) -> (t: EntityTag)
    ensures
        t@ == users_tag(users@),
{
    let joined = users_json(users);
    EntityTag::from_data(joined.as_str().as_bytes())
}

/// The UTF-8 encoding of two texts one after the other is the encoding of the first
/// followed by that of the second, and each character takes at least one byte.
proof fn lemma_encode_concat(a: Seq<char>, b: Seq<char>)
    ensures
        vstd::utf8::encode_utf8(a + b) == vstd::utf8::encode_utf8(a) + vstd::utf8::encode_utf8(b),
        vstd::utf8::encode_utf8(b).len() >= b.len(),
    decreases a.len() + b.len(),
{
    if a.len() > 0 {
        assert((a + b).drop_first() =~= a.drop_first() + b);
        assert((a + b)[0] == a[0]);
        lemma_encode_concat(a.drop_first(), b);
    } else {
        assert(a + b =~= b);
        if b.len() > 0 {
            lemma_encode_concat(a, b.drop_first());
        }
    }
}

/// Adding a user to a list always changes the list's entity tag: the JSON of the
/// longer list has more bytes, and the tag begins with the byte count.
pub proof fn lemma_added_user_changes_tag(users: Seq<User>, u: User)
    ensures
        users_tag(users.push(u)).tag != users_tag(users).tag,
{
    assert(users.push(u).drop_last() =~= users);
    let before = users_json_text(users);
    let one = user_json_text(u);
    assert(users_json_text(users.push(u)) == before + one);
    reveal_strlit("{\"id\":");
    assert(one.len() >= 1);
    lemma_encode_concat(before, one);
    lemma_data_tags_differ_by_length(users_payload(users.push(u)), users_payload(users));
}

impl AppState {
    /// Brings the tag up to date with the list `users` that was just read, if the table
    /// changed since it was computed.
    pub fn refresh(&mut self, users: &Vec<User>)
        ensures
            final(self)@ == refreshed(old(self)@, users@),
    {
        if self.is_modified {
            self.etag = users_etag(users);
            self.is_modified = false;
        }
    }

    /// Records that the user table changed.
    pub fn mark_modified(&mut self)
        ensures
            final(self)@ == touched(old(self)@),
    {
        self.is_modified = true;
    }
}

} // verus!
