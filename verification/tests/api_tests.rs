use fullstack_backend::api::{
    add_user, delete_user, index, AddUserResponse, DeleteUserResponse, IfNoneMatch, IndexResponse,
};
use fullstack_backend::appstate::{users_etag, AppState};
use fullstack_backend::entity_tag::EntityTag;
use fullstack_backend::json::user_json;
use fullstack_backend::db;
use fullstack_backend::model::User;
use serde_json::Value;

fn user(id: &str, name: &str, phone: &str) -> User {
    User { id: id.to_string(), name: name.to_string(), phone: phone.to_string() }
}

fn fresh_state() -> AppState {
    AppState { is_modified: true, etag: EntityTag::strong("") }
}

fn full(r: IndexResponse) -> (String, Vec<User>) {
    match r {
        IndexResponse::Full { etag, users } => (etag, users),
        IndexResponse::NotModified => panic!("expected a full answer"),
    }
}

#[test]
fn test_index_ok() {
    let mut state = AppState { is_modified: true, etag: EntityTag::new(false, "") };
    let read = vec![user("1232", "TEST USER", "999-999-9999")];
    let (_, resp) = full(index(&mut state, read, &IfNoneMatch::Absent));
    assert!(resp.len() >= 1, "No Users returned from the Database!");
    assert_eq!(resp[0].id, "1232");

    let added = user("09876-0-900", "New User", "999-999-9999");
    let inserted = db::add_user(User::add_user(added, Ok(1)));
    let add_user_resp = match add_user(&mut state, inserted) {
        AddUserResponse::Added(u) => u,
        AddUserResponse::InternalServerError(m) => panic!("{}", m),
    };
    let mut payload = serde_json::Map::new();
    payload.insert("id".to_string(), Value::String("09876-0-900".to_string()));
    payload.insert("name".to_string(), Value::String("New User".to_string()));
    payload.insert("phone".to_string(), Value::String("999-999-9999".to_string()));
    assert_eq!(user_json(&add_user_resp), Value::Object(payload).to_string());
}

#[test]
fn first_listing_computes_tag_and_clears_flag() {
    let mut state = fresh_state();
    let users = vec![user("1", "A", "11")];
    let expected = users_etag(&users);
    let (etag, body) = full(index(&mut state, users, &IfNoneMatch::Absent));
    assert_eq!(etag, expected.tag());
    assert_eq!(body.len(), 1);
    assert!(!state.is_modified);
    assert_eq!(state.etag.tag(), expected.tag());
}

#[test]
fn matching_header_gets_not_modified() {
    let mut state = fresh_state();
    let users = vec![user("1", "A", "11")];
    let (etag, _) = full(index(&mut state, users, &IfNoneMatch::Absent));
    let header = format!("\"{}\"", etag);
    let r = index(&mut state, vec![user("1", "A", "11")], &IfNoneMatch::Value(header));
    assert!(matches!(r, IndexResponse::NotModified));
}

#[test]
fn other_headers_get_full_answer() {
    let mut state = fresh_state();
    let _ = index(&mut state, vec![user("1", "A", "11")], &IfNoneMatch::Absent);
    let tag = state.etag.tag().to_string();
    for h in [
        IfNoneMatch::Absent,
        IfNoneMatch::Unreadable,
        IfNoneMatch::Value(tag.clone()),
        IfNoneMatch::Value(format!("W/\"{}\"", tag)),
        IfNoneMatch::Value("*".to_string()),
    ] {
        let (etag, body) = full(index(&mut state, vec![user("1", "A", "11")], &h));
        assert_eq!(etag, tag);
        assert_eq!(body[0].id, "1");
    }
}

#[test]
fn unchanged_table_keeps_tag_even_for_another_list() {
    let mut state = AppState { is_modified: false, etag: EntityTag::strong("fixed") };
    let (etag, _) = full(index(&mut state, vec![user("9", "Z", "99")], &IfNoneMatch::Absent));
    assert_eq!(etag, "fixed");
    assert!(!state.is_modified);
    let r = index(&mut state, vec![], &IfNoneMatch::Value("\"fixed\"".to_string()));
    assert!(matches!(r, IndexResponse::NotModified));
}

#[test]
fn weak_stored_tag_never_revalidates() {
    let mut state = AppState { is_modified: false, etag: EntityTag::weak("w") };
    let (etag, _) = full(index(&mut state, vec![], &IfNoneMatch::Absent));
    assert_eq!(etag, "w");
    let r = index(&mut state, vec![], &IfNoneMatch::Value(format!("\"{}\"", etag)));
    assert!(matches!(r, IndexResponse::Full { .. }));
    let r = index(&mut state, vec![], &IfNoneMatch::Value("W/\"w\"".to_string()));
    assert!(matches!(r, IndexResponse::NotModified));
}

#[test]
fn add_marks_change_and_next_listing_is_fresh() {
    let mut state = fresh_state();
    let (old_tag, _) = full(index(&mut state, vec![user("1", "A", "11")], &IfNoneMatch::Absent));
    match add_user(&mut state, Ok(user("2", "B", "22"))) {
        AddUserResponse::Added(u) => assert_eq!(u.id, "2"),
        AddUserResponse::InternalServerError(_) => panic!("insert succeeded"),
    }
    assert!(state.is_modified);
    assert_eq!(state.etag.tag(), old_tag);
    let now = vec![user("1", "A", "11"), user("2", "B", "22")];
    let expected = users_etag(&now);
    let r = index(&mut state, now, &IfNoneMatch::Value(format!("\"{}\"", old_tag)));
    let (etag, body) = full(r);
    assert_eq!(etag, expected.tag());
    assert_eq!(body.len(), 2);
}

#[test]
fn failed_add_changes_nothing() {
    let mut state = AppState { is_modified: false, etag: EntityTag::strong("t") };
    match add_user(&mut state, Err("Error adding user")) {
        AddUserResponse::InternalServerError(m) => assert_eq!(m, "Error adding user"),
        AddUserResponse::Added(_) => panic!("insert failed"),
    }
    assert!(!state.is_modified);
    assert_eq!(state.etag.tag(), "t");
}

#[test]
fn delete_outcomes() {
    let mut state = AppState { is_modified: false, etag: EntityTag::strong("t") };
    assert!(matches!(delete_user(&mut state, Ok(())), DeleteUserResponse::Deleted));
    assert!(state.is_modified);
    let mut state = AppState { is_modified: false, etag: EntityTag::strong("t") };
    match delete_user(&mut state, Err("Error deleting user")) {
        DeleteUserResponse::NotFound(m) => assert_eq!(m, "No Entry Found"),
        DeleteUserResponse::Deleted => panic!("delete failed"),
    }
    assert!(!state.is_modified);
    assert_eq!(state.etag.tag(), "t");
}

#[test]
fn listing_twice_is_idempotent() {
    let mut state = fresh_state();
    let h = IfNoneMatch::Value("\"nope\"".to_string());
    let (t1, _) = full(index(&mut state, vec![user("1", "A", "11")], &h));
    let (t2, _) = full(index(&mut state, vec![user("1", "A", "11")], &h));
    assert_eq!(t1, t2);
    assert!(!state.is_modified);
}

#[test]
fn stale_tag_after_growing_list_misses() {
    let mut state = fresh_state();
    let (seen, _) = full(index(&mut state, vec![user("1", "A", "11")], &IfNoneMatch::Absent));
    let _ = delete_user(&mut state, Ok(()));
    let r = index(&mut state, vec![], &IfNoneMatch::Value(format!("\"{}\"", seen)));
    let (etag, body) = full(r);
    assert_ne!(etag, seen);
    assert!(body.is_empty());
}
