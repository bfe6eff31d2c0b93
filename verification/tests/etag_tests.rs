use fullstack_backend::appstate::users_etag;
use fullstack_backend::entity_tag::EntityTag;
use fullstack_backend::json::users_json;
use fullstack_backend::model::User;

fn user(id: &str, name: &str, phone: &str) -> User {
    User { id: id.to_string(), name: name.to_string(), phone: phone.to_string() }
}

#[test]
fn header_forms() {
    assert_eq!(EntityTag::strong("abc").to_string(), "\"abc\"");
    assert_eq!(EntityTag::weak("abc").to_string(), "W/\"abc\"");
    assert_eq!(EntityTag::new(false, "").to_string(), "\"\"");
    assert_eq!(EntityTag::new(true, "x").tag(), "x");
    assert!(EntityTag::weak("x").is_weak());
    assert!(!EntityTag::strong("x").is_weak());
}

#[test]
fn users_etag_is_etag_crate_tag_of_json() {
    let users = vec![user("1232", "TEST USER", "999-999-9999")];
    let text = users_json(&users);
    let expected = etag::EntityTag::from_data(text.as_bytes());
    let t = users_etag(&users);
    assert!(!t.is_weak());
    assert_eq!(t.tag(), expected.tag());
    assert_eq!(t.to_string(), expected.to_string());
}

#[test]
fn users_etag_format_is_length_dash_hash() {
    let users = vec![user("1", "A", "11")];
    let text = users_json(&users);
    let t = users_etag(&users);
    let (len, hash) = t.tag().split_once('-').unwrap();
    assert_eq!(len, text.len().to_string());
    assert!(hash.chars().all(|c| c.is_ascii_digit()));
    assert!(!hash.is_empty());
    let empty = users_etag(&Vec::new());
    assert!(empty.tag().starts_with("0-"));
}

#[test]
fn different_lengths_give_different_tags() {
    let a = users_etag(&vec![user("1", "A", "11")]);
    let b = users_etag(&vec![user("1", "AB", "11")]);
    assert_ne!(a.tag(), b.tag());
}

#[test]
fn same_list_same_tag() {
    let a = users_etag(&vec![user("1", "A", "11"), user("2", "B", "22")]);
    let b = users_etag(&vec![user("1", "A", "11"), user("2", "B", "22")]);
    assert_eq!(a.tag(), b.tag());
    let c = users_etag(&vec![user("2", "B", "22"), user("1", "A", "11")]);
    assert_ne!(a.tag(), c.tag());
}

#[test]
fn computed_tags_fit_the_buffer() {
    let many: Vec<User> = (0..500)
        .map(|i| user(&i.to_string(), "a rather long name for this user", "+1 555 0100"))
        .collect();
    let t = users_etag(&many);
    assert!(t.tag().len() <= 62);
    assert!(t.tag().is_ascii());
}
