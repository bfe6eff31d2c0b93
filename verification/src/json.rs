//! The JSON text of users, as the entity tag of the user list is computed from it.
//!
//! A user is written the way serde_json writes the derived serialisation of
//! `User`: a compact object with the fields `id`, `name` and `phone` in that order.
//! The escaping of each string is serde_json's own.
use vstd::prelude::*;
use crate::model::User;

verus! {

/// The lower-case hexadecimal digit of `d` (`d < 16`).
pub open spec fn hex_digit(d: nat) -> char {
    if d < 10 {
        (48 + d) as char
    } else {
        (87 + d) as char
    }
}

/// How serde_json writes one character inside a string literal: the quote, the
/// backslash and the ASCII control characters are escaped, everything else is kept.
pub open spec fn json_escaped_char(c: char) -> Seq<char> {
    if c == '"' {
        seq!['\\', '"']
    } else if c == '\\' {
        seq!['\\', '\\']
    } else if c == '\u{8}' {
        seq!['\\', 'b']
    } else if c == '\t' {
        seq!['\\', 't']
    } else if c == '\n' {
        seq!['\\', 'n']
    } else if c == '\u{c}' {
        seq!['\\', 'f']
    } else if c == '\r' {
        seq!['\\', 'r']
    } else if (c as u32) < 0x20 {
        seq!['\\', 'u', '0', '0', hex_digit((c as nat) / 16), hex_digit((c as nat) % 16)]
    } else {
        seq![c]
    }
}

/// The characters of `s`, each escaped.
pub open spec fn json_escaped(s: Seq<char>) -> Seq<char>
    decreases s.len(),
{
    if s.len() == 0 {
        Seq::empty()
    } else {
        json_escaped(s.drop_last()) + json_escaped_char(s.last())
    }
}

/// The JSON string literal for `s`.
pub open spec fn json_string_literal(s: Seq<char>) -> Seq<char> {
    seq!['"'] + json_escaped(s) + seq!['"']
}

/// Calls `serde_json::to_string` on a string slice. Its source writes a `str` through
/// `format_escaped_str` into a `Vec<u8>`: a double quote, each character escaped by the
/// table `ESCAPE` (`\"`, `\\`, `\b`, `\t`, `\n`, `\f`, `\r`, and `\u00xx` with lower-case
/// hex digits for the other characters below 0x20), and a closing double quote. Writing
/// into a `Vec<u8>` cannot fail, so the `Err` arm of its result is never taken.
#[verifier::external_body]
fn to_json_string(s: &str) -> (r: String)
    ensures
        r@ == json_string_literal(s@),
{
    serde_json::to_string(s).unwrap()
}

/// The JSON text of one user.
pub open spec fn user_json_text(u: User) -> Seq<char> {
    "{\"id\":"@ + json_string_literal(u.id@) + ",\"name\":"@ + json_string_literal(u.name@)
        + ",\"phone\":"@ + json_string_literal(u.phone@) + "}"@
}

/// The JSON texts of the users, one after the other with nothing in between.
pub open spec fn users_json_text(users: Seq<User>) -> Seq<char>
    decreases users.len(),
{
    if users.len() == 0 {
        Seq::empty()
    } else {
        users_json_text(users.drop_last()) + user_json_text(users.last())
    }
}

/// Writes one user as a compact JSON object.
pub fn user_json(user: &User) -> (r: String)
    ensures
        r@ == user_json_text(*user),
{
    let mut out = String::from_str("{\"id\":");
    out.append(to_json_string(user.id.as_str()).as_str());
    out.append(",\"name\":");
    out.append(to_json_string(user.name.as_str()).as_str());
    out.append(",\"phone\":");
    out.append(to_json_string(user.phone.as_str()).as_str());
    out.append("}");
    out
}

/// Writes every user as a compact JSON object and joins them with no separator.
pub fn users_json(users: &Vec<User>) -> (r: String)
    ensures
        r@ == users_json_text(users@),
{
    let mut joined = String::new();
    let n = users.len();
    for i in 0..n
        invariant
            n == users@.len(),
            joined@ == users_json_text(users@.take(i as int)),
    {
        let one = user_json(&users[i]);
        joined.append(one.as_str());
        proof {
            assert(users@.take(i + 1).drop_last() =~= users@.take(i as int));
        }
    }
    proof {
        assert(users@.take(n as int) =~= users@);
    }
    joined
}

} // verus!
