//! The database layer: each outcome of the user table, with its error replaced by a
//! message for the HTTP layer.
use vstd::prelude::*;
use crate::model::{DbError, User};

verus! {

/// The users read from the table, or a message when reading failed.
pub fn get_all_users(read: Result<Vec<User>, DbError>) -> (r: Result<Vec<User>, &'static str>)
    ensures
        match read {
            Ok(users) => r matches Ok(v) && v@ == users@,
            Err(_) => r matches Err(m) && m@ == "Error retrieving users"@,
        },
{
    match read {
        Ok(users) => Ok(users),
        Err(_) => Err("Error retrieving users"),
    }
}

/// The inserted user, or a message when the insert failed.
pub fn add_user(inserted: Result<User, DbError>) -> (r: Result<User, &'static str>)
    ensures
        match inserted {
            Ok(user) => r == Ok::<User, &'static str>(user),
            Err(_) => r matches Err(m) && m@ == "Error adding user"@,
        },
{
    match inserted {
        Ok(user) => Ok(user),
        Err(_) => Err("Error adding user"),
    }
}

/// Nothing, or a message when the delete failed.
pub fn delete_user(deleted: Result<(), DbError>) -> (r: Result<(), &'static str>)
    ensures
        match deleted {
            Ok(()) => r is Ok,
            Err(_) => r matches Err(m) && m@ == "Error deleting user"@,
        },
{
    match deleted {
        Ok(()) => Ok(()),
        Err(_) => Err("Error deleting user"),
    }
}

} // verus!
