//! The phone-book entry and the handling of what the database answers.
use vstd::prelude::*;

verus! {

/// One entry of the phone book, as stored in the `users` table.
#[derive(Clone, Debug)]
pub struct User {
    pub id: String,
    pub name: String,
    pub phone: String,
}

/// A failed database statement. The database layer keeps only its message.
#[derive(Debug)]
pub struct DbError {
    pub message: String,
}

/// What reading all rows gives: every row in order when each one was read, else the
/// error of the first row that failed.
pub open spec fn collected_rows(rows: Seq<Result<User, DbError>>) -> Result<Seq<User>, DbError>
    decreases rows.len(),
{
    if rows.len() == 0 {
        Ok(Seq::empty())
    } else {
        match collected_rows(rows.drop_last()) {
            Err(e) => Err(e),
            Ok(users) => match rows.last() {
                Ok(u) => Ok(users.push(u)),
                Err(e) => Err(e),
            },
        }
    }
}

impl User {
    /// The users that `SELECT id, name, phone FROM users` read: the query's error when
    /// it could not run, else every row in order, stopping at the first row that the
    /// database failed to read.
    pub fn all(query: Result<Vec<Result<User, DbError>>, DbError>) -> (res: Result<Vec<User>, DbError>)
        ensures
            match query {
                Err(e) => res == Err::<Vec<User>, DbError>(e),
                Ok(rows) => {
                    &&& match (res, collected_rows(rows@)) {
                        (Ok(users), Ok(expected)) => users@ == expected,
                        (Err(e), Err(expected)) => e == expected,
                        _ => false,
                    }
                    &&& (forall|i: int| 0 <= i < rows@.len() ==> #[trigger] rows@[i] is Ok) ==> {
                        &&& res is Ok
                        &&& res->Ok_0@.len() == rows@.len()
                        &&& forall|i: int|
                            0 <= i < rows@.len() ==> rows@[i] == Ok::<User, DbError>(
                                #[trigger] res->Ok_0@[i],
                            )
                    }
                    &&& forall|k: int|
                        0 <= k < rows@.len() && #[trigger] rows@[k] is Err && (forall|j: int|
                            0 <= j < k ==> #[trigger] rows@[j] is Ok) ==> res == Err::<
                            Vec<User>,
                            DbError,
                        >(rows@[k]->Err_0)
                },
            },
    {
        let rows = match query {
            Err(e) => {
                return Err(e);
            },
            Ok(rows) => rows,
        };
        let mut result: Vec<User> = Vec::new();
        let ghost all_rows = rows@;
        let mut remaining = rows;
        let n: usize = remaining.len();
        let mut i: usize = 0;
        while i < n
            invariant
                n == all_rows.len(),
                query matches Ok(q) && q@ == all_rows,
                0 <= i <= n,
                remaining@ == all_rows.skip(i as int),
                collected_rows(all_rows.take(i as int)) == Ok::<Seq<User>, DbError>(result@),
            decreases n - i,
        {
            let row = remaining.remove(0);
            proof {
                assert(row == all_rows[i as int]);
                assert(all_rows.skip(i as int).remove(0) =~= all_rows.skip(i + 1));
                assert(all_rows.take(i + 1).drop_last() =~= all_rows.take(i as int));
            }
            match row {
                Ok(u) => {
                    result.push(u);
                },
                Err(e) => {
                    proof {
                        assert(all_rows.take(i + 1).last() == all_rows[i as int]);
                        assert(collected_rows(all_rows.take(i + 1)) == Err::<Seq<User>, DbError>(e));
                        lemma_first_error_sticks(all_rows, (i + 1) as nat, e);
                        assert forall|k: int|
                            0 <= k < all_rows.len() && #[trigger] all_rows[k] is Err && (forall|
                                j: int,
                            | 0 <= j < k ==> #[trigger] all_rows[j] is Ok) implies Err::<
                            Vec<User>,
                            DbError,
                        >(e) == Err::<Vec<User>, DbError>(all_rows[k]->Err_0) by {
                            lemma_first_failed_row(all_rows, k);
                        }
                    }
                    return Err(e);
                },
            }
            i = i + 1;
        }
        proof {
            assert(all_rows.take(n as int) =~= all_rows);
            if forall|i: int| 0 <= i < all_rows.len() ==> #[trigger] all_rows[i] is Ok {
                lemma_every_row_read(all_rows);
            }
            assert forall|k: int|
                0 <= k < all_rows.len() && #[trigger] all_rows[k] is Err && (forall|j: int|
                    0 <= j < k ==> #[trigger] all_rows[j] is Ok) implies false by {
                lemma_first_failed_row(all_rows, k);
            }
        }
        Ok(result)
    }
}

impl User {
    /// What inserting a user gives back: the user itself when the `INSERT` ran, else
    /// its error.
    pub fn add_user(user: User, executed: Result<usize, DbError>) -> (res: Result<User, DbError>)
        ensures
            match executed {
                Ok(_) => res == Ok::<User, DbError>(user),
                Err(e) => res == Err::<User, DbError>(e),
            },
    {
        match executed {
            Ok(_) => Ok(user),
            Err(e) => Err(e),
        }
    }

    /// What deleting a user gives back: nothing when the `DELETE` ran, whatever number
    /// of rows it removed, else its error.
    pub fn delete_user(executed: Result<usize, DbError>) -> (res: Result<(), DbError>)
        ensures
            match executed {
                Ok(_) => res is Ok,
                Err(e) => res == Err::<(), DbError>(e),
            },
    {
        match executed {
            Ok(_) => Ok(()),
            Err(e) => Err(e),
        }
    }
}

/// Once a prefix of the rows ends in an error, every longer prefix yields that error.
proof fn lemma_first_error_sticks(rows: Seq<Result<User, DbError>>, k: nat, e: DbError)
    requires
        k <= rows.len(),
        collected_rows(rows.take(k as int)) == Err::<Seq<User>, DbError>(e),
    ensures
        collected_rows(rows) == Err::<Seq<User>, DbError>(e),
    decreases rows.len() - k,
{
    if k == rows.len() {
        assert(rows.take(k as int) =~= rows);
    } else {
        assert(rows.take(k + 1 as int).drop_last() =~= rows.take(k as int));
        lemma_first_error_sticks(rows, k + 1, e);
    }
}

/// When every row was read, the read gives exactly those users, one per row, in the
/// order of the rows.
pub proof fn lemma_every_row_read(rows: Seq<Result<User, DbError>>)
    requires
        forall|i: int| 0 <= i < rows.len() ==> #[trigger] rows[i] is Ok,
    ensures
        collected_rows(rows) is Ok,
        collected_rows(rows)->Ok_0.len() == rows.len(),
        forall|i: int|
            0 <= i < rows.len() ==> rows[i] == Ok::<User, DbError>(
                #[trigger] collected_rows(rows)->Ok_0[i],
            ),
    decreases rows.len(),
{
    if rows.len() > 0 {
        let front = rows.drop_last();
        assert forall|i: int| 0 <= i < front.len() implies #[trigger] front[i] is Ok by {
            assert(front[i] == rows[i]);
        }
        lemma_every_row_read(front);
        assert(rows[rows.len() - 1] is Ok);
        let users = collected_rows(front)->Ok_0;
        assert forall|i: int| 0 <= i < rows.len() implies rows[i] == Ok::<User, DbError>(
            #[trigger] collected_rows(rows)->Ok_0[i],
        ) by {
            if i < rows.len() - 1 {
                assert(front[i] == rows[i]);
                assert(front[i] == Ok::<User, DbError>(users[i]));
            }
        }
    }
}

/// When some row failed, the read fails with the error of the first row that failed,
/// whatever follows it.
pub proof fn lemma_first_failed_row(rows: Seq<Result<User, DbError>>, k: int)
    requires
        0 <= k < rows.len(),
        rows[k] is Err,
        forall|j: int| 0 <= j < k ==> #[trigger] rows[j] is Ok,
    ensures
        collected_rows(rows) == Err::<Seq<User>, DbError>(rows[k]->Err_0),
{
    let front = rows.take(k);
    assert forall|j: int| 0 <= j < front.len() implies #[trigger] front[j] is Ok by {
        assert(front[j] == rows[j]);
    }
    lemma_every_row_read(front);
    assert(rows.take(k + 1).drop_last() =~= front);
    assert(rows.take(k + 1).last() == rows[k]);
    lemma_first_error_sticks(rows, (k + 1) as nat, rows[k]->Err_0);
}

} // verus!
