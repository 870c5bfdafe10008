//! The table of users as a mathematical value: a sequence of rows, and what
//! each statement of the record store makes of it.

use vstd::prelude::*;
use crate::model::UserView;
use crate::schema::PageWindow;
use crate::store::FailureKind;
use crate::store::NewUserView;
use crate::store::UserChangeView;

verus! {

/// The rows stand in the order of their identities, so no two share one.
pub open spec fn ordered_by_id(rows: Seq<UserView>) -> bool {
    forall|i: int, j: int| 0 <= i < j < rows.len() ==> rows[i].id < rows[j].id
}

/// No two rows share a name, an email address or a referral code.
pub open spec fn distinct_texts(rows: Seq<UserView>) -> bool {
    forall|i: int, j: int|
        0 <= i < j < rows.len() ==> {
            &&& rows[i].user_name != rows[j].user_name
            &&& rows[i].email != rows[j].email
            &&& rows[i].ref_code != rows[j].ref_code
        }
}

/// The table is one that the record store can hold.
pub open spec fn table_wf(rows: Seq<UserView>) -> bool {
    ordered_by_id(rows) && distinct_texts(rows)
}

/// The row at `at` has the identity `id`.
pub open spec fn has_id_at(rows: Seq<UserView>, id: u128, at: int) -> bool {
    0 <= at < rows.len() && rows[at].id == id
}

/// The row at `at` has the referral code `code`.
pub open spec fn has_ref_code_at(rows: Seq<UserView>, code: Seq<char>, at: int) -> bool {
    0 <= at < rows.len() && rows[at].ref_code == code
}

/// Where the row with the identity `id` stands, if there is one.
pub open spec fn index_of_id(rows: Seq<UserView>, id: u128) -> Option<int> {
    if exists|at: int| has_id_at(rows, id, at) {
        Some(choose|at: int| has_id_at(rows, id, at))
    } else {
        None
    }
}

/// Where the row with the referral code `code` stands, if there is one.
pub open spec fn index_of_ref_code(rows: Seq<UserView>, code: Seq<char>) -> Option<int> {
    if exists|at: int| has_ref_code_at(rows, code, at) {
        Some(choose|at: int| has_ref_code_at(rows, code, at))
    } else {
        None
    }
}

/// The row at an index that a search gave, if it gave one.
pub open spec fn row_at(rows: Seq<UserView>, at: Option<int>) -> Option<UserView> {
    match at {
        Some(i) => Some(rows[i]),
        None => None,
    }
}

/// The row with the identity `id`, if there is one.
pub open spec fn row_of_id(rows: Seq<UserView>, id: u128) -> Option<UserView> {
    row_at(rows, index_of_id(rows, id))
}

/// The row with the referral code `code`, if there is one.
pub open spec fn row_of_ref_code(rows: Seq<UserView>, code: Seq<char>) -> Option<UserView> {
    row_at(rows, index_of_ref_code(rows, code))
}

/// How many rows of an ordered table stand before the identity `id`.
pub open spec fn rank(rows: Seq<UserView>, id: u128) -> int
    decreases rows.len(),
{
    if rows.len() == 0 || rows[0].id >= id {
        0
    } else {
        1 + rank(rows.drop_first(), id)
    }
}

/// The row that an insertion makes of `new`, with the identity and the time
/// that the store supplies.
pub open spec fn new_row(id: u128, new: NewUserView, now: i64) -> UserView {
    UserView {
        id,
        user_name: new.user_name,
        email: new.email,
        ref_code: new.ref_code,
        added_by_ref_code: new.added_by_ref_code,
        created_at: Some(now),
        updated_at: Some(now),
    }
}

/// The row at `at` shares its identity, name, email address or referral code
/// with `row`.
pub open spec fn collides_at(rows: Seq<UserView>, row: UserView, at: int) -> bool {
    &&& 0 <= at < rows.len()
    &&& {
        ||| rows[at].id == row.id
        ||| rows[at].user_name == row.user_name
        ||| rows[at].email == row.email
        ||| rows[at].ref_code == row.ref_code
    }
}

/// Some row of the table stands in the way of `row`.
pub open spec fn collides(rows: Seq<UserView>, row: UserView) -> bool {
    exists|at: int| collides_at(rows, row, at)
}

/// The table after `row` was inserted, or `None` where a uniqueness
/// constraint refuses it.
pub open spec fn insert_row(rows: Seq<UserView>, row: UserView) -> Option<Seq<UserView>> {
    if collides(rows, row) {
        None
    } else {
        Some(rows.insert(rank(rows, row.id), row))
    }
}

/// `row` with one more registration to its credit.
pub open spec fn credited(row: UserView) -> UserView {
    UserView { added_by_ref_code: (row.added_by_ref_code + 1) as u32, ..row }
}

/// The table after the user `id` was credited with one registration, or
/// `None` where there is no such user or the counter cannot grow.
pub open spec fn credit_row(rows: Seq<UserView>, id: u128) -> Option<Seq<UserView>> {
    match index_of_id(rows, id) {
        Some(at) => if rows[at].added_by_ref_code < u32::MAX {
            Some(rows.update(at, credited(rows[at])))
        } else {
            None
        },
        None => None,
    }
}

/// `row` after `change` was written into it.
pub open spec fn changed(row: UserView, change: UserChangeView) -> UserView {
    UserView {
        user_name: change.user_name,
        email: change.email,
        updated_at: Some(change.updated_at),
        ..row
    }
}

/// A row other than the one at `own` has the name or the email address that
/// `change` would write, namely the row at `at`.
pub open spec fn change_collides_at(
    rows: Seq<UserView>,
    own: int,
    change: UserChangeView,
    at: int,
) -> bool {
    &&& 0 <= at < rows.len()
    &&& at != own
    &&& (rows[at].user_name == change.user_name || rows[at].email == change.email)
}

/// The table after `change` was written into the row of user `id`; the
/// failure where there is no such user, or where another row has the name or
/// the email address already.
pub open spec fn update_row(rows: Seq<UserView>, id: u128, change: UserChangeView) -> Result<
    Seq<UserView>,
    FailureKind,
> {
    match index_of_id(rows, id) {
        None => Err(FailureKind::Other),
        Some(own) => if exists|at: int| change_collides_at(rows, own, change, at) {
            Err(FailureKind::UniqueViolation)
        } else {
            Ok(rows.update(own, changed(rows[own], change)))
        },
    }
}

/// The table after the row of user `id` was deleted, if there was one.
pub open spec fn delete_row(rows: Seq<UserView>, id: u128) -> Seq<UserView> {
    match index_of_id(rows, id) {
        Some(at) => rows.remove(at),
        None => rows,
    }
}

/// How many rows a deletion of user `id` removes.
pub open spec fn deleted_count(rows: Seq<UserView>, id: u128) -> int {
    if index_of_id(rows, id) is Some {
        1
    } else {
        0
    }
}

/// The smaller of two numbers.
pub open spec fn at_most(value: int, bound: int) -> int {
    if value <= bound {
        value
    } else {
        bound
    }
}

/// The rows of a page: at most `window.limit` rows after the first
/// `window.offset` rows, in the order of the table.
pub open spec fn page_rows(rows: Seq<UserView>, window: PageWindow) -> Seq<UserView> {
    rows.subrange(
        at_most(window.offset as int, rows.len() as int),
        at_most(window.offset + window.limit, rows.len() as int),
    )
}

/// In an ordered table the row with a given identity stands where any row
/// with that identity is found.
pub proof fn lemma_index_of_id(rows: Seq<UserView>, id: u128, at: int)
    requires
        ordered_by_id(rows),
        has_id_at(rows, id, at),
    ensures
        index_of_id(rows, id) == Some(at),
{
    let found = choose|k: int| has_id_at(rows, id, k);
    assert(has_id_at(rows, id, found));
    if found < at {
        assert(rows[found].id < rows[at].id);
    } else if at < found {
        assert(rows[at].id < rows[found].id);
    }
}

/// Where no two rows share a referral code, the row with a given code stands
/// where any row with that code is found.
pub proof fn lemma_index_of_ref_code(rows: Seq<UserView>, code: Seq<char>, at: int)
    requires
        distinct_texts(rows),
        has_ref_code_at(rows, code, at),
    ensures
        index_of_ref_code(rows, code) == Some(at),
{
    let found = choose|k: int| has_ref_code_at(rows, code, k);
    assert(has_ref_code_at(rows, code, found));
    if found < at {
        assert(rows[found].ref_code != rows[at].ref_code);
    } else if at < found {
        assert(rows[at].ref_code != rows[found].ref_code);
    }
}

/// The rank of an identity is the index before which all identities are
/// smaller and from which on none is.
pub proof fn lemma_rank(rows: Seq<UserView>, id: u128, at: int)
    requires
        0 <= at <= rows.len(),
        forall|k: int| 0 <= k < at ==> rows[k].id < id,
        at == rows.len() || rows[at].id >= id,
    ensures
        rank(rows, id) == at,
    decreases at,
{
    if at > 0 {
        let rest = rows.drop_first();
        assert(rows[0].id < id);
        assert forall|k: int| 0 <= k < at - 1 implies rest[k].id < id by {
            assert(rest[k] == rows[k + 1]);
        }
        if at < rows.len() {
            assert(rest[at - 1] == rows[at]);
        }
        lemma_rank(rest, id, at - 1);
    }
}

/// The rank of an identity lies within an ordered table, after every smaller
/// identity and before every other one.
pub proof fn lemma_rank_bounds(rows: Seq<UserView>, id: u128)
    requires
        ordered_by_id(rows),
    ensures
        0 <= rank(rows, id) <= rows.len(),
        forall|k: int| 0 <= k < rank(rows, id) ==> rows[k].id < id,
        forall|k: int| rank(rows, id) <= k < rows.len() ==> rows[k].id >= id,
    decreases rows.len(),
{
    if rows.len() == 0 || rows[0].id >= id {
        assert forall|k: int| 0 <= k < rows.len() implies rows[k].id >= id by {
            if k > 0 {
                assert(rows[0].id < rows[k].id);
            }
        }
    } else {
        let rest = rows.drop_first();
        assert forall|i: int, j: int| 0 <= i < j < rest.len() implies rest[i].id < rest[j].id by {
            assert(rest[i] == rows[i + 1] && rest[j] == rows[j + 1]);
        }
        lemma_rank_bounds(rest, id);
        assert forall|k: int| 0 <= k < rank(rows, id) implies rows[k].id < id by {
            if k > 0 {
                assert(rest[k - 1] == rows[k]);
            }
        }
        assert forall|k: int| rank(rows, id) <= k < rows.len() implies rows[k].id >= id by {
            assert(rest[k - 1] == rows[k]);
        }
    }
}

/// An insertion that the constraints admit leaves a table that the store can
/// hold, one row longer, with the new row at the rank of its identity.
pub proof fn lemma_insert_row(rows: Seq<UserView>, row: UserView)
    requires
        table_wf(rows),
        !collides(rows, row),
    ensures
        insert_row(rows, row) matches Some(after) && table_wf(after) && after.len() == rows.len()
            + 1 && has_id_at(after, row.id, rank(rows, row.id)),
{
    let at = rank(rows, row.id);
    let after = rows.insert(at, row);
    lemma_rank_bounds(rows, row.id);
    assert forall|k: int| 0 <= k < rows.len() implies {
        &&& rows[k].id != row.id
        &&& rows[k].user_name != row.user_name
        &&& rows[k].email != row.email
        &&& rows[k].ref_code != row.ref_code
    } by {
        assert(!collides_at(rows, row, k));
    }
    assert forall|i: int, j: int| 0 <= i < j < after.len() implies {
        &&& after[i].id < after[j].id
        &&& after[i].user_name != after[j].user_name
        &&& after[i].email != after[j].email
        &&& after[i].ref_code != after[j].ref_code
    } by {
        let a = if i < at { i } else { i - 1 };
        let b = if j < at { j } else { j - 1 };
        if i != at && j != at {
            assert(after[i] == rows[a] && after[j] == rows[b]);
            assert(a < b);
        } else if i == at {
            assert(after[j] == rows[b]);
        } else {
            assert(after[i] == rows[a]);
        }
    }
}

/// A credit changes one counter and keeps the table one that the store can
/// hold.
pub proof fn lemma_credit_row(rows: Seq<UserView>, id: u128)
    requires
        table_wf(rows),
    ensures
        credit_row(rows, id) matches Some(after) ==> table_wf(after) && after.len() == rows.len(),
{
    if let Some(after) = credit_row(rows, id) {
        let at = index_of_id(rows, id)->0;
        assert(has_id_at(rows, id, at));
        assert forall|i: int, j: int| 0 <= i < j < after.len() implies {
            &&& after[i].id < after[j].id
            &&& after[i].user_name != after[j].user_name
            &&& after[i].email != after[j].email
            &&& after[i].ref_code != after[j].ref_code
        } by {
            assert(after[i].id == rows[i].id && after[j].id == rows[j].id);
        }
    }
}

/// A change that the constraints admit keeps the table one that the store
/// can hold.
pub proof fn lemma_update_row(rows: Seq<UserView>, id: u128, change: UserChangeView)
    requires
        table_wf(rows),
    ensures
        update_row(rows, id, change) matches Ok(after) ==> table_wf(after) && after.len()
            == rows.len(),
{
    if let Ok(after) = update_row(rows, id, change) {
        let own = index_of_id(rows, id)->0;
        assert(has_id_at(rows, id, own));
        assert forall|i: int, j: int| 0 <= i < j < after.len() implies {
            &&& after[i].id < after[j].id
            &&& after[i].user_name != after[j].user_name
            &&& after[i].email != after[j].email
            &&& after[i].ref_code != after[j].ref_code
        } by {
            assert(after[i].id == rows[i].id && after[j].id == rows[j].id);
            assert(!change_collides_at(rows, own, change, i));
            assert(!change_collides_at(rows, own, change, j));
        }
    }
}

/// A deletion keeps the table one that the store can hold, and leaves no row
/// with the identity that was deleted.
pub proof fn lemma_delete_row(rows: Seq<UserView>, id: u128)
    requires
        table_wf(rows),
    ensures
        table_wf(delete_row(rows, id)),
        delete_row(rows, id).len() == rows.len() - deleted_count(rows, id),
        index_of_id(delete_row(rows, id), id) is None,
{
    let after = delete_row(rows, id);
    match index_of_id(rows, id) {
        Some(at) => {
            assert(has_id_at(rows, id, at));
            assert forall|k: int| 0 <= k < after.len() implies after[k] == rows[if k < at {
                k
            } else {
                k + 1
            }] by {}
            assert forall|i: int, j: int| 0 <= i < j < after.len() implies {
                &&& after[i].id < after[j].id
                &&& after[i].user_name != after[j].user_name
                &&& after[i].email != after[j].email
                &&& after[i].ref_code != after[j].ref_code
            } by {
                let a = if i < at { i } else { i + 1 };
                let b = if j < at { j } else { j + 1 };
                assert(after[i] == rows[a] && after[j] == rows[b]);
            }
            assert forall|k: int| !has_id_at(after, id, k) by {
                if 0 <= k < after.len() {
                    let a = if k < at { k } else { k + 1 };
                    assert(after[k] == rows[a]);
                    if a < at {
                        assert(rows[a].id < rows[at].id);
                    } else {
                        assert(rows[at].id < rows[a].id);
                    }
                }
            }
        },
        None => {
            assert forall|k: int| !has_id_at(after, id, k) by {}
        },
    }
}

} // verus!
