//! The record store as this crate sees it: a table of users, ordered by
//! identity, in which no two rows share an identity, a name, an email address
//! or a referral code.
//!
//! [`UserStore`] keeps the table in memory. A caller that keeps its users
//! elsewhere drives [`crate::registration::Registration`] instead and reports
//! what its own store answered.

use vstd::prelude::*;
use vstd::string::StringExecFns;
use crate::model::rows_view;
use crate::model::user_view;
use crate::model::UserModel;
use crate::model::UserView;
use crate::schema::PageWindow;
use crate::table::change_collides_at;
use crate::table::changed;
use crate::table::collides_at;
use crate::table::credit_row;
use crate::table::credited;
use crate::table::delete_row;
use crate::table::deleted_count;
use crate::table::has_id_at;
use crate::table::has_ref_code_at;
use crate::table::index_of_id;
use crate::table::index_of_ref_code;
use crate::table::insert_row;
use crate::table::lemma_credit_row;
use crate::table::lemma_delete_row;
use crate::table::lemma_index_of_id;
use crate::table::lemma_index_of_ref_code;
use crate::table::lemma_insert_row;
use crate::table::lemma_rank;
use crate::table::lemma_update_row;
use crate::table::new_row;
use crate::table::page_rows;
use crate::table::row_of_id;
use crate::table::row_of_ref_code;
use crate::table::table_wf;
use crate::table::update_row;
use crate::text::contains;
use crate::text::occurs_in;

verus! {

/// The values of a row that is to be inserted. The store supplies the
/// identity and the timestamps.
#[derive(Debug, PartialEq, Eq)]
pub struct NewUser {
    pub email: String,
    pub user_name: String,
    pub ref_code: String,
    pub added_by_ref_code: u32,
}

/// The mathematical value of a [`NewUser`].
pub struct NewUserView {
    pub email: Seq<char>,
    pub user_name: Seq<char>,
    pub ref_code: Seq<char>,
    pub added_by_ref_code: u32,
}

impl View for NewUser {
    type V = NewUserView;

    open spec fn view(&self) -> NewUserView {
        NewUserView {
            email: self.email@,
            user_name: self.user_name@,
            ref_code: self.ref_code@,
            added_by_ref_code: self.added_by_ref_code,
        }
    }
}

/// The values that a change writes into a row.
#[derive(Debug, PartialEq, Eq)]
pub struct UserChange {
    pub email: String,
    pub user_name: String,
    pub updated_at: i64,
}

/// The mathematical value of a [`UserChange`].
pub struct UserChangeView {
    pub email: Seq<char>,
    pub user_name: Seq<char>,
    pub updated_at: i64,
}

impl View for UserChange {
    type V = UserChangeView;

    open spec fn view(&self) -> UserChangeView {
        UserChangeView {
            email: self.email@,
            user_name: self.user_name@,
            updated_at: self.updated_at,
        }
    }
}

/// The classes of store failures that the service tells apart.
#[derive(Debug, Clone, Copy, PartialEq, Eq, Structural)]
pub enum FailureKind {
    /// A row with the same identity, name, email address or referral code
    /// exists.
    UniqueViolation,
    /// Any other failure.
    Other,
}

/// A failure that the record store reports.
#[derive(Debug, PartialEq, Eq)]
pub struct StoreError {
    pub kind: FailureKind,
    /// The store's own account of the failure.
    pub detail: String,
}

/// The mathematical value of a [`StoreError`].
pub struct StoreErrorView {
    pub kind: FailureKind,
    pub detail: Seq<char>,
}

impl View for StoreError {
    type V = StoreErrorView;

    open spec fn view(&self) -> StoreErrorView {
        StoreErrorView { kind: self.kind, detail: self.detail@ }
    }
}

/// The words by which a store reports that a uniqueness constraint refused a
/// row.
pub open spec fn unique_violation_text() -> Seq<char> {
    "duplicate key value violates unique constraint"@
}

/// The words by which a store reports that a statement found no row.
pub open spec fn row_not_found_text() -> Seq<char> {
    "no rows returned by a query that expected to return at least one row"@
}

/// The words by which a store reports that a counter cannot grow.
pub open spec fn out_of_range_text() -> Seq<char> {
    "integer out of range"@
}

/// The class of a failure that a store reported in the words `reason`: a
/// uniqueness violation where the words say so, any other failure otherwise.
pub open spec fn kind_of_reason(reason: Seq<char>) -> FailureKind {
    if occurs_in(reason, unique_violation_text()) {
        FailureKind::UniqueViolation
    } else {
        FailureKind::Other
    }
}

/// Classifies a failure that a store reported in the words `reason`, and
/// keeps `detail` as its account of it.
pub fn classify(reason: &str, detail: String) -> (error: StoreError)
    ensures
        error@ == (StoreErrorView { kind: kind_of_reason(reason@), detail: detail@ }),
{
    let kind = if contains(reason, "duplicate key value violates unique constraint") {
        FailureKind::UniqueViolation
    } else {
        FailureKind::Other
    };
    StoreError { kind, detail }
}

/// A table of users that is kept in memory.
pub struct UserStore {
    rows: Vec<UserModel>,
}

impl View for UserStore {
    type V = Seq<UserView>;

    closed spec fn view(&self) -> Seq<UserView> {
        rows_view(self.rows@)
    }
}

impl UserStore {
    /// The rows form a table that a record store can hold.
    pub open spec fn wf(&self) -> bool {
        table_wf(self@)
    }

    /// A store without rows.
    pub fn new() -> (store: UserStore)
        ensures
            store@ == Seq::<UserView>::empty(),
            store.wf(),
    {
        let store = UserStore { rows: Vec::new() };
        assert(store@ =~= Seq::<UserView>::empty());
        store
    }

    /// The number of rows.
    pub fn len(&self) -> (count: usize)
        ensures
            count == self@.len(),
    {
        self.rows.len()
    }

    /// Where the row with the identity `id` stands.
    fn position_of_id(&self, id: u128) -> (at: Option<usize>)
        requires
            self.wf(),
        ensures
            match at {
                Some(i) => i < self.rows.len() && index_of_id(self@, id) == Some(i as int),
                None => index_of_id(self@, id) is None,
            },
    {
        let mut i: usize = 0;
        while i < self.rows.len()
            invariant
                i <= self.rows.len(),
                self.wf(),
                forall|k: int| 0 <= k < i ==> !has_id_at(self@, id, k),
            decreases self.rows.len() - i,
        {
            if self.rows[i].id == id {
                proof {
                    lemma_index_of_id(self@, id, i as int);
                }
                return Some(i);
            }
            i += 1;
        }
        assert forall|k: int| !has_id_at(self@, id, k) by {}
        None
    }

    /// Where the row with the referral code `code` stands.
    fn position_of_ref_code(&self, code: &str) -> (at: Option<usize>)
        requires
            self.wf(),
        ensures
            match at {
                Some(i) => i < self.rows.len() && index_of_ref_code(self@, code@) == Some(
                    i as int,
                ),
                None => index_of_ref_code(self@, code@) is None,
            },
    {
        let key = String::from_str(code);
        let mut i: usize = 0;
        while i < self.rows.len()
            invariant
                i <= self.rows.len(),
                self.wf(),
                key@ == code@,
                forall|k: int| 0 <= k < i ==> !has_ref_code_at(self@, code@, k),
            decreases self.rows.len() - i,
        {
            if self.rows[i].ref_code == key {
                proof {
                    lemma_index_of_ref_code(self@, code@, i as int);
                }
                return Some(i);
            }
            i += 1;
        }
        assert forall|k: int| !has_ref_code_at(self@, code@, k) by {}
        None
    }

    /// The row at a position that a search gave, if it gave one.
    fn copy_at(&self, at: Option<usize>) -> (row: Option<UserModel>)
        requires
            at matches Some(i) ==> i < self.rows.len(),
        ensures
            match (at, row) {
                (Some(i), Some(r)) => r@ == self@[i as int],
                (None, None) => true,
                _ => false,
            },
    {
        match at {
            Some(i) => Some(self.rows[i].clone()),
            None => None,
        }
    }

    /// The user with the identity `id`, if there is one.
    pub fn find_by_id(&self, id: u128) -> (row: Option<UserModel>)
        requires
            self.wf(),
        ensures
            user_view(row) == row_of_id(self@, id),
    {
        let at = self.position_of_id(id);
        self.copy_at(at)
    }

    /// The user with the referral code `code`, if there is one.
    pub fn find_by_ref_code(&self, code: &str) -> (row: Option<UserModel>)
        requires
            self.wf(),
        ensures
            user_view(row) == row_of_ref_code(self@, code@),
    {
        let at = self.position_of_ref_code(code);
        self.copy_at(at)
    }
}

impl UserStore {
    /// Credits the user `id` with one registration: the counter grows by
    /// exactly one. Fails, and changes nothing, where there is no such user
    /// or the counter stands at its largest value.
    pub fn credit(&mut self, id: u128) -> (outcome: Result<(), StoreError>)
        requires
            old(self).wf(),
        ensures
            final(self).wf(),
            match outcome {
                Ok(_) => credit_row(old(self)@, id) == Some(final(self)@),
                Err(error) => {
                    &&& credit_row(old(self)@, id) is None
                    &&& final(self)@ == old(self)@
                    &&& error@.kind == FailureKind::Other
                    &&& error@.detail == if index_of_id(old(self)@, id) is None {
                        row_not_found_text()
                    } else {
                        out_of_range_text()
                    }
                },
            },
    {
        match self.position_of_id(id) {
            None => Err(
                StoreError {
                    kind: FailureKind::Other,
                    detail: String::from_str(
                        "no rows returned by a query that expected to return at least one row",
                    ),
                },
            ),
            Some(at) => {
                let count = self.rows[at].added_by_ref_code;
                if count == u32::MAX {
                    return Err(
                        StoreError {
                            kind: FailureKind::Other,
                            detail: String::from_str("integer out of range"),
                        },
                    );
                }
                let mut row = self.rows[at].clone();
                row.added_by_ref_code = count + 1;
                proof {
                    lemma_credit_row(self@, id);
                    assert(row@ == credited(self@[at as int]));
                }
                self.rows.set(at, row);
                assert(self@ =~= old(self)@.update(at as int, credited(old(self)@[at as int])));
                Ok(())
            },
        }
    }

    /// Inserts a row with the values of `new`, the identity `id`, and `now`
    /// as the time of its creation and of its last change. Fails, and changes
    /// nothing, where a row with that identity, name, email address or
    /// referral code exists.
    pub fn insert(&mut self, id: u128, new: NewUser, now: i64) -> (outcome: Result<
        UserModel,
        StoreError,
    >)
        requires
            old(self).wf(),
        ensures
            final(self).wf(),
            match outcome {
                Ok(row) => {
                    &&& insert_row(old(self)@, new_row(id, new@, now)) == Some(final(self)@)
                    &&& row@ == new_row(id, new@, now)
                },
                Err(error) => {
                    &&& insert_row(old(self)@, new_row(id, new@, now)) is None
                    &&& final(self)@ == old(self)@
                    &&& error@.kind == FailureKind::UniqueViolation
                    &&& error@.detail == unique_violation_text()
                },
            },
    {
        let ghost fresh = new_row(id, new@, now);
        let mut at: usize = self.rows.len();
        let mut i: usize = 0;
        while i < self.rows.len()
            invariant
                i <= self.rows.len(),
                self.wf(),
                fresh == new_row(id, new@, now),
                forall|k: int| 0 <= k < i ==> !collides_at(self@, fresh, k),
                at <= i || at == self.rows.len(),
                at < self.rows.len() ==> self@[at as int].id >= id,
                forall|k: int| 0 <= k < at && k < i ==> self@[k].id < id,
            decreases self.rows.len() - i,
        {
            let row = &self.rows[i];
            if row.id == id || row.user_name == new.user_name || row.email == new.email
                || row.ref_code == new.ref_code {
                assert(collides_at(self@, fresh, i as int));
                return Err(
                    StoreError {
                        kind: FailureKind::UniqueViolation,
                        detail: String::from_str("duplicate key value violates unique constraint"),
                    },
                );
            }
            if at == self.rows.len() && row.id > id {
                at = i;
            }
            i += 1;
        }
        assert forall|k: int| !collides_at(self@, fresh, k) by {}
        let row = UserModel {
            id,
            user_name: new.user_name,
            email: new.email,
            ref_code: new.ref_code,
            added_by_ref_code: new.added_by_ref_code,
            created_at: Some(now),
            updated_at: Some(now),
        };
        let copy = row.clone();
        proof {
            lemma_rank(self@, id, at as int);
            lemma_insert_row(self@, fresh);
        }
        self.rows.insert(at, row);
        assert(self@ =~= old(self)@.insert(at as int, fresh));
        Ok(copy)
    }

    /// Writes `change` into the row of user `id`. Fails, and changes nothing,
    /// where there is no such user, or where another row has the name or the
    /// email address already.
    pub fn update(&mut self, id: u128, change: UserChange) -> (outcome: Result<
        UserModel,
        StoreError,
    >)
        requires
            old(self).wf(),
        ensures
            final(self).wf(),
            match outcome {
                Ok(row) => {
                    &&& update_row(old(self)@, id, change@) == Ok::<Seq<UserView>, FailureKind>(
                        final(self)@,
                    )
                    &&& row_of_id(final(self)@, id) == Some(row@)
                },
                Err(error) => {
                    &&& update_row(old(self)@, id, change@) == Err::<Seq<UserView>, FailureKind>(
                        error@.kind,
                    )
                    &&& final(self)@ == old(self)@
                    &&& error@.detail == match error@.kind {
                        FailureKind::UniqueViolation => unique_violation_text(),
                        FailureKind::Other => row_not_found_text(),
                    }
                },
            },
    {
        let own = match self.position_of_id(id) {
            Some(own) => own,
            None => {
                return Err(
                    StoreError {
                        kind: FailureKind::Other,
                        detail: String::from_str(
                            "no rows returned by a query that expected to return at least one row",
                        ),
                    },
                );
            },
        };
        let mut i: usize = 0;
        while i < self.rows.len()
            invariant
                i <= self.rows.len(),
                own < self.rows.len(),
                self.wf(),
                self@ == old(self)@,
                index_of_id(self@, id) == Some(own as int),
                forall|k: int| 0 <= k < i ==> !change_collides_at(self@, own as int, change@, k),
            decreases self.rows.len() - i,
        {
            let row = &self.rows[i];
            if i != own && (row.user_name == change.user_name || row.email == change.email) {
                assert(change_collides_at(self@, own as int, change@, i as int));
                return Err(
                    StoreError {
                        kind: FailureKind::UniqueViolation,
                        detail: String::from_str("duplicate key value violates unique constraint"),
                    },
                );
            }
            i += 1;
        }
        assert forall|k: int| !change_collides_at(self@, own as int, change@, k) by {}
        let current = &self.rows[own];
        let row = UserModel {
            id: current.id,
            user_name: change.user_name,
            email: change.email,
            ref_code: current.ref_code.clone(),
            added_by_ref_code: current.added_by_ref_code,
            created_at: current.created_at,
            updated_at: Some(change.updated_at),
        };
        let copy = row.clone();
        proof {
            lemma_update_row(self@, id, change@);
            assert(row@ == changed(self@[own as int], change@));
        }
        self.rows.set(own, row);
        proof {
            assert(self@ =~= old(self)@.update(own as int, changed(old(self)@[own as int], change@)));
            lemma_index_of_id(self@, id, own as int);
        }
        Ok(copy)
    }

    /// Deletes the row of user `id`, if there is one, and says how many rows
    /// that removed.
    pub fn delete(&mut self, id: u128) -> (count: u64)
        requires
            old(self).wf(),
        ensures
            final(self).wf(),
            final(self)@ == delete_row(old(self)@, id),
            count == deleted_count(old(self)@, id),
    {
        proof {
            lemma_delete_row(self@, id);
        }
        match self.position_of_id(id) {
            Some(at) => {
                let _ = self.rows.remove(at);
                assert(self@ =~= old(self)@.remove(at as int));
                1
            },
            None => 0,
        }
    }

    /// The rows of a page, in the order of the table.
    pub fn list(&self, window: PageWindow) -> (page: Vec<UserModel>)
        ensures
            rows_view(page@) == page_rows(self@, window),
    {
        let len = self.rows.len();
        let first: usize = if window.offset <= len {
            window.offset
        } else {
            len
        };
        let end: usize = if window.limit <= len - first {
            first + window.limit
        } else {
            len
        };
        let mut page: Vec<UserModel> = Vec::new();
        let mut i: usize = first;
        while i < end
            invariant
                first <= i <= end <= self.rows.len(),
                rows_view(page@) == self@.subrange(first as int, i as int),
            decreases end - i,
        {
            let ghost before = rows_view(page@);
            let copy = self.rows[i].clone();
            page.push(copy);
            assert(rows_view(page@) =~= before.push(self@[i as int]));
            assert(before.push(self@[i as int]) =~= self@.subrange(first as int, i + 1));
            i += 1;
        }
        page
    }
}

} // verus!
