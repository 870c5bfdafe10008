//! The user record and the event that announces a new one.

use vstd::prelude::*;

verus! {

/// A user row as the record store holds it.
#[derive(Debug, PartialEq, Eq)]
pub struct UserModel {
    /// Unique identity: the 128-bit value of the row's UUID.
    pub id: u128,
    /// Display name, unique among users.
    pub user_name: String,
    /// Email address, unique among users.
    pub email: String,
    /// The user's own referral code, unique among users.
    pub ref_code: String,
    /// How many registrations cited this user's referral code.
    pub added_by_ref_code: u32,
    /// Creation time in microseconds since the Unix epoch.
    pub created_at: Option<i64>,
    /// Time of the last change in microseconds since the Unix epoch.
    pub updated_at: Option<i64>,
}

/// The mathematical value of a [`UserModel`].
pub struct UserView {
    pub id: u128,
    pub user_name: Seq<char>,
    pub email: Seq<char>,
    pub ref_code: Seq<char>,
    pub added_by_ref_code: u32,
    pub created_at: Option<i64>,
    pub updated_at: Option<i64>,
}

impl View for UserModel {
    type V = UserView;

    open spec fn view(&self) -> UserView {
        UserView {
            id: self.id,
            user_name: self.user_name@,
            email: self.email@,
            ref_code: self.ref_code@,
            added_by_ref_code: self.added_by_ref_code,
            created_at: self.created_at,
            updated_at: self.updated_at,
        }
    }
}

impl Clone for UserModel {
    fn clone(&self) -> (copy: Self)
        ensures
            copy@ == self@,
    {
        UserModel {
            id: self.id,
            user_name: self.user_name.clone(),
            email: self.email.clone(),
            ref_code: self.ref_code.clone(),
            added_by_ref_code: self.added_by_ref_code,
            created_at: self.created_at,
            updated_at: self.updated_at,
        }
    }
}

/// The views of a sequence of rows, in the same order.
pub open spec fn rows_view(rows: Seq<UserModel>) -> Seq<UserView> {
    rows.map_values(|row: UserModel| row@)
}

/// The view of an optional user.
pub open spec fn user_view(user: Option<UserModel>) -> Option<UserView> {
    match user {
        Some(u) => Some(u@),
        None => None,
    }
}

/// The view of an optional text.
pub open spec fn text_view(text: Option<String>) -> Option<Seq<char>> {
    match text {
        Some(t) => Some(t@),
        None => None,
    }
}

/// Announces one successful registration; it carries the new user's record.
#[derive(Debug, PartialEq, Eq)]
pub struct RegistrationEvent {
    pub user: UserModel,
}

impl View for RegistrationEvent {
    type V = UserView;

    open spec fn view(&self) -> UserView {
        self.user@
    }
}

impl Clone for RegistrationEvent {
    fn clone(&self) -> (copy: Self)
        ensures
            copy@ == self@,
    {
        RegistrationEvent { user: self.user.clone() }
    }
}

} // verus!
