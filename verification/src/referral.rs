//! The referral resolver: finds the user who owns a referral code, and
//! credits that user with a registration.

use vstd::prelude::*;
use crate::model::UserModel;
use crate::response::ApiError;
use crate::response::ApiErrorView;
use crate::store::UserStore;
use crate::table::credit_row;
use crate::table::row_of_ref_code;
use crate::text::framed;

verus! {

/// What a registration that cites an unknown referral code is answered with.
pub open spec fn referrer_not_found_text(ref_code: Seq<char>) -> Seq<char> {
    "User with referral code: "@ + ref_code + " not found"@
}

/// The failure that names a referral code which no user owns.
pub fn not_found(ref_code: &str) -> (error: ApiError)
    ensures
        error@ == ApiErrorView::NotFound(referrer_not_found_text(ref_code@)),
{
    ApiError::NotFound(framed("User with referral code: ", ref_code, " not found"))
}

/// The user who owns the referral code `ref_code`; the failure that names
/// the code where no user owns it. The code is taken as it stands: nothing
/// is asked of its form.
pub fn resolve(store: &UserStore, ref_code: &str) -> (referrer: Result<UserModel, ApiError>)
    requires
        store.wf(),
    ensures
        match referrer {
            Ok(user) => row_of_ref_code(store@, ref_code@) == Some(user@),
            Err(error) => {
                &&& row_of_ref_code(store@, ref_code@) is None
                &&& error@ == ApiErrorView::NotFound(referrer_not_found_text(ref_code@))
            },
        },
{
    match store.find_by_ref_code(ref_code) {
        Some(user) => Ok(user),
        None => Err(not_found(ref_code)),
    }
}

/// Credits the user `referrer` with one registration, and says whether the
/// store committed it. The store adds one to the counter in a single
/// statement. A credit that is not committed changes nothing.
pub fn credit(store: &mut UserStore, referrer: u128) -> (committed: bool)
    requires
        old(store).wf(),
    ensures
        final(store).wf(),
        committed == credit_row(old(store)@, referrer) is Some,
        final(store)@ == match credit_row(old(store)@, referrer) {
            Some(after) => after,
            None => old(store)@,
        },
{
    store.credit(referrer).is_ok()
}

} // verus!
