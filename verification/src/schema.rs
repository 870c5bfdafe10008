//! The shapes of what a client sends: query options and request bodies.

use vstd::prelude::*;
use crate::model::text_view;

verus! {

/// The page that a listing starts with where the client names none.
pub const DEFAULT_PAGE: usize = 1;

/// The number of rows on a page where the client names none.
pub const DEFAULT_LIMIT: usize = 10;

/// The largest limit and the largest offset that a listing hands to the
/// record store, which takes both as 32-bit signed integers.
pub const MAX_WINDOW: usize = 0x7fff_ffff;

/// The query options of a listing: which page, and how many rows a page has.
#[derive(Debug, Clone, Copy, PartialEq, Eq, Structural)]
pub struct FilterOptions {
    pub page: Option<usize>,
    pub limit: Option<usize>,
}

/// The rows that a listing asks the record store for: at most `limit` rows
/// after the first `offset` rows.
#[derive(Debug, Clone, Copy, PartialEq, Eq, Structural)]
pub struct PageWindow {
    pub limit: usize,
    pub offset: usize,
}

impl Default for FilterOptions {
    fn default() -> (options: FilterOptions)
        ensures
            options == (FilterOptions { page: None, limit: None }),
    {
        FilterOptions { page: None, limit: None }
    }
}

impl FilterOptions {
    /// The page asked for: pages count from 1, and 1 is the default.
    pub open spec fn page_or_default(self) -> int {
        match self.page {
            Some(page) => page as int,
            None => DEFAULT_PAGE as int,
        }
    }

    /// The number of rows on a page: 10 by default.
    pub open spec fn limit_or_default(self) -> int {
        match self.limit {
            Some(limit) => limit as int,
            None => DEFAULT_LIMIT as int,
        }
    }

    /// The offset of the page asked for: the rows of all pages before it.
    pub open spec fn offset(self) -> int {
        (self.page_or_default() - 1) * self.limit_or_default()
    }

    /// The options name a page that the record store can be asked for: pages
    /// count from 1, and limit and offset stay within [`MAX_WINDOW`].
    pub open spec fn in_range(self) -> bool {
        &&& self.page_or_default() >= 1
        &&& self.limit_or_default() <= MAX_WINDOW
        &&& self.offset() <= MAX_WINDOW
    }

    /// The rows to ask the record store for: `limit` rows after the first
    /// `(page - 1) * limit`. `None` where the options name no page that the
    /// store can be asked for.
    pub open spec fn window_of(self) -> Option<PageWindow> {
        if self.in_range() {
            Some(
                PageWindow {
                    limit: self.limit_or_default() as usize,
                    offset: self.offset() as usize,
                },
            )
        } else {
            None
        }
    }

    /// The rows to ask the record store for, or `None` where the options name
    /// no page that it can be asked for.
    pub fn window(&self) -> (window: Option<PageWindow>)
        ensures
            window == self.window_of(),
    {
        let page: usize = match self.page {
            Some(page) => page,
            None => DEFAULT_PAGE,
        };
        let limit: usize = match self.limit {
            Some(limit) => limit,
            None => DEFAULT_LIMIT,
        };
        if page < 1 || limit > MAX_WINDOW {
            return None;
        }
        let before: usize = page - 1;
        if limit == 0 {
            assert(before * limit == 0) by (nonlinear_arith)
                requires
                    limit == 0,
            ;
            return Some(PageWindow { limit, offset: 0 });
        }
        if before > MAX_WINDOW / limit {
            assert(before * limit > MAX_WINDOW) by (nonlinear_arith)
                requires
                    limit > 0,
                    before > MAX_WINDOW / limit,
            ;
            return None;
        }
        assert(before * limit <= MAX_WINDOW) by (nonlinear_arith)
            requires
                limit > 0,
                before <= MAX_WINDOW / limit,
        ;
        Some(PageWindow { limit, offset: before * limit })
    }
}

/// The path options of a request that names one user.
#[derive(Debug, PartialEq, Eq)]
pub struct ParamOptions {
    pub id: String,
}

/// The body of a registration.
#[derive(Debug, PartialEq, Eq)]
pub struct CreateUserSchema {
    pub user_name: String,
    pub email: String,
    /// The referral code of the user who brought the new one, if any did.
    pub ref_code: Option<String>,
}

/// The mathematical value of a [`CreateUserSchema`].
pub struct CreateUserView {
    pub user_name: Seq<char>,
    pub email: Seq<char>,
    pub ref_code: Option<Seq<char>>,
}

impl View for CreateUserSchema {
    type V = CreateUserView;

    open spec fn view(&self) -> CreateUserView {
        CreateUserView {
            user_name: self.user_name@,
            email: self.email@,
            ref_code: text_view(self.ref_code),
        }
    }
}

/// The body of a change to a user: a member that is absent leaves the user's
/// value as it is.
#[derive(Debug, PartialEq, Eq)]
pub struct UpdateUserSchema {
    pub user_name: Option<String>,
    pub email: Option<String>,
}

/// The mathematical value of an [`UpdateUserSchema`].
pub struct UpdateUserView {
    pub user_name: Option<Seq<char>>,
    pub email: Option<Seq<char>>,
}

impl View for UpdateUserSchema {
    type V = UpdateUserView;

    open spec fn view(&self) -> UpdateUserView {
        UpdateUserView { user_name: text_view(self.user_name), email: text_view(self.email) }
    }
}

} // verus!
