//! The answers of the service, request by request, over a record store that
//! is kept in memory and the broadcast hub.

use vstd::prelude::*;
use vstd::string::StringExecFns;
use crate::codegen::referral_code_text;
use crate::codegen::short_name_text;
use crate::hub::BroadcastHub;
use crate::hub::HubView;
use crate::live::LiveConnection;
use crate::live::LiveConnectionView;
use crate::model::rows_view;
use crate::model::user_view;
use crate::model::UserModel;
use crate::model::UserView;
use crate::referral::credit;
use crate::referral::referrer_not_found_text;
use crate::referral::resolve;
use crate::registration::Command;
use crate::registration::CommandView;
use crate::registration::conflict_text;
use crate::registration::Registration;
use crate::registration::RegistrationView;
use crate::registration::Reply;
use crate::registration::ReplyView;
use crate::registration::SettledView;
use crate::registration::Step;
use crate::registration::StepView;
use crate::response::ApiErrorView;
use crate::response::Outcome;
use crate::response::Response;
use crate::response::ResponseView;
use crate::schema::CreateUserSchema;
use crate::schema::CreateUserView;
use crate::schema::FilterOptions;
use crate::schema::PageWindow;
use crate::schema::UpdateUserSchema;
use crate::schema::UpdateUserView;
use crate::store::FailureKind;
use crate::store::NewUserView;
use crate::store::StoreError;
use crate::store::StoreErrorView;
use crate::store::unique_violation_text;
use crate::store::UserChange;
use crate::store::UserChangeView;
use crate::store::UserStore;
use crate::table::changed;
use crate::table::credit_row;
use crate::table::delete_row;
use crate::table::deleted_count;
use crate::table::has_id_at;
use crate::table::index_of_id;
use crate::table::insert_row;
use crate::table::lemma_index_of_id;
use crate::table::new_row;
use crate::table::page_rows;
use crate::table::row_of_id;
use crate::table::row_of_ref_code;
use crate::table::update_row;
use crate::text::framed;
use crate::trusted::fresh_uuid;
use crate::trusted::is_random_uuid;
use crate::trusted::now_micros;
use crate::trusted::uuid_text;
use crate::trusted::uuid_to_text;

verus! {

/// What a table answers to a statement of a registration, and the table
/// after it. The table gives a new row the identity `id` and the time `now`.
pub open spec fn execute(rows: Seq<UserView>, command: CommandView, id: u128, now: i64) -> (
    Seq<UserView>,
    ReplyView,
) {
    match command {
        CommandView::FindReferrer { ref_code } => (
            rows,
            ReplyView::Referrer(row_of_ref_code(rows, ref_code)),
        ),
        CommandView::CreditReferrer { referrer } => match credit_row(rows, referrer) {
            Some(after) => (after, ReplyView::Credit(true)),
            None => (rows, ReplyView::Credit(false)),
        },
        CommandView::InsertUser { row } => match insert_row(rows, new_row(id, row, now)) {
            Some(after) => (after, ReplyView::Insert(Ok(new_row(id, row, now)))),
            None => (
                rows,
                ReplyView::Insert(
                    Err(
                        StoreErrorView {
                            kind: FailureKind::UniqueViolation,
                            detail: unique_violation_text(),
                        },
                    ),
                ),
            ),
        },
    }
}

/// How a registration that stands at `step` ends when each of its
/// statements is run against the table, and the table that it leaves.
pub open spec fn run(step: StepView, rows: Seq<UserView>, id: u128, now: i64) -> (
    Seq<UserView>,
    SettledView,
)
    decreases step.steps_left(),
{
    match step {
        StepView::Ask(state) => {
            let (after, reply) = execute(rows, state.command(), id, now);
            run(state.advance(reply), after, id, now)
        },
        StepView::Done(settled) => (rows, settled),
    }
}

/// Runs one statement of a registration against the store.
fn perform(store: &mut UserStore, command: Command, id: u128, now: i64) -> (reply: Reply)
    requires
        old(store).wf(),
    ensures
        final(store).wf(),
        (final(store)@, reply@) == execute(old(store)@, command@, id, now),
{
    match command {
        Command::FindReferrer { ref_code } => Reply::Referrer(
            resolve(store, ref_code.as_str()).ok(),
        ),
        Command::CreditReferrer { referrer } => Reply::Credit(credit(store, referrer)),
        Command::InsertUser { row } => Reply::Insert(store.insert(id, row, now)),
    }
}

/// Publishes the event of a registration that created a user; any other
/// end publishes nothing.
pub open spec fn announced(hub: HubView, event: Option<UserView>) -> HubView {
    match event {
        Some(user) => hub.publish(user),
        None => hub,
    }
}

/// The table after the owner of the cited referral code was credited. A
/// credit that the store does not commit leaves the table as it is, and so
/// does a request that cites no code.
pub open spec fn credited_rows(rows: Seq<UserView>, cited: Option<Seq<char>>) -> Seq<UserView> {
    match cited {
        Some(ref_code) => match row_of_ref_code(rows, ref_code) {
            Some(referrer) => match credit_row(rows, referrer.id) {
                Some(after) => after,
                None => rows,
            },
            None => rows,
        },
        None => rows,
    }
}

/// The row that a registration inserts: the name and the email address of
/// the request, the user's own referral code, and a signup counter of zero.
pub open spec fn registered_row(
    body: CreateUserView,
    own_code: Seq<char>,
    id: u128,
    now: i64,
) -> UserView {
    new_row(
        id,
        NewUserView {
            email: body.email,
            user_name: body.user_name,
            ref_code: own_code,
            added_by_ref_code: 0,
        },
        now,
    )
}

/// What a registration leaves behind: the table, and how it ended.
pub struct Registered {
    pub rows: Seq<UserView>,
    pub end: SettledView,
}

/// The registration that `body` asks for, against the table `rows`. The
/// store gives the new row the identity `id` and the time `now`; `token` is
/// the UUID that ends the new user's referral code.
///
/// A cited referral code that no user owns ends the registration with
/// nothing written. Else the owner is credited, the new user's code is made
/// (a name too short for one ends the registration, the credit stays), and
/// the user is inserted: a row that the constraints refuse is a conflict,
/// the credit stays; a row that was created is handed back and published.
pub open spec fn registered(
    rows: Seq<UserView>,
    body: CreateUserView,
    id: u128,
    token: u128,
    now: i64,
) -> Registered {
    match body.ref_code {
        Some(ref_code) if row_of_ref_code(rows, ref_code) is None => Registered {
            rows,
            end: SettledView::refused(ApiErrorView::NotFound(referrer_not_found_text(ref_code))),
        },
        _ => {
            let credited = credited_rows(rows, body.ref_code);
            match referral_code_text(body.user_name, token) {
                None => Registered {
                    rows: credited,
                    end: SettledView::refused(ApiErrorView::Validation(short_name_text())),
                },
                Some(own_code) => {
                    let row = registered_row(body, own_code, id, now);
                    match insert_row(credited, row) {
                        Some(after) => Registered { rows: after, end: SettledView::created(row) },
                        None => Registered {
                            rows: credited,
                            end: SettledView::refused(ApiErrorView::Conflict(conflict_text())),
                        },
                    }
                },
            }
        },
    }
}

/// A registration that is run statement by statement against a table ends
/// as [`registered`] says, and leaves the table that it says.
pub proof fn lemma_run_registered(
    rows: Seq<UserView>,
    body: CreateUserView,
    id: u128,
    token: u128,
    now: i64,
)
    ensures
        run(RegistrationView::begin(body, token), rows, id, now) == (
            registered(rows, body, id, token, now).rows,
            registered(rows, body, id, token, now).end,
        ),
{
    reveal_with_fuel(run, 4);
}

/// Registers the user that `body` describes: runs the registration against
/// the store and publishes the new user to the hub. The store gives the new
/// row the identity `id` and the time `now`; `token` is the UUID that ends
/// the new user's referral code.
pub fn register(
    store: &mut UserStore,
    hub: &mut BroadcastHub,
    body: CreateUserSchema,
    id: u128,
    token: u128,
    now: i64,
) -> (response: Response)
    requires
        old(store).wf(),
        old(hub).wf(),
    ensures
        final(store).wf(),
        final(hub).wf(),
        final(store)@ == registered(old(store)@, body@, id, token, now).rows,
        response@ == registered(old(store)@, body@, id, token, now).end.response,
        final(hub)@ == announced(
            old(hub)@,
            registered(old(store)@, body@, id, token, now).end.event,
        ),
{
    proof {
        lemma_run_registered(store@, body@, id, token, now);
    }
    let ghost want = registered(store@, body@, id, token, now);
    let mut step = Registration::begin(body, token);
    loop
        invariant
            store.wf(),
            hub.wf(),
            hub@ == old(hub)@,
            want == registered(old(store)@, body@, id, token, now),
            run(step@, store@, id, now) == (want.rows, want.end),
        decreases step@.steps_left(),
    {
        match step {
            Step::Done(settled) => {
                match &settled.event {
                    Some(event) => {
                        let _ = hub.publish(event);
                    },
                    None => {},
                }
                return settled.response;
            },
            Step::Ask(state) => {
                let reply = perform(store, state.command(), id, now);
                step = state.advance(reply);
            },
        }
    }
}

/// Registers the user that `body` describes, with an identity and a
/// referral code drawn at random and the time read from the clock.
pub fn create_user_handler(
    store: &mut UserStore,
    hub: &mut BroadcastHub,
    body: CreateUserSchema,
) -> (response: Response)
    requires
        old(store).wf(),
        old(hub).wf(),
    ensures
        final(store).wf(),
        final(hub).wf(),
        exists|id: u128, token: u128, now: i64|
            {
                let after = #[trigger] registered(old(store)@, body@, id, token, now);
                &&& is_random_uuid(id)
                &&& is_random_uuid(token)
                &&& final(store)@ == after.rows
                &&& response@ == after.end.response
                &&& final(hub)@ == announced(old(hub)@, after.end.event)
            },
{
    let id = fresh_uuid();
    let token = fresh_uuid();
    let now = now_micros();
    register(store, hub, body, id, token, now)
}

/// What the health check is answered with.
pub open spec fn health_text() -> Seq<char> {
    "Invito is running..."@
}

/// Answers the health check.
pub fn health_checker_handler() -> (response: Response)
    ensures
        response@ == ResponseView::message(200, Outcome::Success, health_text()),
{
    Response::message(200, Outcome::Success, String::from_str("Invito is running..."))
}

/// What a listing that could not be fetched is answered with.
pub open spec fn listing_failed_text() -> Seq<char> {
    "Something bad happened while fetching all user items"@
}

/// The options of a listing, with the defaults where the client sent none.
pub open spec fn options_or_default(options: Option<FilterOptions>) -> FilterOptions {
    match options {
        Some(given) => given,
        None => FilterOptions { page: None, limit: None },
    }
}

/// The answer to a listing: the rows that were fetched, or the failure
/// where none could be.
pub open spec fn listing(fetched: Option<Seq<UserView>>) -> ResponseView {
    match fetched {
        Some(users) => ResponseView::users(users),
        None => ResponseView::message(500, Outcome::Fail, listing_failed_text()),
    }
}

/// The rows that a listing with these options shows of a table.
pub open spec fn listed(rows: Seq<UserView>, options: Option<FilterOptions>) -> Option<
    Seq<UserView>,
> {
    match options_or_default(options).window_of() {
        Some(window) => Some(page_rows(rows, window)),
        None => None,
    }
}

/// The rows to ask the record store for when a client asks for a listing.
pub fn users_list_window(options: Option<FilterOptions>) -> (window: Option<PageWindow>)
    ensures
        window == options_or_default(options).window_of(),
{
    let options = match options {
        Some(given) => given,
        None => FilterOptions::default(),
    };
    options.window()
}

/// The answer to a listing for which the record store gave `fetched`;
/// `None` stands for a page that could not be fetched.
pub fn users_list_response(fetched: Option<Vec<UserModel>>) -> (response: Response)
    ensures
        response@ == listing(
            match fetched {
                Some(users) => Some(rows_view(users@)),
                None => None,
            },
        ),
{
    match fetched {
        Some(users) => Response::users(users),
        None => Response::message(
            500,
            Outcome::Fail,
            String::from_str("Something bad happened while fetching all user items"),
        ),
    }
}

/// Lists a page of users in the order of their identities.
pub fn users_list_handler(options: Option<FilterOptions>, store: &UserStore) -> (response: Response)
    ensures
        response@ == listing(listed(store@, options)),
{
    match users_list_window(options) {
        Some(window) => users_list_response(Some(store.list(window))),
        None => users_list_response(None),
    }
}

/// What a request that names an identity without a user is answered with.
pub open spec fn id_not_found_text(id: u128) -> Seq<char> {
    "User with ID: "@ + uuid_text(id) + " not found"@
}

/// The answer to a request that names an identity without a user.
pub fn user_id_not_found(id: u128) -> (response: Response)
    ensures
        response@ == ResponseView::message(404, Outcome::Fail, id_not_found_text(id)),
{
    let id_text = uuid_to_text(id);
    Response::message(404, Outcome::Fail, framed("User with ID: ", id_text.as_str(), " not found"))
}

/// The answer that shows a user, or says in `missing` that there is none.
pub open spec fn shown(found: Option<UserView>, missing: Seq<char>) -> ResponseView {
    match found {
        Some(user) => ResponseView::user(200, None, user),
        None => ResponseView::message(404, Outcome::Fail, missing),
    }
}

/// The answer to a request for the user with the identity `id`, for which
/// the record store gave `found`.
pub fn get_user_response(id: u128, found: Option<UserModel>) -> (response: Response)
    ensures
        response@ == shown(user_view(found), id_not_found_text(id)),
{
    match found {
        Some(user) => Response::user(200, None, user),
        None => user_id_not_found(id),
    }
}

/// Shows the user with the identity `id`.
pub fn get_user_handler(id: u128, store: &UserStore) -> (response: Response)
    requires
        store.wf(),
    ensures
        response@ == shown(row_of_id(store@, id), id_not_found_text(id)),
{
    get_user_response(id, store.find_by_id(id))
}

/// The text that a change writes: the one that the request gives, or the
/// current one where it gives none.
pub open spec fn given_or(given: Option<Seq<char>>, current: Seq<char>) -> Seq<char> {
    match given {
        Some(text) => text,
        None => current,
    }
}

/// The change that a request makes to a user: each member that it gives
/// replaces the user's value, each that it leaves out keeps it, and the time
/// of the last change becomes `now`.
pub open spec fn merged(body: UpdateUserView, current: UserView, now: i64) -> UserChangeView {
    UserChangeView {
        email: given_or(body.email, current.email),
        user_name: given_or(body.user_name, current.user_name),
        updated_at: now,
    }
}

/// The change that `body` makes to the user `current` at the time `now`.
pub fn merge_change(body: UpdateUserSchema, current: &UserModel, now: i64) -> (change: UserChange)
    ensures
        change@ == merged(body@, current@, now),
{
    let email = match body.email {
        Some(text) => text,
        None => current.email.clone(),
    };
    let user_name = match body.user_name {
        Some(text) => text,
        None => current.user_name.clone(),
    };
    UserChange { email, user_name, updated_at: now }
}

/// The change that `body` makes to the user `current` at the time that the
/// clock shows.
pub fn merge_change_now(body: UpdateUserSchema, current: &UserModel) -> (change: UserChange)
    ensures
        exists|now: i64| change@ == #[trigger] merged(body@, current@, now),
{
    let now = now_micros();
    merge_change(body, current, now)
}

/// The answer to a change that the record store was asked to write: the
/// user as it is now, or the store's account of why it was not written.
pub open spec fn edited(outcome: Result<UserView, StoreErrorView>) -> ResponseView {
    match outcome {
        Ok(user) => ResponseView::user(200, None, user),
        Err(error) => ResponseView::message(500, Outcome::Error, error.detail),
    }
}

/// The answer to a change for which the record store gave `outcome`.
pub fn edit_user_response(outcome: Result<UserModel, StoreError>) -> (response: Response)
    ensures
        response@ == edited(
            match outcome {
                Ok(user) => Ok(user@),
                Err(error) => Err(error@),
            },
        ),
{
    match outcome {
        Ok(user) => Response::user(200, None, user),
        Err(error) => Response::message(500, Outcome::Error, error.detail),
    }
}

/// What a change leaves behind: the table, and the answer to the client.
pub struct Edited {
    pub rows: Seq<UserView>,
    pub response: ResponseView,
}

/// The change that `body` asks for to the user `id` of the table `rows`, at
/// the time `now`. Without such a user nothing is written. A change that
/// would give the user the name or the email address of another user is not
/// written either, and is answered as a failure of the service.
pub open spec fn edit(rows: Seq<UserView>, id: u128, body: UpdateUserView, now: i64) -> Edited {
    match row_of_id(rows, id) {
        None => Edited {
            rows,
            response: ResponseView::message(404, Outcome::Fail, id_not_found_text(id)),
        },
        Some(current) => {
            let change = merged(body, current, now);
            match update_row(rows, id, change) {
                Ok(after) => Edited {
                    rows: after,
                    response: ResponseView::user(200, None, changed(current, change)),
                },
                Err(_) => Edited {
                    rows,
                    response: ResponseView::message(500, Outcome::Error, unique_violation_text()),
                },
            }
        },
    }
}

/// Changes the user `id` as `body` asks, at the time `now`.
pub fn edit_user(
    id: u128,
    store: &mut UserStore,
    body: UpdateUserSchema,
    now: i64,
) -> (response: Response)
    requires
        old(store).wf(),
    ensures
        final(store).wf(),
        final(store)@ == edit(old(store)@, id, body@, now).rows,
        response@ == edit(old(store)@, id, body@, now).response,
{
    match store.find_by_id(id) {
        None => user_id_not_found(id),
        Some(current) => {
            let change = merge_change(body, &current, now);
            proof {
                let at = index_of_id(store@, id)->0;
                assert(has_id_at(store@, id, at));
            }
            let outcome = store.update(id, change);
            proof {
                if outcome is Ok {
                    let at = index_of_id(old(store)@, id)->0;
                    lemma_index_of_id(store@, id, at);
                }
            }
            edit_user_response(outcome)
        },
    }
}

/// Changes the user `id` as `body` asks, at the time that the clock shows.
pub fn edit_user_handler(
    id: u128,
    store: &mut UserStore,
    body: UpdateUserSchema,
) -> (response: Response)
    requires
        old(store).wf(),
    ensures
        final(store).wf(),
        exists|now: i64|
            {
                let after = #[trigger] edit(old(store)@, id, body@, now);
                final(store)@ == after.rows && response@ == after.response
            },
{
    let now = now_micros();
    edit_user(id, store, body, now)
}

/// The answer to a deletion of the user `id` that removed `rows_affected`
/// rows: nothing to report where it removed one, a user that is not found
/// where it removed none.
pub open spec fn deleted(id: u128, rows_affected: int) -> ResponseView {
    if rows_affected == 0 {
        ResponseView::message(404, Outcome::Fail, id_not_found_text(id))
    } else {
        ResponseView::no_content()
    }
}

/// The answer to a deletion of the user `id` for which the record store
/// reported `rows_affected` rows.
pub fn delete_user_response(id: u128, rows_affected: u64) -> (response: Response)
    ensures
        response@ == deleted(id, rows_affected as int),
{
    if rows_affected == 0 {
        user_id_not_found(id)
    } else {
        Response::no_content()
    }
}

/// The answer to a deletion of the user `id` for which the record store gave
/// `outcome`: the number of rows that it removed, or its failure. A failure
/// of the store is the service's own and is answered with 500.
pub fn delete_user_outcome(id: u128, outcome: Result<u64, StoreError>) -> (response: Response)
    ensures
        response@ == match outcome {
            Ok(rows_affected) => deleted(id, rows_affected as int),
            Err(error) => ResponseView::message(500, Outcome::Error, error@.detail),
        },
{
    match outcome {
        Ok(rows_affected) => delete_user_response(id, rows_affected),
        Err(error) => Response::message(500, Outcome::Error, error.detail),
    }
}

/// Deletes the user `id`.
pub fn delete_user_handler(id: u128, store: &mut UserStore) -> (response: Response)
    requires
        old(store).wf(),
    ensures
        final(store).wf(),
        final(store)@ == delete_row(old(store)@, id),
        response@ == deleted(id, deleted_count(old(store)@, id)),
{
    let rows_affected = store.delete(id);
    delete_user_response(id, rows_affected)
}

/// Opens the live connection of a client that asks for live updates.
pub fn sse_handler(hub: &mut BroadcastHub) -> (connection: Option<LiveConnection>)
    requires
        old(hub).wf(),
    ensures
        final(hub).wf(),
        match connection {
            Some(opened) => {
                &&& old(hub)@.can_subscribe()
                &&& final(hub)@ == old(hub)@.subscribe()
                &&& opened@ == (LiveConnectionView {
                    subscription: old(hub)@.next_id,
                    greeted: false,
                })
            },
            None => !old(hub)@.can_subscribe() && final(hub)@ == old(hub)@,
        },
{
    LiveConnection::open(hub)
}

} // verus!
