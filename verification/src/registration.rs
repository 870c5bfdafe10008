//! A registration, step by step. The record store is the caller's: at each
//! step the registration names the statement to run, and the caller reports
//! what the store answered. The order is fixed: resolve the referral code,
//! credit the referrer, make the new user's own code, insert the user, and
//! announce the user once the store holds it.

use vstd::prelude::*;
use vstd::string::StringExecFns;
use crate::codegen::referral_code;
use crate::codegen::referral_code_text;
use crate::codegen::short_name_text;
use crate::model::RegistrationEvent;
use crate::model::user_view;
use crate::model::UserModel;
use crate::model::UserView;
use crate::referral::not_found;
use crate::referral::referrer_not_found_text;
use crate::response::ApiError;
use crate::response::ApiErrorView;
use crate::response::Response;
use crate::response::ResponseView;
use crate::schema::CreateUserSchema;
use crate::schema::CreateUserView;
use crate::store::FailureKind;
use crate::store::NewUser;
use crate::store::NewUserView;
use crate::store::StoreError;
use crate::store::StoreErrorView;
use crate::trusted::fresh_uuid;
use crate::trusted::is_random_uuid;

verus! {

/// What a registration that collides with an existing user is answered with.
pub open spec fn conflict_text() -> Seq<char> {
    "user with that email already exists"@
}

/// What a registration that succeeded is answered with.
pub open spec fn created_text() -> Seq<char> {
    "User created successfully"@
}

/// How a registration ended: the answer to the client, and the event to
/// publish where a user was created.
#[derive(Debug, PartialEq, Eq)]
pub struct Settled {
    pub response: Response,
    pub event: Option<RegistrationEvent>,
}

/// The mathematical value of a [`Settled`].
pub struct SettledView {
    pub response: ResponseView,
    pub event: Option<UserView>,
}

/// The view of an optional event.
pub open spec fn event_view(event: Option<RegistrationEvent>) -> Option<UserView> {
    match event {
        Some(e) => Some(e@),
        None => None,
    }
}

impl View for Settled {
    type V = SettledView;

    open spec fn view(&self) -> SettledView {
        SettledView { response: self.response@, event: event_view(self.event) }
    }
}

impl SettledView {
    /// The registration was refused: the client learns why, and nothing is
    /// published.
    pub open spec fn refused(error: ApiErrorView) -> SettledView {
        SettledView { response: error.response(), event: None }
    }

    /// The registration created `user`: the client receives the user, and
    /// the user is published.
    pub open spec fn created(user: UserView) -> SettledView {
        SettledView {
            response: ResponseView::user(201, Some(created_text()), user),
            event: Some(user),
        }
    }
}

/// The statement that the caller is to run against its record store.
#[derive(Debug, PartialEq, Eq)]
pub enum Command {
    /// Look for the user with this referral code.
    FindReferrer { ref_code: String },
    /// Add one to the signup counter of this user, in one statement.
    CreditReferrer { referrer: u128 },
    /// Insert this row.
    InsertUser { row: NewUser },
}

/// The mathematical value of a [`Command`].
pub enum CommandView {
    FindReferrer { ref_code: Seq<char> },
    CreditReferrer { referrer: u128 },
    InsertUser { row: NewUserView },
}

impl View for Command {
    type V = CommandView;

    open spec fn view(&self) -> CommandView {
        match *self {
            Command::FindReferrer { ref_code } => CommandView::FindReferrer { ref_code: ref_code@ },
            Command::CreditReferrer { referrer } => CommandView::CreditReferrer { referrer },
            Command::InsertUser { row } => CommandView::InsertUser { row: row@ },
        }
    }
}

/// What the record store answered to a command.
#[derive(Debug, PartialEq, Eq)]
pub enum Reply {
    /// The user that `FindReferrer` found, if it found one.
    Referrer(Option<UserModel>),
    /// Whether the credit of `CreditReferrer` was committed.
    Credit(bool),
    /// The row that `InsertUser` created, or why the store refused it.
    Insert(Result<UserModel, StoreError>),
}

/// The mathematical value of a [`Reply`].
pub enum ReplyView {
    Referrer(Option<UserView>),
    Credit(bool),
    Insert(Result<UserView, StoreErrorView>),
}

impl View for Reply {
    type V = ReplyView;

    open spec fn view(&self) -> ReplyView {
        match *self {
            Reply::Referrer(found) => ReplyView::Referrer(user_view(found)),
            Reply::Credit(committed) => ReplyView::Credit(committed),
            Reply::Insert(Ok(user)) => ReplyView::Insert(Ok(user@)),
            Reply::Insert(Err(error)) => ReplyView::Insert(Err(error@)),
        }
    }
}

/// A registration that waits for the record store to answer a statement.
#[derive(Debug, PartialEq, Eq)]
pub enum Registration {
    /// The referral code that the request cites is being looked up.
    ResolvingReferrer { body: CreateUserSchema, ref_code: String, token: u128 },
    /// The user who owns the referral code is being credited.
    CreditingReferrer { body: CreateUserSchema, token: u128, referrer: u128 },
    /// The new user is being inserted.
    Inserting { row: NewUser },
}

/// The mathematical value of a [`Registration`].
pub enum RegistrationView {
    ResolvingReferrer { body: CreateUserView, ref_code: Seq<char>, token: u128 },
    CreditingReferrer { body: CreateUserView, token: u128, referrer: u128 },
    Inserting { row: NewUserView },
}

impl View for Registration {
    type V = RegistrationView;

    open spec fn view(&self) -> RegistrationView {
        match *self {
            Registration::ResolvingReferrer { body, ref_code, token } => {
                RegistrationView::ResolvingReferrer { body: body@, ref_code: ref_code@, token }
            },
            Registration::CreditingReferrer { body, token, referrer } => {
                RegistrationView::CreditingReferrer { body: body@, token, referrer }
            },
            Registration::Inserting { row } => RegistrationView::Inserting { row: row@ },
        }
    }
}

/// Where a registration stands after a step.
#[derive(Debug, PartialEq, Eq)]
pub enum Step {
    /// It waits for the store to answer its next statement.
    Ask(Registration),
    /// It has ended.
    Done(Settled),
}

/// The mathematical value of a [`Step`].
pub enum StepView {
    Ask(RegistrationView),
    Done(SettledView),
}

impl View for Step {
    type V = StepView;

    open spec fn view(&self) -> StepView {
        match *self {
            Step::Ask(state) => StepView::Ask(state@),
            Step::Done(settled) => StepView::Done(settled@),
        }
    }
}

impl StepView {
    /// How many statements the registration may still ask for.
    pub open spec fn steps_left(self) -> nat {
        match self {
            StepView::Ask(state) => state.steps_left(),
            StepView::Done(_) => 0,
        }
    }
}

impl RegistrationView {
    /// The step that makes the new user's own referral code from the name
    /// and the UUID `token`, and goes on to insert the user with a signup
    /// counter of zero. A name too short for a code ends the registration.
    pub open spec fn prepare(body: CreateUserView, token: u128) -> StepView {
        match referral_code_text(body.user_name, token) {
            Some(code) => StepView::Ask(
                RegistrationView::Inserting {
                    row: NewUserView {
                        email: body.email,
                        user_name: body.user_name,
                        ref_code: code,
                        added_by_ref_code: 0,
                    },
                },
            ),
            None => StepView::Done(
                SettledView::refused(ApiErrorView::Validation(short_name_text())),
            ),
        }
    }

    /// The first step: a request that cites a referral code has it resolved;
    /// any other goes on to make the user's own code.
    pub open spec fn begin(body: CreateUserView, token: u128) -> StepView {
        match body.ref_code {
            Some(ref_code) => StepView::Ask(
                RegistrationView::ResolvingReferrer { body, ref_code, token },
            ),
            None => RegistrationView::prepare(body, token),
        }
    }

    /// The statement that the registration waits for.
    pub open spec fn command(self) -> CommandView {
        match self {
            RegistrationView::ResolvingReferrer { ref_code, .. } => CommandView::FindReferrer {
                ref_code,
            },
            RegistrationView::CreditingReferrer { referrer, .. } => CommandView::CreditReferrer {
                referrer,
            },
            RegistrationView::Inserting { row } => CommandView::InsertUser { row },
        }
    }

    /// The reply answers the statement that the registration waits for.
    pub open spec fn expects(self, reply: ReplyView) -> bool {
        match (self, reply) {
            (RegistrationView::ResolvingReferrer { .. }, ReplyView::Referrer(_)) => true,
            (RegistrationView::CreditingReferrer { .. }, ReplyView::Credit(_)) => true,
            (RegistrationView::Inserting { .. }, ReplyView::Insert(_)) => true,
            _ => false,
        }
    }

    /// How a registration ends once the store has answered the insertion: a
    /// uniqueness violation is a conflict, any other failure is the
    /// service's own, and a row that was created is handed to the client and
    /// published.
    pub open spec fn inserted(outcome: Result<UserView, StoreErrorView>) -> SettledView {
        match outcome {
            Ok(user) => SettledView::created(user),
            Err(error) => match error.kind {
                FailureKind::UniqueViolation => SettledView::refused(
                    ApiErrorView::Conflict(conflict_text()),
                ),
                FailureKind::Other => SettledView::refused(ApiErrorView::Internal(error.detail)),
            },
        }
    }

    /// The step that the store's reply leads to. A referral code that the
    /// store does not know ends the registration before anything is written.
    /// Whether the credit was committed makes no difference to what follows.
    /// A reply to a statement that the registration does not wait for
    /// changes nothing.
    pub open spec fn advance(self, reply: ReplyView) -> StepView {
        match (self, reply) {
            (
                RegistrationView::ResolvingReferrer { body, ref_code, token },
                ReplyView::Referrer(found),
            ) => match found {
                Some(referrer) => StepView::Ask(
                    RegistrationView::CreditingReferrer { body, token, referrer: referrer.id },
                ),
                None => StepView::Done(
                    SettledView::refused(ApiErrorView::NotFound(referrer_not_found_text(ref_code))),
                ),
            },
            (RegistrationView::CreditingReferrer { body, token, .. }, ReplyView::Credit(_)) => {
                RegistrationView::prepare(body, token)
            },
            (RegistrationView::Inserting { .. }, ReplyView::Insert(outcome)) => StepView::Done(
                RegistrationView::inserted(outcome),
            ),
            _ => StepView::Ask(self),
        }
    }

    /// How many statements the registration may still ask for.
    pub open spec fn steps_left(self) -> nat {
        match self {
            RegistrationView::ResolvingReferrer { .. } => 3,
            RegistrationView::CreditingReferrer { .. } => 2,
            RegistrationView::Inserting { .. } => 1,
        }
    }
}

impl Reply {
    /// The reply to `CreditReferrer` for which the record store gave
    /// `outcome`: the number of rows that the statement changed, or its
    /// failure. The credit is committed where the statement changed a row.
    pub fn credited(outcome: Result<u64, StoreError>) -> (reply: Reply)
        ensures
            reply@ == ReplyView::Credit(outcome matches Ok(rows_affected) && rows_affected > 0),
    {
        match outcome {
            Ok(rows_affected) => Reply::Credit(rows_affected > 0),
            Err(_) => Reply::Credit(false),
        }
    }
}

impl Settled {
    /// The end of a registration that was refused.
    fn refused(error: ApiError) -> (settled: Settled)
        ensures
            settled@ == SettledView::refused(error@),
    {
        Settled { response: error.into_response(), event: None }
    }
}

impl Registration {
    /// Makes the new user's own referral code and goes on to the insertion.
    fn prepare(body: CreateUserSchema, token: u128) -> (step: Step)
        ensures
            step@ == RegistrationView::prepare(body@, token),
    {
        match referral_code(body.user_name.as_str(), token) {
            Ok(code) => Step::Ask(
                Registration::Inserting {
                    row: NewUser {
                        email: body.email,
                        user_name: body.user_name,
                        ref_code: code,
                        added_by_ref_code: 0,
                    },
                },
            ),
            Err(error) => Step::Done(Settled::refused(error)),
        }
    }

    /// Begins the registration that `body` asks for. `token` is the value of
    /// the UUID from which the new user's referral code takes its end.
    pub fn begin(body: CreateUserSchema, token: u128) -> (step: Step)
        ensures
            step@ == RegistrationView::begin(body@, token),
    {
        match &body.ref_code {
            Some(cited) => {
                let ref_code = cited.clone();
                Step::Ask(Registration::ResolvingReferrer { body, ref_code, token })
            },
            None => Registration::prepare(body, token),
        }
    }

    /// Begins the registration that `body` asks for, with a UUID drawn at
    /// random for the new user's referral code.
    pub fn start(body: CreateUserSchema) -> (step: Step)
        ensures
            exists|token: u128|
                is_random_uuid(token) && step@ == #[trigger] RegistrationView::begin(body@, token),
    {
        let token = fresh_uuid();
        Registration::begin(body, token)
    }

    /// The statement that the caller is to run next.
    pub fn command(&self) -> (command: Command)
        ensures
            command@ == self@.command(),
    {
        match self {
            Registration::ResolvingReferrer { ref_code, .. } => Command::FindReferrer {
                ref_code: ref_code.clone(),
            },
            Registration::CreditingReferrer { referrer, .. } => Command::CreditReferrer {
                referrer: *referrer,
            },
            Registration::Inserting { row } => Command::InsertUser {
                row: NewUser {
                    email: row.email.clone(),
                    user_name: row.user_name.clone(),
                    ref_code: row.ref_code.clone(),
                    added_by_ref_code: row.added_by_ref_code,
                },
            },
        }
    }

    /// Takes the store's reply to the statement that was run, and says how
    /// the registration goes on or ends.
    pub fn advance(self, reply: Reply) -> (step: Step)
        ensures
            step@ == self@.advance(reply@),
    {
        match (self, reply) {
            (Registration::ResolvingReferrer { body, ref_code, token }, Reply::Referrer(found)) => {
                match found {
                    Some(referrer) => Step::Ask(
                        Registration::CreditingReferrer { body, token, referrer: referrer.id },
                    ),
                    None => Step::Done(Settled::refused(not_found(ref_code.as_str()))),
                }
            },
            (Registration::CreditingReferrer { body, token, .. }, Reply::Credit(_)) => {
                Registration::prepare(body, token)
            },
            (Registration::Inserting { .. }, Reply::Insert(outcome)) => {
                let settled = match outcome {
                    Ok(user) => {
                        let event = RegistrationEvent { user: user.clone() };
                        Settled {
                            response: Response::user(
                                201,
                                Some(String::from_str("User created successfully")),
                                user,
                            ),
                            event: Some(event),
                        }
                    },
                    Err(error) => match error.kind {
                        FailureKind::UniqueViolation => Settled::refused(
                            ApiError::Conflict(
                                String::from_str("user with that email already exists"),
                            ),
                        ),
                        FailureKind::Other => Settled::refused(ApiError::Internal(error.detail)),
                    },
                };
                Step::Done(settled)
            },
            (state, _) => Step::Ask(state),
        }
    }
}

} // verus!
