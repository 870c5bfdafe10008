use invito::model::RegistrationEvent;
use invito::model::UserModel;
use invito::registration::Command;
use invito::registration::Registration;
use invito::registration::Reply;
use invito::registration::Settled;
use invito::registration::Step;
use invito::response::Outcome;
use invito::response::Payload;
use invito::response::Response;
use invito::schema::CreateUserSchema;
use invito::store::FailureKind;
use invito::store::NewUser;
use invito::store::StoreError;

const TOKEN: u128 = 0x1f2a3b4c_5d6e_4f70_8a9b_0c1d2e3f4051;

fn body(name: &str, email: &str, cited: Option<&str>) -> CreateUserSchema {
    CreateUserSchema {
        user_name: name.to_string(),
        email: email.to_string(),
        ref_code: cited.map(|code| code.to_string()),
    }
}

fn user(id: u128, name: &str, email: &str, code: &str) -> UserModel {
    UserModel {
        id,
        user_name: name.to_string(),
        email: email.to_string(),
        ref_code: code.to_string(),
        added_by_ref_code: 0,
        created_at: Some(1),
        updated_at: Some(1),
    }
}

fn asked(step: Step) -> Registration {
    match step {
        Step::Ask(state) => state,
        Step::Done(settled) => panic!("ended early: {:?}", settled),
    }
}

fn ended(step: Step) -> Settled {
    match step {
        Step::Done(settled) => settled,
        Step::Ask(state) => panic!("still asking: {:?}", state),
    }
}

fn fail(status: u16, outcome: Outcome, text: &str) -> Response {
    Response { status, outcome, payload: Payload::Message { message: text.to_string() } }
}

#[test]
fn registration_without_referral_goes_straight_to_the_insertion() {
    let state = asked(Registration::begin(body("bob", "b@x.com", None), TOKEN));
    let expected = NewUser {
        email: "b@x.com".to_string(),
        user_name: "bob".to_string(),
        ref_code: "bob1f2a".to_string(),
        added_by_ref_code: 0,
    };
    assert_eq!(state.command(), Command::InsertUser { row: expected });
}

#[test]
fn registration_with_referral_resolves_credits_then_inserts() {
    let state = asked(Registration::begin(body("bob", "b@x.com", Some("ann1f2a")), TOKEN));
    assert_eq!(state.command(), Command::FindReferrer { ref_code: "ann1f2a".to_string() });
    let ann = user(77, "ann", "a@x.com", "ann1f2a");
    let state = asked(state.advance(Reply::Referrer(Some(ann))));
    assert_eq!(state.command(), Command::CreditReferrer { referrer: 77 });
    let state = asked(state.advance(Reply::Credit(true)));
    match state.command() {
        Command::InsertUser { row } => {
            assert_eq!(row.user_name, "bob");
            assert_eq!(row.email, "b@x.com");
            assert_eq!(row.ref_code, "bob1f2a");
            assert_eq!(row.added_by_ref_code, 0);
        }
        other => panic!("unexpected command {:?}", other),
    }
    let bob = user(78, "bob", "b@x.com", "bob1f2a");
    let settled = ended(state.advance(Reply::Insert(Ok(bob.clone()))));
    assert_eq!(settled.event, Some(RegistrationEvent { user: bob.clone() }));
    assert_eq!(
        settled.response,
        Response {
            status: 201,
            outcome: Outcome::Success,
            payload: Payload::User {
                note: Some("User created successfully".to_string()),
                user: bob,
            },
        }
    );
}

#[test]
fn a_failed_credit_does_not_stop_the_registration() {
    let state = asked(Registration::begin(body("bob", "b@x.com", Some("ann1f2a")), TOKEN));
    let state = asked(state.advance(Reply::Referrer(Some(user(77, "ann", "a@x.com", "ann1f2a")))));
    let state = asked(state.advance(Reply::Credit(false)));
    assert!(matches!(state.command(), Command::InsertUser { .. }));
}

#[test]
fn an_unknown_referral_code_ends_the_registration_with_404() {
    let state = asked(Registration::begin(body("bob", "b@x.com", Some("doesnotexist")), TOKEN));
    let settled = ended(state.advance(Reply::Referrer(None)));
    assert_eq!(settled.event, None);
    assert_eq!(
        settled.response,
        fail(404, Outcome::Fail, "User with referral code: doesnotexist not found")
    );
}

#[test]
fn a_short_name_ends_the_registration_as_malformed() {
    let settled = ended(Registration::begin(body("bo", "b@x.com", None), TOKEN));
    assert_eq!(settled.event, None);
    assert_eq!(
        settled.response,
        fail(400, Outcome::Fail, "user_name must have at least 3 characters")
    );
}

#[test]
fn a_short_name_is_found_out_after_the_credit() {
    let state = asked(Registration::begin(body("bo", "b@x.com", Some("ann1f2a")), TOKEN));
    let state = asked(state.advance(Reply::Referrer(Some(user(77, "ann", "a@x.com", "ann1f2a")))));
    assert_eq!(state.command(), Command::CreditReferrer { referrer: 77 });
    let settled = ended(state.advance(Reply::Credit(true)));
    assert_eq!(settled.response.status, 400);
    assert_eq!(settled.event, None);
}

#[test]
fn a_uniqueness_violation_ends_the_registration_with_409() {
    let state = asked(Registration::begin(body("bob", "b@x.com", None), TOKEN));
    let error = StoreError {
        kind: FailureKind::UniqueViolation,
        detail: "Database(PgDatabaseError)".to_string(),
    };
    let settled = ended(state.advance(Reply::Insert(Err(error))));
    assert_eq!(settled.event, None);
    assert_eq!(settled.response, fail(409, Outcome::Fail, "user with that email already exists"));
}

#[test]
fn another_store_failure_ends_the_registration_with_500() {
    let state = asked(Registration::begin(body("bob", "b@x.com", None), TOKEN));
    let error = StoreError { kind: FailureKind::Other, detail: "PoolTimedOut".to_string() };
    let settled = ended(state.advance(Reply::Insert(Err(error))));
    assert_eq!(settled.event, None);
    assert_eq!(settled.response, fail(500, Outcome::Error, "PoolTimedOut"));
}

#[test]
fn a_reply_to_another_statement_changes_nothing() {
    let state = asked(Registration::begin(body("bob", "b@x.com", Some("ann1f2a")), TOKEN));
    let state = asked(state.advance(Reply::Credit(true)));
    assert_eq!(state.command(), Command::FindReferrer { ref_code: "ann1f2a".to_string() });
    let state = asked(state.advance(Reply::Insert(Ok(user(1, "bob", "b@x.com", "bob1f2a")))));
    assert_eq!(state.command(), Command::FindReferrer { ref_code: "ann1f2a".to_string() });
    let state = asked(Registration::begin(body("bob", "b@x.com", None), TOKEN));
    let state = asked(state.advance(Reply::Referrer(None)));
    assert!(matches!(state.command(), Command::InsertUser { .. }));
}

#[test]
fn a_credit_is_committed_where_the_statement_changed_a_row() {
    assert_eq!(Reply::credited(Ok(1)), Reply::Credit(true));
    assert_eq!(Reply::credited(Ok(0)), Reply::Credit(false));
    let error = StoreError { kind: FailureKind::Other, detail: "PoolTimedOut".to_string() };
    assert_eq!(Reply::credited(Err(error)), Reply::Credit(false));
}

#[test]
fn start_draws_the_end_of_the_code_at_random() {
    let state = asked(Registration::start(body("bob", "b@x.com", None)));
    match state.command() {
        Command::InsertUser { row } => {
            assert_eq!(row.ref_code.chars().count(), 7);
            assert!(row.ref_code.starts_with("bob"));
        }
        other => panic!("unexpected command {:?}", other),
    }
}
