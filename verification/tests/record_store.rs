use invito::model::UserModel;
use invito::schema::PageWindow;
use invito::store::FailureKind;
use invito::store::NewUser;
use invito::store::UserChange;
use invito::store::UserStore;

fn new_user(name: &str, email: &str, code: &str) -> NewUser {
    NewUser {
        email: email.to_string(),
        user_name: name.to_string(),
        ref_code: code.to_string(),
        added_by_ref_code: 0,
    }
}

fn store_of_three() -> UserStore {
    let mut store = UserStore::new();
    store.insert(20, new_user("bob", "b@x.com", "bob0002"), 200).unwrap();
    store.insert(10, new_user("ann", "a@x.com", "ann0001"), 100).unwrap();
    store.insert(30, new_user("cyd", "c@x.com", "cyd0003"), 300).unwrap();
    store
}

fn ids(rows: &[UserModel]) -> Vec<u128> {
    rows.iter().map(|row| row.id).collect()
}

#[test]
fn new_store_is_empty() {
    let store = UserStore::new();
    assert_eq!(store.len(), 0);
    assert_eq!(store.find_by_id(1), None);
    assert_eq!(store.list(PageWindow { limit: 10, offset: 0 }), Vec::<UserModel>::new());
}

#[test]
fn insert_hands_back_the_row_with_identity_and_timestamps() {
    let mut store = UserStore::new();
    let row = store.insert(7, new_user("ann", "a@x.com", "ann1f2a"), 1234).unwrap();
    let expected = UserModel {
        id: 7,
        user_name: "ann".to_string(),
        email: "a@x.com".to_string(),
        ref_code: "ann1f2a".to_string(),
        added_by_ref_code: 0,
        created_at: Some(1234),
        updated_at: Some(1234),
    };
    assert_eq!(row, expected);
    assert_eq!(store.len(), 1);
    assert_eq!(store.find_by_id(7), Some(expected));
}

#[test]
fn rows_stand_in_the_order_of_their_identities() {
    let store = store_of_three();
    let all = store.list(PageWindow { limit: 10, offset: 0 });
    assert_eq!(ids(&all), vec![10, 20, 30]);
}

#[test]
fn insert_refuses_each_value_that_must_be_unique() {
    let mut store = store_of_three();
    let same_id = store.insert(10, new_user("dan", "d@x.com", "dan0004"), 1).unwrap_err();
    assert_eq!(same_id.kind, FailureKind::UniqueViolation);
    assert_eq!(same_id.detail, "duplicate key value violates unique constraint");
    let same_name = store.insert(40, new_user("ann", "d@x.com", "dan0004"), 1).unwrap_err();
    assert_eq!(same_name.kind, FailureKind::UniqueViolation);
    let same_email = store.insert(40, new_user("dan", "a@x.com", "dan0004"), 1).unwrap_err();
    assert_eq!(same_email.kind, FailureKind::UniqueViolation);
    let same_code = store.insert(40, new_user("dan", "d@x.com", "ann0001"), 1).unwrap_err();
    assert_eq!(same_code.kind, FailureKind::UniqueViolation);
    assert_eq!(store.len(), 3);
    assert!(store.insert(40, new_user("dan", "d@x.com", "dan0004"), 1).is_ok());
    assert_eq!(store.len(), 4);
}

#[test]
fn find_looks_rows_up_by_identity_and_by_referral_code() {
    let store = store_of_three();
    assert_eq!(store.find_by_ref_code("bob0002").map(|row| row.id), Some(20));
    assert_eq!(store.find_by_id(10).map(|row| row.user_name), Some("ann".to_string()));
    assert_eq!(store.find_by_ref_code("bob"), None);
    assert_eq!(store.find_by_id(11), None);
}

#[test]
fn credit_adds_exactly_one_to_one_counter() {
    let mut store = store_of_three();
    assert_eq!(store.credit(20), Ok(()));
    assert_eq!(store.credit(20), Ok(()));
    assert_eq!(store.find_by_id(20).unwrap().added_by_ref_code, 2);
    assert_eq!(store.find_by_id(10).unwrap().added_by_ref_code, 0);
    assert_eq!(store.find_by_id(30).unwrap().added_by_ref_code, 0);
    assert_eq!(store.find_by_id(20).unwrap().updated_at, Some(200));
}

#[test]
fn credit_fails_without_the_user() {
    let mut store = store_of_three();
    let error = store.credit(99).unwrap_err();
    assert_eq!(error.kind, FailureKind::Other);
    assert_eq!(
        error.detail,
        "no rows returned by a query that expected to return at least one row"
    );
    assert_eq!(ids(&store.list(PageWindow { limit: 10, offset: 0 })), vec![10, 20, 30]);
}

#[test]
fn credit_fails_where_the_counter_is_full() {
    let mut store = UserStore::new();
    let mut full = new_user("ann", "a@x.com", "ann0001");
    full.added_by_ref_code = u32::MAX;
    store.insert(1, full, 0).unwrap();
    let error = store.credit(1).unwrap_err();
    assert_eq!(error.kind, FailureKind::Other);
    assert_eq!(error.detail, "integer out of range");
    assert_eq!(store.find_by_id(1).unwrap().added_by_ref_code, u32::MAX);
}

#[test]
fn update_writes_name_email_and_time() {
    let mut store = store_of_three();
    let change = UserChange {
        email: "bobby@x.com".to_string(),
        user_name: "bobby".to_string(),
        updated_at: 999,
    };
    let row = store.update(20, change).unwrap();
    assert_eq!(row.id, 20);
    assert_eq!(row.user_name, "bobby");
    assert_eq!(row.email, "bobby@x.com");
    assert_eq!(row.ref_code, "bob0002");
    assert_eq!(row.created_at, Some(200));
    assert_eq!(row.updated_at, Some(999));
    assert_eq!(store.find_by_id(20), Some(row));
}

#[test]
fn update_may_keep_the_users_own_values() {
    let mut store = store_of_three();
    let change =
        UserChange { email: "b@x.com".to_string(), user_name: "bob".to_string(), updated_at: 5 };
    assert!(store.update(20, change).is_ok());
}

#[test]
fn update_refuses_the_name_or_email_of_another_user() {
    let mut store = store_of_three();
    let taken_name =
        UserChange { email: "b@x.com".to_string(), user_name: "ann".to_string(), updated_at: 5 };
    let error = store.update(20, taken_name).unwrap_err();
    assert_eq!(error.kind, FailureKind::UniqueViolation);
    assert_eq!(error.detail, "duplicate key value violates unique constraint");
    let taken_email =
        UserChange { email: "c@x.com".to_string(), user_name: "bob".to_string(), updated_at: 5 };
    assert_eq!(store.update(20, taken_email).unwrap_err().kind, FailureKind::UniqueViolation);
    assert_eq!(store.find_by_id(20).unwrap().updated_at, Some(200));
}

#[test]
fn update_fails_without_the_user() {
    let mut store = store_of_three();
    let change =
        UserChange { email: "z@x.com".to_string(), user_name: "zed".to_string(), updated_at: 5 };
    let error = store.update(99, change).unwrap_err();
    assert_eq!(error.kind, FailureKind::Other);
    assert_eq!(
        error.detail,
        "no rows returned by a query that expected to return at least one row"
    );
}

#[test]
fn delete_removes_one_row_and_then_none() {
    let mut store = store_of_three();
    assert_eq!(store.delete(20), 1);
    assert_eq!(ids(&store.list(PageWindow { limit: 10, offset: 0 })), vec![10, 30]);
    assert_eq!(store.delete(20), 0);
    assert_eq!(store.delete(99), 0);
    assert_eq!(store.len(), 2);
}

#[test]
fn list_cuts_the_page_out_of_the_table() {
    let store = store_of_three();
    assert_eq!(ids(&store.list(PageWindow { limit: 2, offset: 0 })), vec![10, 20]);
    assert_eq!(ids(&store.list(PageWindow { limit: 2, offset: 2 })), vec![30]);
    assert_eq!(ids(&store.list(PageWindow { limit: 2, offset: 3 })), Vec::<u128>::new());
    assert_eq!(ids(&store.list(PageWindow { limit: 2, offset: 50 })), Vec::<u128>::new());
    assert_eq!(ids(&store.list(PageWindow { limit: 0, offset: 1 })), Vec::<u128>::new());
    assert_eq!(ids(&store.list(PageWindow { limit: usize::MAX, offset: 1 })), vec![20, 30]);
}
