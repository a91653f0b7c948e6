use shopdesk::error::ServiceError;
use shopdesk::handlers::{create, create_user, delete, delete_outcome, delete_user, login, update, update_user};
use shopdesk::hasher::{constant_time_eq, encode_hex, hash, HashConfig};
use shopdesk::models::{Credentials, ImageInput, OrderInput, ProductInput, UserInput};
use shopdesk::repository::Table;
use shopdesk::outcome::{
    create_outcome, delete_tx_outcome, find_all_outcome, find_by_id_outcome, should_commit,
    update_outcome, user_create_step, user_write_outcome, Fetched, UserCreateStep,
};
use shopdesk::session::Session;
use shopdesk::users::{check_credentials, match_digest, Auth, UserTable};

fn config() -> HashConfig {
    HashConfig::new("pepper-and-salt").unwrap()
}

fn user_input(username: &str, password: &str) -> UserInput {
    UserInput {
        first_name: "Alice".to_string(),
        last_name: "Liddell".to_string(),
        username: username.to_string(),
        password: password.to_string(),
        email: format!("{}@example.com", username),
    }
}

fn order(name: &str) -> OrderInput {
    OrderInput { name: name.to_string() }
}

#[test]
fn hex_encoding_is_exact() {
    assert_eq!(encode_hex(&vec![0x00, 0xab, 0xff, 0x10]), "00abff10");
    assert_eq!(encode_hex(&vec![]), "");
}

#[test]
fn salt_must_have_eight_bytes() {
    assert!(HashConfig::new("").is_none());
    assert!(HashConfig::new("1234567").is_none());
    assert!(HashConfig::new("12345678").is_some());
}

#[test]
fn hash_is_deterministic_and_salted() {
    let a = config();
    let b = HashConfig::new("another-secret").unwrap();
    let first = hash(&a, "secret");
    let second = hash(&a, "secret");
    assert_eq!(first, second);
    assert_eq!(first.len(), 64);
    assert!(first.chars().all(|c| c.is_ascii_hexdigit() && !c.is_ascii_uppercase()));
    assert_ne!(first, "secret");
    assert_ne!(hash(&b, "secret"), first);
}

#[test]
fn authenticate_accepts_only_matching_credentials() {
    let cfg = config();
    let mut users = UserTable::new();
    let created = users.create(&cfg, user_input("alice", "secret")).unwrap();
    let good = Credentials { username: "alice".to_string(), password: "secret".to_string() };
    let principal = users.authenticate(&cfg, &good).unwrap();
    assert_eq!(principal.id, created.id);
    assert_eq!(principal.fields.username, "alice");
    assert_eq!(principal.fields.password, hash(&cfg, "secret"));
    assert_ne!(principal.fields.password, good.password);

    let wrong = Credentials { username: "alice".to_string(), password: "guess".to_string() };
    let unknown = Credentials { username: "bob".to_string(), password: "secret".to_string() };
    let e1 = users.authenticate(&cfg, &wrong).unwrap_err();
    let e2 = users.authenticate(&cfg, &unknown).unwrap_err();
    assert_eq!(e1, ServiceError::Unauthorized);
    assert_eq!(e1, e2);
}

#[test]
fn check_credentials_on_a_lookup_result() {
    let cfg = config();
    let mut users = UserTable::new();
    users.create(&cfg, user_input("carol", "pw-carol")).unwrap();
    let stored = users.find_by_username("carol").unwrap();
    assert_eq!(stored.fields.password, hash(&cfg, "pw-carol"));
    let ok = check_credentials(&cfg, "pw-carol", Some(stored)).unwrap();
    assert_eq!(ok.fields.password, hash(&cfg, "pw-carol"));
    assert_eq!(check_credentials(&cfg, "pw-carol", None).unwrap_err(), ServiceError::Unauthorized);
    let creds = Credentials { username: "carol".to_string(), password: "nope".to_string() };
    let found = users.find_by_username("carol").ok();
    assert_eq!(Auth::authenticate(&cfg, &creds, found).unwrap_err(), ServiceError::Unauthorized);
}

#[test]
fn creating_a_user_twice_returns_the_same_id() {
    let cfg = config();
    let mut users = UserTable::new();
    let first = users.create(&cfg, user_input("dave", "one")).unwrap();
    let second = users.create(&cfg, user_input("dave", "two")).unwrap();
    assert_eq!(first.id, second.id);
    assert_eq!(first.fields.password, "");
    assert_eq!(second.fields.password, "");
    assert_eq!(users.find_all().len(), 1);
    let stored = users.find_by_id(first.id).unwrap();
    assert_eq!(stored.fields.password, hash(&cfg, "one"));
}

#[test]
fn user_update_keeps_username_and_password() {
    let cfg = config();
    let mut users = UserTable::new();
    let u = users.create(&cfg, user_input("erin", "pw")).unwrap();
    let mut input = user_input("someone-else", "other");
    input.first_name = "Erin".to_string();
    let updated = users.update(u.id, input).unwrap();
    assert_eq!(updated.id, u.id);
    assert_eq!(updated.fields.first_name, "Erin");
    assert_eq!(updated.fields.username, "erin");
    assert_eq!(updated.fields.password, "");
    assert!(updated.updated_at > u.updated_at);
    assert_eq!(users.find_by_id(u.id).unwrap().fields.password, hash(&cfg, "pw"));
    assert_eq!(users.update(77, user_input("x", "y")).unwrap_err(), ServiceError::NotFound);
}

#[test]
fn update_on_missing_and_existing_rows() {
    let mut table: Table<OrderInput> = Table::new();
    assert_eq!(table.update(5, order("x")).unwrap_err(), ServiceError::NotFound);
    let created = table.create(order("first")).unwrap();
    let changed = table.update(created.id, order("second")).unwrap();
    assert_eq!(changed.id, created.id);
    assert_eq!(changed.fields.name, "second");
    assert_eq!(changed.created_at, created.created_at);
    assert!(changed.updated_at > created.updated_at);
}

#[test]
fn delete_reports_affected_rows() {
    let mut table: Table<ImageInput> = Table::new();
    assert_eq!(table.delete(999), 0);
    let img = table
        .create(ImageInput { name: "front".to_string(), path: "/img/front.png".to_string(), productId: 3 })
        .unwrap();
    assert_eq!(table.delete(img.id), 1);
    assert_eq!(table.find_by_id(img.id).unwrap_err(), ServiceError::NotFound);
    assert_eq!(table.delete(img.id), 0);
}

#[test]
fn delete_count_maps_to_answer() {
    assert_eq!(delete_outcome(0), Err(ServiceError::NotFound));
    assert_eq!(delete_outcome(1), Ok(1));
}

#[test]
fn find_all_is_ordered_by_last_update() {
    let mut table: Table<OrderInput> = Table::new();
    let a = table.create(order("a")).unwrap();
    let b = table.create(order("b")).unwrap();
    let c = table.create(order("c")).unwrap();
    table.update(a.id, order("a2")).unwrap();
    let ids: Vec<i32> = table.find_all().iter().map(|r| r.id).collect();
    assert_eq!(ids, vec![b.id, c.id, a.id]);
    assert_eq!(a.id, 1);
    assert_eq!(b.id, 2);
}

#[test]
fn writes_without_session_are_refused() {
    let cfg = config();
    let mut session = Session::new(None);
    let mut table: Table<OrderInput> = Table::new();
    let existing = {
        let mut admin = Session::new(Some(1));
        create(&mut admin, &mut table, order("kept")).unwrap()
    };
    assert_eq!(create(&mut session, &mut table, order("new")).unwrap_err(), ServiceError::Unauthorized);
    assert_eq!(update(&mut session, &mut table, existing.id, order("x")).unwrap_err(), ServiceError::Unauthorized);
    assert_eq!(delete(&mut session, &mut table, existing.id).unwrap_err(), ServiceError::Unauthorized);
    assert_eq!(table.find_all().len(), 1);
    assert_eq!(table.find_by_id(existing.id).unwrap().fields.name, "kept");
    assert!(!session.renewed);

    let mut users = UserTable::new();
    assert_eq!(create_user(&mut session, &mut users, &cfg, user_input("z", "pw")).unwrap_err(), ServiceError::Unauthorized);
    assert_eq!(update_user(&mut session, &mut users, 1, user_input("z", "pw")).unwrap_err(), ServiceError::Unauthorized);
    assert_eq!(delete_user(&mut session, &mut users, 1).unwrap_err(), ServiceError::Unauthorized);
    assert_eq!(users.find_all().len(), 0);
}

#[test]
fn authorized_writes_renew_the_session() {
    let mut session = Session::new(Some(7));
    let mut table: Table<ProductInput> = Table::new();
    let p = create(&mut session, &mut table, ProductInput { name: "Widget".to_string() }).unwrap();
    assert!(session.renewed);
    assert_eq!(session.current_user_id(), Some(7));
    assert_eq!(p.fields.name, "Widget");
    assert_eq!(delete(&mut session, &mut table, p.id), Ok(1));
    assert_eq!(delete(&mut session, &mut table, p.id), Err(ServiceError::NotFound));
}

#[test]
fn login_sets_the_session_user() {
    let cfg = config();
    let mut users = UserTable::new();
    users.create(&cfg, user_input("bob", "hunter2")).unwrap();
    let alice = users.create(&cfg, user_input("alice", "secret")).unwrap();
    let mut session = Session::new(None);
    let creds = Credentials { username: "alice".to_string(), password: "secret".to_string() };
    let principal = login(&mut session, &users, &cfg, &creds).unwrap();
    assert_eq!(principal.id, alice.id);
    assert_eq!(principal.fields.password, hash(&cfg, "secret"));
    assert_eq!(session.current_user_id(), Some(alice.id as i64));
    assert_eq!(session.authorize_or_deny(), Ok(alice.id as i64));
}

#[test]
fn failed_login_leaves_session_empty() {
    let cfg = config();
    let users = UserTable::new();
    let mut session = Session::new(None);
    let creds = Credentials { username: "alice".to_string(), password: "secret".to_string() };
    assert_eq!(login(&mut session, &users, &cfg, &creds).unwrap_err(), ServiceError::Unauthorized);
    assert_eq!(session.current_user_id(), None);
    assert_eq!(session.authorize_or_deny(), Err(ServiceError::Unauthorized));
}

#[test]
fn product_create_without_login_inserts_nothing() {
    let mut session = Session::new(None);
    let mut table: Table<ProductInput> = Table::new();
    let r = create(&mut session, &mut table, ProductInput { name: "Widget".to_string() });
    assert_eq!(r.unwrap_err(), ServiceError::Unauthorized);
    assert!(table.find_all().is_empty());
}

#[test]
fn delete_on_empty_orders_is_not_found() {
    let mut session = Session::new(Some(1));
    let mut table: Table<OrderInput> = Table::new();
    assert_eq!(table.delete(999), 0);
    assert_eq!(delete(&mut session, &mut table, 999), Err(ServiceError::NotFound));
}

#[test]
fn status_codes() {
    assert_eq!(ServiceError::Unauthorized.status_code(), 401);
    assert_eq!(ServiceError::BadRequest("bad".to_string()).status_code(), 400);
    assert_eq!(ServiceError::NotFound.status_code(), 404);
    assert_eq!(ServiceError::InternalServerError.status_code(), 500);
}

#[test]
fn session_renew_keeps_user() {
    let mut s = Session::new(Some(3));
    s.renew();
    assert!(s.renewed);
    assert_eq!(s.user_id, Some(3));
    let mut t = Session::new(None);
    t.on_login_success(9);
    assert_eq!(t.current_user_id(), Some(9));
}

#[test]
fn constant_time_comparison() {
    assert!(constant_time_eq("0a1b", "0a1b"));
    assert!(!constant_time_eq("0a1b", "0a1c"));
    assert!(!constant_time_eq("0a1b", "0a1"));
    assert!(constant_time_eq("", ""));
    assert!(!constant_time_eq("é", "e"));
}

#[test]
fn match_digest_on_given_digests() {
    let cfg = config();
    let mut users = UserTable::new();
    users.create(&cfg, user_input("frank", "pw")).unwrap();
    let stored = users.find_by_username("frank").unwrap();
    let digest = stored.fields.password.clone();
    let principal = match_digest(&digest, Some(stored)).unwrap();
    assert_eq!(principal.fields.username, "frank");
    assert_eq!(principal.fields.password, digest);
    let again = users.find_by_username("frank").ok();
    assert_eq!(match_digest("00", again).unwrap_err(), ServiceError::Unauthorized);
    assert_eq!(match_digest(&digest, None).unwrap_err(), ServiceError::Unauthorized);
    assert_eq!(users.find_by_username("nobody").unwrap_err(), ServiceError::NotFound);
}

#[test]
fn users_are_listed_by_creation() {
    let cfg = config();
    let mut users = UserTable::new();
    let a = users.create(&cfg, user_input("ann", "pw")).unwrap();
    let b = users.create(&cfg, user_input("ben", "pw")).unwrap();
    users.update(a.id, user_input("ann", "pw")).unwrap();
    let ids: Vec<i32> = users.find_all().iter().map(|u| u.id).collect();
    assert_eq!(ids, vec![a.id, b.id]);
}

#[test]
fn read_outcomes() {
    assert_eq!(find_all_outcome(Some(vec![1, 2])), Ok(vec![1, 2]));
    assert_eq!(find_all_outcome::<i32>(None), Err(ServiceError::InternalServerError));
    assert_eq!(find_by_id_outcome(Fetched::Row(5)), Ok(5));
    assert_eq!(find_by_id_outcome::<i32>(Fetched::NoRow), Err(ServiceError::NotFound));
    assert_eq!(find_by_id_outcome::<i32>(Fetched::Failed), Err(ServiceError::InternalServerError));
}

#[test]
fn write_outcomes() {
    assert!(should_commit(&Fetched::Row(1)));
    assert!(!should_commit::<i32>(&Fetched::NoRow));
    assert!(!should_commit::<i32>(&Fetched::Failed));
    assert_eq!(create_outcome(true, Fetched::Row(3), true), Ok(3));
    assert!(matches!(create_outcome(true, Fetched::Row(3), false), Err(ServiceError::BadRequest(_))));
    assert!(matches!(create_outcome::<i32>(false, Fetched::Failed, false), Err(ServiceError::BadRequest(_))));
    assert_eq!(update_outcome(true, Fetched::Row(4), true), Ok(4));
    assert_eq!(update_outcome::<i32>(true, Fetched::NoRow, false), Err(ServiceError::NotFound));
    assert!(matches!(update_outcome::<i32>(true, Fetched::Failed, false), Err(ServiceError::BadRequest(_))));
    assert_eq!(update_outcome(true, Fetched::Row(4), false), Err(ServiceError::InternalServerError));
    assert_eq!(update_outcome::<i32>(false, Fetched::Failed, false), Err(ServiceError::InternalServerError));
    assert_eq!(delete_tx_outcome(true, Some(1), true), Ok(1));
    assert_eq!(delete_tx_outcome(true, Some(0), true), Err(ServiceError::NotFound));
    assert_eq!(delete_tx_outcome(true, Some(1), false), Err(ServiceError::InternalServerError));
    assert_eq!(delete_tx_outcome(false, None, false), Err(ServiceError::InternalServerError));
}

#[test]
fn user_create_steps() {
    let cfg = config();
    let mut users = UserTable::new();
    let first = users.create(&cfg, user_input("gail", "pw")).unwrap();
    let stored = users.find_by_username("gail").unwrap();
    match user_create_step(Fetched::Row(stored)) {
        UserCreateStep::Existing(u) => {
            assert_eq!(u.id, first.id);
            assert_eq!(u.fields.password, "");
        }
        _ => panic!("expected the existing user"),
    }
    assert!(matches!(user_create_step(Fetched::NoRow), UserCreateStep::Insert));
    assert!(matches!(user_create_step(Fetched::Failed), UserCreateStep::Fail(ServiceError::BadRequest(_))));
    let again = users.find_by_username("gail").unwrap();
    let answered = user_write_outcome(Ok(again)).unwrap();
    assert_eq!(answered.fields.password, "");
    assert_eq!(answered.fields.username, "gail");
    assert_eq!(user_write_outcome(Err(ServiceError::NotFound)).unwrap_err(), ServiceError::NotFound);
}
