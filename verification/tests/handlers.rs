use split_costs_rust_backend::models::{Cost, Group, Quota, User};
use split_costs_rust_backend::password::{password_matches, PasswordError};
use split_costs_rust_backend::routes::costs::{
    cost_to_insert, NewCost, Payload as CostPayload, on_cost_inserted, on_costs_loaded, on_membership, on_quotas_inserted, NewQuota,
};
use split_costs_rust_backend::routes::groups::{
    on_group_ids, on_group_inserted, on_groups_loaded, on_membership_inserted, NewMembership,
};
use split_costs_rust_backend::routes::login::{on_user_lookup, LoginOutcome, Payload as LoginPayload};
use split_costs_rust_backend::routes::register::{
    on_email_lookup, on_user_inserted, Payload as RegisterPayload, RegisterAction,
};
use split_costs_rust_backend::routes::{DbError, Outcome, Status, Step};

fn register_payload(email: &str, password: &str) -> RegisterPayload {
    RegisterPayload {
        display_name: "Jane Doe".to_string(),
        password: password.to_string(),
        email: email.to_string(),
    }
}

fn registered_user(id: i32, email: &str, password: &str) -> User<()> {
    match on_email_lookup(register_payload(email, password), Ok(false)) {
        RegisterAction::InsertUser(row) => User {
            id,
            email: row.email,
            display_name: row.display_name,
            password: row.password,
            created_at: (),
        },
        RegisterAction::Respond(_) => panic!("a free e-mail must be registered"),
    }
}

#[test]
fn status_codes() {
    assert_eq!(Status::Success.code(), 200);
    assert_eq!(Status::Created.code(), 201);
    assert_eq!(Status::BadRequest.code(), 400);
    assert_eq!(Status::Unauthorized.code(), 401);
    assert_eq!(Status::Forbidden.code(), 403);
    assert_eq!(Status::UnprocessableEntity.code(), 422);
    assert_eq!(Status::InternalServerError.code(), 500);
}

#[test]
fn registration_stores_a_verifiable_hash() {
    let password = "correct horse battery";
    let action = on_email_lookup(register_payload("jane@example.com", password), Ok(false));
    match action {
        RegisterAction::InsertUser(row) => {
            assert_eq!(row.email, "jane@example.com");
            assert_eq!(row.display_name, "Jane Doe");
            assert_ne!(row.password, password);
            assert!(row.password.starts_with("$argon2id$"));
            assert_eq!(password_matches(password, &row.password), Ok(true));
            assert_eq!(password_matches("wrong password", &row.password), Ok(false));
        }
        RegisterAction::Respond(_) => panic!("expected an insertion"),
    }
    assert_eq!(on_user_inserted(Ok(1)), Status::Created);
    assert_eq!(on_user_inserted(Err(DbError::Other)), Status::InternalServerError);
}

#[test]
fn taken_email_is_refused() {
    let taken = on_email_lookup(register_payload("jane@example.com", "0123456789"), Ok(true));
    assert!(matches!(taken, RegisterAction::Respond(Status::UnprocessableEntity)));
    let failed = on_email_lookup(register_payload("jane@example.com", "0123456789"), Err(DbError::Other));
    assert!(matches!(failed, RegisterAction::Respond(Status::UnprocessableEntity)));
}

#[test]
fn malformed_stored_hash_is_reported() {
    assert_eq!(password_matches("0123456789", "not a phc string"), Err(PasswordError::MalformedHash));
}

#[test]
fn login_decisions() {
    let user = registered_user(9, "jane@example.com", "correct horse battery");
    let good = LoginPayload { password: "correct horse battery".to_string(), email: "jane@example.com".to_string() };
    let bad = LoginPayload { password: "wrong password".to_string(), email: "jane@example.com".to_string() };

    match on_user_lookup(&good, Ok(Some(user))) {
        LoginOutcome::OpenSession { id, email, display_name } => {
            assert_eq!(id, 9);
            assert_eq!(email, "jane@example.com");
            assert_eq!(display_name, "Jane Doe");
        }
        _ => panic!("expected a session"),
    }
    let user = registered_user(9, "jane@example.com", "correct horse battery");
    assert!(matches!(on_user_lookup(&bad, Ok(Some(user))), LoginOutcome::Respond(Status::Unauthorized)));
    assert!(matches!(on_user_lookup::<()>(&good, Ok(None)), LoginOutcome::Respond(Status::Unauthorized)));
    assert!(matches!(
        on_user_lookup::<()>(&good, Err(DbError::Other)),
        LoginOutcome::Respond(Status::InternalServerError)
    ));
    let broken = User { id: 1, email: "x@y.z".to_string(), display_name: "X".to_string(), password: "plain".to_string(), created_at: () };
    assert!(matches!(on_user_lookup(&good, Ok(Some(broken))), LoginOutcome::MalformedStoredHash));
}

#[test]
fn group_creation_decisions() {
    let group = Group { id: 5, display_name: "Trip".to_string(), created_at: () };
    assert_eq!(on_group_inserted(3, &Ok(group)), Ok(NewMembership { group_id: 5, user_id: 3 }));
    assert_eq!(on_group_inserted::<()>(3, &Err(DbError::Other)), Err(Status::InternalServerError));
    assert!(matches!(on_membership_inserted(5, Ok(1)), Outcome::Json(body) if body.id == 5));
    assert!(matches!(on_membership_inserted(5, Err(DbError::NotFound)), Outcome::Respond(Status::InternalServerError)));
}

#[test]
fn group_listing_decisions() {
    assert_eq!(on_group_ids(Ok(vec![1, 2])), Ok(vec![1, 2]));
    assert_eq!(on_group_ids(Err(DbError::Other)), Err(Status::InternalServerError));
    let groups = vec![Group { id: 1, display_name: "A".to_string(), created_at: () }];
    assert!(matches!(on_groups_loaded(Ok(groups)), Outcome::Json(gs) if gs.len() == 1 && gs[0].id == 1));
    assert!(matches!(on_groups_loaded::<()>(Err(DbError::Other)), Outcome::Respond(Status::InternalServerError)));
}

#[test]
fn membership_decisions() {
    assert_eq!(on_membership(Ok(true)), Step::Continue);
    assert_eq!(on_membership(Ok(false)), Step::Stop(Status::Forbidden));
    assert_eq!(on_membership(Err(DbError::NotFound)), Step::Stop(Status::Forbidden));
    assert_eq!(on_membership(Err(DbError::Other)), Step::Stop(Status::InternalServerError));
}

fn cost(id: i32) -> Cost<f64, ()> {
    Cost { id, group_id: 4, user_id: 2, title: "Pizza".to_string(), description: String::new(), amount: 30.0, created_at: () }
}

#[test]
fn expense_listing_decisions() {
    assert!(matches!(on_costs_loaded(Ok(vec![cost(1), cost(2)])), Outcome::Json(cs) if cs.len() == 2 && cs[1].id == 2));
    assert!(matches!(on_costs_loaded::<f64, ()>(Ok(vec![])), Outcome::Json(cs) if cs.is_empty()));
    assert!(matches!(on_costs_loaded::<f64, ()>(Err(DbError::NotFound)), Outcome::Respond(Status::Forbidden)));
    assert!(matches!(on_costs_loaded::<f64, ()>(Err(DbError::Other)), Outcome::Respond(Status::InternalServerError)));
}

#[test]
fn added_cost_links_its_quotas() {
    let quotas = vec![
        NewQuota { user_id: 7, cost_id: None, percentage_quota: 40.0f64 },
        NewQuota { user_id: 8, cost_id: Some(99), percentage_quota: 60.0f64 },
    ];
    let (added, linked) = match on_cost_inserted(&quotas, Ok(cost(11))) {
        Ok(next) => next,
        Err(_) => panic!("expected the quotas to insert"),
    };
    assert_eq!(added.id, 11);
    assert_eq!(linked.len(), 2);
    assert_eq!((linked[0].user_id, linked[0].cost_id, linked[0].percentage_quota), (7, Some(11), 40.0));
    assert_eq!((linked[1].user_id, linked[1].cost_id, linked[1].percentage_quota), (8, Some(11), 60.0));
    assert!(matches!(on_cost_inserted::<f64, ()>(&quotas, Err(DbError::Other)), Err(Status::InternalServerError)));

    let stored = vec![Quota { id: 1, user_id: 7, cost_id: 11, percentage_quota: 40.0f64 }];
    match on_quotas_inserted(added, Ok(stored)) {
        Outcome::Json(body) => {
            assert_eq!(body.added_cost.id, 11);
            assert_eq!(body.added_quotas.len(), 1);
            assert_eq!(body.added_quotas[0].cost_id, 11);
        }
        Outcome::Respond(_) => panic!("expected a body"),
    }
    assert!(matches!(on_quotas_inserted(cost(12), Err::<Vec<Quota<f64>>, _>(DbError::Other)), Outcome::Respond(Status::InternalServerError)));
}

fn inserted_hash(password: &str) -> String {
    match on_email_lookup(register_payload("sam@example.com", password), Ok(false)) {
        RegisterAction::InsertUser(row) => row.password,
        RegisterAction::Respond(_) => panic!("expected an insertion"),
    }
}

#[test]
fn stored_hash_has_the_default_argon2_form() {
    let hash = inserted_hash("a password of some length");
    assert_eq!(hash.len(), 97);
    assert!(hash.starts_with("$argon2id$v=19$m=19456,t=2,p=1$"));
    let salt = &hash[31..53];
    let output = &hash[54..];
    let b64 = |c: char| c.is_ascii_alphanumeric() || c == '+' || c == '/';
    assert!(salt.chars().all(b64));
    assert_eq!(&hash[53..54], "$");
    assert_eq!(output.len(), 43);
    assert!(output.chars().all(b64));
}

#[test]
fn two_registrations_draw_different_salts() {
    let first = inserted_hash("same password here");
    let second = inserted_hash("same password here");
    assert_ne!(&first[31..53], &second[31..53]);
    assert_ne!(first, second);
    assert_eq!(password_matches("same password here", &first), Ok(true));
    assert_eq!(password_matches("same password here", &second), Ok(true));
}

#[test]
fn cost_is_inserted_as_sent_by_members_only() {
    let payload = || CostPayload {
        cost: NewCost { group_id: 8, user_id: 2, title: "Taxi".to_string(), description: "x".to_string(), amount: 20.0f64 },
        quotas: vec![NewQuota { user_id: 2, cost_id: None, percentage_quota: 100.0f64 }],
    };
    match cost_to_insert(payload(), Ok(true)) {
        Ok((cost, quotas)) => {
            assert_eq!((cost.group_id, cost.user_id, cost.title.as_str(), cost.amount), (8, 2, "Taxi", 20.0));
            assert_eq!(quotas.len(), 1);
            assert_eq!(quotas[0].cost_id, None);
        }
        Err(_) => panic!("a member adds the cost"),
    }
    assert!(matches!(cost_to_insert(payload(), Ok(false)), Err(Status::Forbidden)));
    assert!(matches!(cost_to_insert(payload(), Err(DbError::NotFound)), Err(Status::Forbidden)));
    assert!(matches!(cost_to_insert(payload(), Err(DbError::Other)), Err(Status::InternalServerError)));
}
