use split_costs_rust_backend::routes::costs::{NewCost, NewQuota, Payload as CostPayload};
use split_costs_rust_backend::routes::groups::Payload as GroupPayload;
use split_costs_rust_backend::routes::login::Payload as LoginPayload;
use split_costs_rust_backend::routes::register::Payload as RegisterPayload;
use split_costs_rust_backend::routes::{Status, Step};
use split_costs_rust_backend::validate::{payload_step, Field};

fn register_payload() -> RegisterPayload {
    RegisterPayload {
        display_name: "Jane Doe".to_string(),
        password: "correct horse battery".to_string(),
        email: "jane.doe@example.com".to_string(),
    }
}

#[test]
fn valid_registration_is_accepted() {
    assert_eq!(register_payload().validate(), Ok(()));
}

#[test]
fn empty_registration_fields_are_refused() {
    let payload = RegisterPayload { display_name: String::new(), password: String::new(), email: String::new() };
    assert_eq!(payload.validate(), Err(vec![Field::DisplayName, Field::Password, Field::Email]));
}

#[test]
fn registration_field_rules() {
    let mut p = register_payload();
    p.display_name = "AB".to_string();
    assert_eq!(p.validate(), Err(vec![Field::DisplayName]));

    let mut p = register_payload();
    p.password = "ABCD".to_string();
    assert_eq!(p.validate(), Err(vec![Field::Password]));

    let mut p = register_payload();
    p.email = "some-words-here".to_string();
    assert_eq!(p.validate(), Err(vec![Field::Email]));

    let mut p = register_payload();
    p.email = "a@".to_string();
    assert_eq!(p.validate(), Err(vec![Field::Email]));
}

#[test]
fn lengths_count_characters() {
    let mut p = register_payload();
    p.display_name = "Zoë".to_string();
    assert_eq!(p.validate(), Ok(()));
    p.password = "ééééééééé".to_string();
    assert_eq!(p.validate(), Err(vec![Field::Password]));
    p.password = "éééééééééé".to_string();
    assert_eq!(p.validate(), Ok(()));
}

#[test]
fn email_verdict_can_be_given() {
    let p = register_payload();
    assert_eq!(p.validate_with(true), Ok(()));
    assert_eq!(p.validate_with(false), Err(vec![Field::Email]));
}

#[test]
fn login_field_rules() {
    let ok = LoginPayload { password: "0123456789".to_string(), email: "x@y.org".to_string() };
    assert_eq!(ok.validate(), Ok(()));
    let short = LoginPayload { password: "abc".to_string(), email: "x@y.org".to_string() };
    assert_eq!(short.validate(), Err(vec![Field::Password]));
    let empty = LoginPayload { password: String::new(), email: String::new() };
    assert_eq!(empty.validate(), Err(vec![Field::Password, Field::Email]));
    assert_eq!(ok.validate_with(false), Err(vec![Field::Email]));
}

#[test]
fn group_name_rules() {
    assert_eq!(GroupPayload { display_name: "Trip".to_string() }.validate(), Ok(()));
    assert_eq!(GroupPayload { display_name: "ab".to_string() }.validate(), Err(vec![Field::DisplayName]));
    assert_eq!(GroupPayload { display_name: String::new() }.validate(), Err(vec![Field::DisplayName]));
    assert_eq!(GroupPayload { display_name: "x".repeat(32) }.validate(), Ok(()));
    assert_eq!(GroupPayload { display_name: "x".repeat(33) }.validate(), Err(vec![Field::DisplayName]));
}

#[test]
fn cost_payload_is_always_accepted() {
    let payload = CostPayload {
        cost: NewCost { group_id: 1, user_id: 2, title: String::new(), description: String::new(), amount: -5.0f64 },
        quotas: vec![NewQuota { user_id: 3, cost_id: None, percentage_quota: 150.0f64 }],
    };
    assert_eq!(payload.validate(), Ok(()));
}

#[test]
fn new_cost_and_quota_rules() {
    let cost = NewCost { group_id: 1, user_id: 2, title: "Pizza".to_string(), description: String::new(), amount: 12.5f64 };
    assert_eq!(cost.validate_with(cost.amount >= 0.0), Ok(()));
    let cost = NewCost { group_id: 1, user_id: 2, title: "Pi".to_string(), description: String::new(), amount: -1.0f64 };
    assert_eq!(cost.validate_with(cost.amount >= 0.0), Err(vec![Field::Title, Field::Amount]));
    let quota = NewQuota { user_id: 1, cost_id: None, percentage_quota: 101.0f64 };
    assert_eq!(quota.validate_with(false), Err(vec![Field::PercentageQuota]));
    assert_eq!(quota.validate_with(true), Ok(()));
}

#[test]
fn refused_payload_is_a_bad_request() {
    assert_eq!(payload_step(&Ok(())), Step::Continue);
    assert_eq!(payload_step(&Err(vec![Field::Email])), Step::Stop(Status::BadRequest));
    assert_eq!(Status::BadRequest.code(), 400);
}
