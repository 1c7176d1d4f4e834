use auth_service::data_models::outbox_role::OutboxRole;
use auth_service::data_models::role::Role;
use auth_service::data_models::user::User;
use auth_service::shared::db_context::{first_user, patch_message, plan_user_patch, user_by_email_query, UserPatch};
use auth_service::shared::jwt_provider::{accepted_audiences, accepted_issuers, build_claims, claims_for, TOKEN_LIFETIME_SECS};
use auth_service::shared::oidc_client_factory::issuer_url;
use auth_service::shared::settings::{DbSettings, EntraSettings, JwtSettings, Settings};

fn sample_user(oid: &str) -> User {
    User::with_name(
        oid.to_string(),
        "Ada".to_string(),
        "ada@example.com".to_string(),
        vec![Role::new("admin".to_string()), Role::new("dev".to_string())],
    )
}

#[test]
fn user_new_has_empty_name() {
    let u = User::new("oid".to_string(), "e@x".to_string(), vec![Role::new("r".to_string())]);
    assert_eq!(u.name(), "");
    assert_eq!(u.oid(), "oid");
    assert_eq!(u.email(), "e@x");
    assert_eq!(u.roles()[0].name(), "r");
}

#[test]
fn claims_from_user() {
    let c = build_claims(sample_user("67e55044-10b1-426f-9247-bb680e5fe0c8"), 1_000).expect("uuid");
    assert_eq!(c.oid, 0x67e5504410b1426f9247bb680e5fe0c8u128);
    assert_eq!(c.exp, 1_000 + TOKEN_LIFETIME_SECS);
    assert_eq!(c.exp, 4_600);
    assert_eq!(c.iss, "test");
    assert_eq!(c.aud, "test");
    assert_eq!(c.email, "ada@example.com");
    assert_eq!(c.name, "Ada");
    let names: Vec<&str> = c.roles.iter().map(|r| r.name().as_str()).collect();
    assert_eq!(names, vec!["admin", "dev"]);
}

#[test]
fn claims_refuse_non_uuid_oid() {
    assert!(build_claims(sample_user("not-a-uuid"), 1_000).is_none());
}

#[test]
fn claims_for_given_oid() {
    let c = claims_for(sample_user("ignored"), 42, 10);
    assert_eq!(c.oid, 42);
    assert_eq!(c.exp, 3_610);
}

#[test]
fn issued_claims_are_accepted() {
    let c = build_claims(sample_user("67e55044-10b1-426f-9247-bb680e5fe0c8"), 5).expect("uuid");
    assert!(accepted_issuers().contains(&c.iss));
    assert!(accepted_audiences().contains(&c.aud));
    assert!(c.exp > 5);
}

#[test]
fn email_query_text() {
    let lookup = user_by_email_query("o'brien@x.org");
    assert_eq!(lookup.query, "SELECT * FROM user WHERE email == $email;");
    assert_eq!(lookup.param, "email");
    assert_eq!(lookup.email, "o'brien@x.org");
    let other = user_by_email_query("x' OR true OR email == '");
    assert_eq!(other.query, lookup.query);
    assert_eq!(other.email, "x' OR true OR email == '");
}

#[test]
fn first_user_of_results() {
    assert!(first_user(vec![]).is_none());
    let u = first_user(vec![sample_user("one"), sample_user("two")]).expect("user");
    assert_eq!(u.oid(), "one");
}

#[test]
fn patch_plan_update_or_create() {
    let incoming = sample_user("new-oid");
    match plan_user_patch(&incoming, &Some(sample_user("stored-oid"))) {
        UserPatch::Update { record_id } => assert_eq!(record_id, "stored-oid"),
        UserPatch::Create { .. } => panic!("expected an update"),
    }
    let plan = plan_user_patch(&incoming, &None);
    match &plan {
        UserPatch::Create { record_id } => assert_eq!(record_id, "new-oid"),
        UserPatch::Update { .. } => panic!("expected a creation"),
    }
    assert_eq!(patch_message(&plan), "Created new User");
    assert_eq!(patch_message(&UserPatch::Update { record_id: "x".to_string() }), "User updated successfully");
}

#[test]
fn issuer_url_for_tenant() {
    assert_eq!(issuer_url("tenant-1"), "https://login.microsoftonline.com/tenant-1/v2.0");
}

#[test]
fn settings_parts() {
    let s = Settings::from_parts(
        JwtSettings::new("sec".to_string()),
        EntraSettings::new("t".to_string(), "c".to_string(), "cs".to_string(), "r".to_string()),
        DbSettings::new("ws".to_string(), "u".to_string(), "p".to_string(), "ns".to_string(), "db".to_string()),
    );
    assert_eq!(s.jwt().secret(), "sec");
    assert_eq!(s.entra().tenant_id(), "t");
    assert_eq!(s.entra().client_id(), "c");
    assert_eq!(s.entra().client_secret(), "cs");
    assert_eq!(s.entra().redirect_uri(), "r");
    assert_eq!(s.db().connection_string(), "ws");
    assert_eq!(s.db().username(), "u");
    assert_eq!(s.db().password(), "p");
    assert_eq!(s.db().namespace(), "ns");
    assert_eq!(s.db().database(), "db");
}

#[test]
fn outbox_role_fields() {
    let r = OutboxRole::new("id1".to_string(), "admin".to_string());
    assert_eq!(r.id(), "id1");
    assert_eq!(r.name(), "admin");
}
