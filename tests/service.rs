use integrator::service::{
    integrate, integrate_after_insert, register_after_insert, register_after_lookup,
    register_start, register_with_key, IntegrateAction, IntegrationInfo, Lookup, RegisterAction,
    RegistrationInfo, Response,
};
use integrator::validation::is_valid_input;

fn registration(tenant_id: &str, realm_id: &str) -> RegistrationInfo {
    RegistrationInfo { tenant_id: tenant_id.to_string(), realm_id: realm_id.to_string() }
}

fn integration(account_uuid: &str, secret: &str) -> IntegrationInfo {
    IntegrationInfo { account_uuid: account_uuid.to_string(), bamboo_hr_api_key: secret.to_string() }
}

fn is_random_uuid_text(k: &str) -> bool {
    let chars: Vec<char> = k.chars().collect();
    chars.len() == 36
        && chars.iter().enumerate().all(|(i, c)| {
            if i == 8 || i == 13 || i == 18 || i == 23 {
                *c == '-'
            } else {
                c.is_ascii_digit() || ('a'..='f').contains(c)
            }
        })
        && chars[14] == '4'
        && "89ab".contains(chars[19])
}

fn issue(info: &RegistrationInfo) -> String {
    match register_after_lookup(info, Lookup::Absent) {
        RegisterAction::Insert(row) => {
            assert_eq!(row.tenant_id, info.tenant_id);
            assert_eq!(row.realm_id, info.realm_id);
            row.api_key
        }
        _ => panic!("a new pair must be inserted"),
    }
}

#[test]
fn valid_identifiers_are_accepted() {
    assert!(is_valid_input("ABCDEFGHIJ"));
    assert!(is_valid_input("0123456789"));
    assert!(is_valid_input("abcDEF1234"));
    assert!(is_valid_input("éééééééééé"));
}

#[test]
fn malformed_identifiers_are_rejected() {
    assert!(!is_valid_input(""));
    assert!(!is_valid_input("short"));
    assert!(!is_valid_input("ABCDEFGHI"));
    assert!(!is_valid_input("ABCDEFGHIJK"));
    assert!(!is_valid_input("ABCDE-GHIJ"));
    assert!(!is_valid_input("ABCDE GHIJ"));
    assert!(!is_valid_input("ABCDEFGHI!"));
    assert!(!is_valid_input("ééééé"));
}

#[test]
fn register_first_time_issues_key_then_conflicts() {
    let info = registration("ABCDEFGHIJ", "0123456789");
    assert!(matches!(register_start(&info), RegisterAction::LookUp));
    let key = issue(&info);
    assert!(is_random_uuid_text(&key));
    let reply = register_after_insert(key.clone(), true);
    assert_eq!(reply.status(), 200);
    assert!(matches!(&reply, Response::Issued(k) if *k == key));
    assert!(matches!(register_start(&info), RegisterAction::LookUp));
    match register_after_lookup(&info, Lookup::Found) {
        RegisterAction::Respond(r) => {
            assert_eq!(r.status(), 409);
            assert_eq!(r.message(), "The provided tenant and realm are already configured");
        }
        _ => panic!("a registered pair must be refused"),
    }
}

#[test]
fn register_short_tenant_is_bad_request() {
    match register_start(&registration("short", "0123456789")) {
        RegisterAction::Respond(r) => {
            assert_eq!(r.status(), 400);
            assert_eq!(r.message(), "Invalid tenantId or realmId");
        }
        _ => panic!("a malformed tenant must be refused"),
    }
}

#[test]
fn register_malformed_realm_is_bad_request() {
    let action = register_start(&registration("ABCDEFGHIJ", "01234_6789"));
    assert!(matches!(action, RegisterAction::Respond(Response::InvalidRegistration)));
}

#[test]
fn issued_keys_differ() {
    let info = registration("ABCDEFGHIJ", "0123456789");
    let first = issue(&info);
    let second = issue(&info);
    assert!(is_random_uuid_text(&second));
    assert_ne!(first, second);
}

#[test]
fn register_with_given_key_inserts_it() {
    let info = registration("tenant0001", "realm00001");
    match register_with_key(&info, Lookup::Absent, "k".to_string()) {
        RegisterAction::Insert(row) => {
            assert_eq!(row.tenant_id, "tenant0001");
            assert_eq!(row.realm_id, "realm00001");
            assert_eq!(row.api_key, "k");
        }
        _ => panic!("a new pair must be inserted"),
    }
    let found = register_with_key(&info, Lookup::Found, "k".to_string());
    assert!(matches!(found, RegisterAction::Respond(Response::AlreadyConfigured)));
}

#[test]
fn register_storage_failures_are_server_errors() {
    let info = registration("ABCDEFGHIJ", "0123456789");
    match register_after_lookup(&info, Lookup::Failed) {
        RegisterAction::Respond(r) => {
            assert_eq!(r.status(), 500);
            assert_eq!(r.message(), "");
        }
        _ => panic!("a failed lookup must end the request"),
    }
    let reply = register_after_insert("key".to_string(), false);
    assert!(matches!(reply, Response::ServerError));
    assert_eq!(reply.status(), 500);
}

#[test]
fn integrate_not_a_uuid_is_bad_request() {
    for secret in ["", "secret", "0123456789abcdef", "550e8400-e29b-41d4-a716-446655440000"] {
        match integrate(&integration("not-a-uuid", secret), true) {
            IntegrateAction::Respond(r) => {
                assert_eq!(r.status(), 400);
                assert_eq!(r.message(), "Invalid UUID");
            }
            _ => panic!("a malformed UUID must be refused"),
        }
    }
}

#[test]
fn integrate_valid_uuid_stores_canonical_key() {
    let uuid = "550e8400-e29b-41d4-a716-446655440000";
    match integrate(&integration(uuid, "bamboo-secret"), true) {
        IntegrateAction::Insert(row) => {
            assert_eq!(row.account_key, uuid);
            assert_eq!(row.bamboo_hr_api_key, "bamboo-secret");
        }
        _ => panic!("a valid UUID must be stored"),
    }
    let reply = integrate_after_insert(true);
    assert!(matches!(reply, Response::Created));
    assert_eq!(reply.status(), 201);
    assert_eq!(reply.message(), "");
}

#[test]
fn integrate_other_uuid_forms_store_lower_hyphenated_key() {
    let canonical = "550e8400-e29b-41d4-a716-446655440000";
    for form in [
        "550E8400-E29B-41D4-A716-446655440000",
        "550e8400e29b41d4a716446655440000",
        "{550e8400-e29b-41d4-a716-446655440000}",
        "URN:uuid:550E8400-e29b-41d4-a716-446655440000",
    ] {
        match integrate(&integration(form, "s"), true) {
            IntegrateAction::Insert(row) => assert_eq!(row.account_key, canonical),
            _ => panic!("{} must be accepted", form),
        }
    }
}

#[test]
fn integrate_malformed_uuid_forms_are_refused() {
    for form in [
        "550e8400-e29b-41d4-a716-44665544000g",
        "550e8400xe29b-41d4-a716-446655440000",
        "(550e8400-e29b-41d4-a716-446655440000)",
        "urn:uid:0550e8400-e29b-41d4-a716-446655440000",
        "",
    ] {
        let action = integrate(&integration(form, "s"), true);
        assert!(matches!(action, IntegrateAction::Respond(Response::InvalidUuid)));
    }
}

#[test]
fn integrate_storage_failures_are_server_errors() {
    let action = integrate(&integration("not-a-uuid", "s"), false);
    assert!(matches!(action, IntegrateAction::Respond(Response::ServerError)));
    let reply = integrate_after_insert(false);
    assert!(matches!(reply, Response::ServerError));
    assert_eq!(reply.status(), 500);
}

#[test]
fn racing_registrations_both_issue_keys() {
    let info = registration("ABCDEFGHIJ", "0123456789");
    let first = register_after_lookup(&info, Lookup::Absent);
    let second = register_after_lookup(&info, Lookup::Absent);
    let (first_row, second_row) = match (first, second) {
        (RegisterAction::Insert(a), RegisterAction::Insert(b)) => (a, b),
        _ => panic!("both lookups saw no row, so both must insert"),
    };
    assert_eq!(first_row.tenant_id, second_row.tenant_id);
    assert_eq!(first_row.realm_id, second_row.realm_id);
    assert_ne!(first_row.api_key, second_row.api_key);
    assert_eq!(register_after_insert(first_row.api_key, true).status(), 200);
    assert_eq!(register_after_insert(second_row.api_key, true).status(), 200);
}
