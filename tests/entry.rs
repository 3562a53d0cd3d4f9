use crab::CredentialEntry;

#[test]
fn new_sets_initial_timestamps() {
    let entry = CredentialEntry::new(
        "service".to_string(),
        "account".to_string(),
        "secret".to_string(),
    );

    assert_eq!(entry.service, "service");
    assert_eq!(entry.account, "account");
    assert_eq!(entry.secret, "secret");
}

#[test]
fn update_methods_change_values() {
    let mut entry = CredentialEntry::new(
        "service".to_string(),
        "account".to_string(),
        "secret".to_string(),
    );
    entry.update_service("service2".to_string());
    entry.update_account("account2".to_string());
    entry.update_secret("secret2".to_string());

    assert_eq!(entry.service, "service2");
    assert_eq!(entry.account, "account2");
    assert_eq!(entry.secret, "secret2");
}

#[test]
fn new_entry_has_equal_timestamps() {
    let entry = CredentialEntry::new("a".to_string(), "b".to_string(), "c".to_string());
    assert_eq!(entry.created_at, entry.updated_at);
    assert!(entry.created_at > 1_600_000_000);
}

#[test]
fn new_at_uses_given_time() {
    let entry = CredentialEntry::new_at("a".to_string(), "b".to_string(), "c".to_string(), 42);
    assert_eq!(entry.created_at, 42);
    assert_eq!(entry.updated_at, 42);
}

#[test]
fn update_at_later_time_refreshes() {
    let mut entry = CredentialEntry::new_at("a".to_string(), "b".to_string(), "c".to_string(), 100);
    entry.update_secret_at("d".to_string(), 150);
    assert_eq!(entry.secret, "d");
    assert_eq!(entry.created_at, 100);
    assert_eq!(entry.updated_at, 150);
    entry.update_account_at("e".to_string(), 160);
    assert_eq!(entry.account, "e");
    assert_eq!(entry.updated_at, 160);
    entry.update_service_at("f".to_string(), 170);
    assert_eq!(entry.service, "f");
    assert_eq!(entry.updated_at, 170);
}

#[test]
fn update_with_clock_behind_keeps_order() {
    let mut entry = CredentialEntry::new_at("a".to_string(), "b".to_string(), "c".to_string(), 100);
    entry.update_secret_at("d".to_string(), 150);
    entry.update_account_at("e".to_string(), 120);
    assert_eq!(entry.updated_at, 150);
    assert!(entry.updated_at >= entry.created_at);
}

#[test]
fn update_repairs_timestamps_out_of_order() {
    let mut entry = CredentialEntry {
        service: "a".to_string(),
        account: "b".to_string(),
        secret: "c".to_string(),
        created_at: 200,
        updated_at: 100,
    };
    entry.update_secret_at("d".to_string(), 50);
    assert_eq!(entry.updated_at, 200);
}

#[test]
fn update_from_clock_never_moves_back() {
    let mut entry = CredentialEntry::new("a".to_string(), "b".to_string(), "c".to_string());
    let before = entry.updated_at;
    entry.update_secret("z".to_string());
    assert!(entry.updated_at >= before);
    assert!(entry.updated_at >= entry.created_at);
}
