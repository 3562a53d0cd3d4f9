use crab::{CredentialDatabase, CredentialEntry, CredentialError};

fn entry(service: &str, account: &str, secret: &str, now: u64) -> CredentialEntry {
    CredentialEntry::new_at(service.to_string(), account.to_string(), secret.to_string(), now)
}

#[test]
fn new_database_is_empty() {
    let db = CredentialDatabase::new();
    assert_eq!(db.len(), 0);
    assert_eq!(db.version, "1.0");
    assert!(db.list_services().is_empty());
}

#[test]
fn list_services_keeps_insertion_order() {
    let mut db = CredentialDatabase::new();
    db.add_entry(entry("gitlab", "bob", "x", 1));
    db.add_entry(entry("github", "alice", "y", 2));
    assert_eq!(db.list_services(), vec!["gitlab", "github"]);
}

#[test]
fn list_github_then_gitlab() {
    let mut db = CredentialDatabase::new();
    db.add_entry(entry("github", "alice", "y", 2));
    db.add_entry(entry("gitlab", "bob", "x", 1));
    assert_eq!(db.list_services(), vec!["github", "gitlab"]);
}

#[test]
fn find_entry_returns_first_match() {
    let mut db = CredentialDatabase::new();
    db.add_entry(entry("github", "alice", "a", 1));
    db.add_entry(entry("github", "bob", "b", 2));
    let found = db.find_entry("github").unwrap();
    assert_eq!(found.account, "alice");
    assert!(db.find_entry("GitHub").is_none());
}

#[test]
fn remove_absent_is_noop() {
    let mut db = CredentialDatabase::new();
    db.add_entry(entry("github", "alice", "a", 1));
    assert!(!db.remove_entry("gitlab"));
    assert_eq!(db.len(), 1);
}

#[test]
fn remove_present_decrements() {
    let mut db = CredentialDatabase::new();
    db.add_entry(entry("a", "x", "1", 1));
    db.add_entry(entry("b", "y", "2", 1));
    db.add_entry(entry("c", "z", "3", 1));
    assert!(db.remove_entry("b"));
    assert_eq!(db.len(), 2);
    assert_eq!(db.list_services(), vec!["a", "c"]);
}

#[test]
fn remove_takes_every_duplicate() {
    let mut db = CredentialDatabase::new();
    db.add_entry(entry("a", "x", "1", 1));
    db.add_entry(entry("b", "y", "2", 1));
    db.add_entry(entry("a", "z", "3", 1));
    assert!(db.remove_entry("a"));
    assert_eq!(db.list_services(), vec!["b"]);
}

#[test]
fn edit_entry_changes_in_place() {
    let mut db = CredentialDatabase::new();
    db.add_entry(entry("github", "alice", "a", 1));
    db.add_entry(entry("gitlab", "bob", "b", 1));
    {
        let e = db.edit_entry("gitlab").unwrap();
        e.update_account_at("carol".to_string(), 5);
    }
    let found = db.find_entry("gitlab").unwrap();
    assert_eq!(found.account, "carol");
    assert_eq!(found.updated_at, 5);
    assert!(db.edit_entry("bitbucket").is_none());
}

#[test]
fn remove_then_add_leaves_one_fresh_entry() {
    let mut db = CredentialDatabase::new();
    db.add_entry(entry("github", "alice", "old", 10));
    db.add_entry(entry("gitlab", "bob", "b", 10));
    db.remove_entry("github");
    db.add_entry(entry("github", "alice2", "new", 20));
    let services = db.list_services();
    assert_eq!(services.iter().filter(|s| **s == "github").count(), 1);
    let found = db.find_entry("github").unwrap();
    assert_eq!(found.account, "alice2");
    assert_eq!(found.secret, "new");
    assert_eq!(found.updated_at, 20);
}

#[test]
fn upsert_replaces_existing() {
    let mut db = CredentialDatabase::new();
    db.add_entry(entry("github", "alice", "old", 10));
    db.add_entry(entry("gitlab", "bob", "b", 10));
    assert!(db.upsert_entry(entry("github", "alice", "new", 20)));
    assert_eq!(db.list_services(), vec!["gitlab", "github"]);
    assert_eq!(db.find_entry("github").unwrap().secret, "new");
    assert!(!db.upsert_entry(entry("bitbucket", "c", "d", 30)));
    assert_eq!(db.len(), 3);
}

#[test]
fn in_memory_github_scenario() {
    let mut db = CredentialDatabase::new();
    db.add_entry(CredentialEntry::new(
        "github".to_string(),
        "alice".to_string(),
        "s3cr3t".to_string(),
    ));
    let found = db.find_entry("github").unwrap();
    assert_eq!(found.account, "alice");
    assert_eq!(found.secret, "s3cr3t");
    assert_eq!(found.created_at, found.updated_at);
}

#[test]
fn lookup_reports_missing_service() {
    let mut db = CredentialDatabase::new();
    db.add_entry(entry("github", "alice", "a", 1));
    assert_eq!(db.lookup("github").unwrap().account, "alice");
    match db.lookup("gitlab") {
        Err(CredentialError::CredentialNotFound(s)) => assert_eq!(s, "gitlab"),
        _ => panic!("expected CredentialNotFound"),
    }
}

#[test]
fn listing_of_empty_database_fails() {
    let db = CredentialDatabase::new();
    assert!(matches!(db.listing(), Err(CredentialError::CredentialNotStored)));
    let mut db = CredentialDatabase::new();
    db.add_entry(entry("github", "alice", "a", 1));
    assert_eq!(db.listing().unwrap(), vec!["github"]);
}

#[test]
fn apply_edit_changes_only_differing_fields() {
    let mut db = CredentialDatabase::new();
    db.add_entry(entry("github", "alice", "a", 10));
    db.apply_edit("github", "github".to_string(), "alice".to_string(), None, 50).unwrap();
    let e = db.find_entry("github").unwrap();
    assert_eq!(e.updated_at, 10);
    db.apply_edit("github", "gh".to_string(), "alice".to_string(), Some("b".to_string()), 60)
        .unwrap();
    let e = db.find_entry("gh").unwrap();
    assert_eq!(e.account, "alice");
    assert_eq!(e.secret, "b");
    assert_eq!(e.created_at, 10);
    assert_eq!(e.updated_at, 60);
    assert!(db.find_entry("github").is_none());
}

#[test]
fn apply_edit_on_missing_service_fails() {
    let mut db = CredentialDatabase::new();
    db.add_entry(entry("github", "alice", "a", 10));
    let r = db.apply_edit("gitlab", "x".to_string(), "y".to_string(), None, 50);
    assert!(matches!(r, Err(CredentialError::CredentialNotFound(_))));
    assert_eq!(db.find_entry("github").unwrap().account, "alice");
}
