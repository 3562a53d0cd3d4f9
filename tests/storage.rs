use crab::storage::{
    backup_file_name, database_from_stored, require_database, DATABASE_DIR_NAME,
    DATABASE_FILE_NAME,
};
use crab::{CredentialDatabase, CredentialEntry, CredentialError};

#[test]
fn backup_name_has_timestamp() {
    assert_eq!(backup_file_name(1704067200), "credentials_1704067200.json.bak");
    assert_eq!(backup_file_name(0), "credentials_0.json.bak");
    assert_eq!(backup_file_name(u64::MAX), "credentials_18446744073709551615.json.bak");
}

#[test]
fn backup_names_differ_across_seconds() {
    let names: Vec<String> = (1000..1005).map(backup_file_name).collect();
    for i in 0..names.len() {
        for j in 0..names.len() {
            if i != j {
                assert_ne!(names[i], names[j]);
            }
        }
    }
}

#[test]
fn backup_without_database_is_refused() {
    assert!(matches!(require_database(false), Err(CredentialError::DatabaseNotFound)));
    assert!(require_database(true).is_ok());
}

#[test]
fn missing_file_loads_empty_database() {
    let db = database_from_stored(None).unwrap();
    assert_eq!(db.len(), 0);
    assert_eq!(db.version, "1.0");
}

#[test]
fn parse_failure_is_not_an_empty_database() {
    let bad = serde_json::from_str::<serde_json::Value>("{ not json").unwrap_err();
    let r = database_from_stored(Some(Err(CredentialError::from(bad))));
    assert!(matches!(r, Err(CredentialError::SerializationError(_))));
}

#[test]
fn stored_database_is_kept() {
    let mut db = CredentialDatabase::new();
    db.add_entry(CredentialEntry::new_at("a".to_string(), "b".to_string(), "c".to_string(), 3));
    let loaded = database_from_stored(Some(Ok(db))).unwrap();
    assert_eq!(loaded.list_services(), vec!["a"]);
}

#[test]
fn database_location_names() {
    assert_eq!(DATABASE_DIR_NAME, ".crab");
    assert_eq!(DATABASE_FILE_NAME, "credentials.json");
}

#[test]
fn database_path_ends_with_file_name() {
    if let Ok(path) = crab::storage::get_database_path() {
        assert!(path.ends_with(".crab/credentials.json"));
    }
}

#[test]
fn no_home_means_path_resolution_error() {
    let r = crab::storage::database_path_in(None);
    assert!(matches!(r, Err(CredentialError::PathResolution)));
}

#[test]
fn database_path_under_given_home() {
    let p = crab::storage::database_path_in(Some(std::path::PathBuf::from("/home/u"))).unwrap();
    assert_eq!(p, std::path::PathBuf::from("/home/u/.crab/credentials.json"));
}

#[test]
fn unresolved_path_means_no_database() {
    assert!(!crab::storage::database_exists_at(&Err(CredentialError::PathResolution)));
    let missing = std::path::PathBuf::from("/nonexistent-dir-for-crab/credentials.json");
    assert!(!crab::storage::database_exists_at(&Ok(missing)));
}
