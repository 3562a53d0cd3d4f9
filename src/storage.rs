use vstd::prelude::*;

use crate::database::{CredentialDatabase, CURRENT_VERSION};
use crate::error::{CredentialError, CredentialResult};
use crate::text::{decimal, decimal_string, lemma_decimal_injective, lemma_framed_injective};

verus! {

#[verifier::external_type_specification]
#[verifier::external_body]
pub struct ExPathBuf(std::path::PathBuf);

/// The directory under the home directory that holds the database.
pub const DATABASE_DIR_NAME: &'static str = ".crab";

/// The file name of the database.
pub const DATABASE_FILE_NAME: &'static str = "credentials.json";

/// What comes before the timestamp in a backup's file name.
pub const BACKUP_PREFIX: &'static str = "credentials_";

/// What comes after the timestamp in a backup's file name.
pub const BACKUP_SUFFIX: &'static str = ".json.bak";

/// Relies on `dirs::home_dir`: the user's home directory as the platform
/// defines it, or `None` when it cannot be found. It depends on the
/// environment, so nothing more is said.
#[verifier::external_body]
fn home_dir() -> (r: Option<std::path::PathBuf>) {
    dirs::home_dir()
}

/// The path `base` with `component` appended, as `Path::join` builds it.
pub uninterp spec fn joined(base: std::path::PathBuf, component: Seq<char>) -> std::path::PathBuf;

/// Relies on `Path::join`: the path with one more component, a function of
/// its arguments alone.
#[verifier::external_body]
fn join_path(base: &std::path::PathBuf, component: &str) -> (r: std::path::PathBuf)
    ensures
        r == joined(*base, component@),
{
    base.join(component)
}

/// Relies on `Path::exists`: whether something is at the path now. It depends
/// on the file system, so nothing more is said.
#[verifier::external_body]
fn path_exists(path: &std::path::PathBuf) -> (r: bool) {
    path.exists()
}

/// The database's path under the home directory `home`.
pub open spec fn database_path_under(home: std::path::PathBuf) -> std::path::PathBuf {
    joined(joined(home, DATABASE_DIR_NAME@), DATABASE_FILE_NAME@)
}

/// Where the database lives under the home directory `home`:
/// `<home>/.crab/credentials.json`, or `PathResolution` when there is no home.
pub fn database_path_in(home: Option<std::path::PathBuf>) -> (r: CredentialResult<
    std::path::PathBuf,
>)
    ensures
        r is Err <==> home is None,
        r matches Err(e) ==> e is PathResolution,
        home matches Some(h) ==> (r matches Ok(p) && p == database_path_under(h)),
{
    match home {
        Some(home) => {
            let dir = join_path(&home, DATABASE_DIR_NAME);
            Ok(join_path(&dir, DATABASE_FILE_NAME))
        },
        None => Err(CredentialError::PathResolution),
    }
}

/// Where the database lives: `<home>/.crab/credentials.json` under the
/// user's home directory. The only failure is `PathResolution`.
pub fn get_database_path() -> (r: CredentialResult<std::path::PathBuf>)
    ensures
        r matches Err(e) ==> e is PathResolution,
        r matches Ok(p) ==> exists|h: std::path::PathBuf| p == #[trigger] database_path_under(h),
{
    database_path_in(home_dir())
}

/// Whether a database file exists at the resolved `path`; a path that could
/// not be resolved counts as no file.
pub fn database_exists_at(path: &CredentialResult<std::path::PathBuf>) -> (r: bool)
    ensures
        path is Err ==> !r,
{
    match path {
        Ok(p) => path_exists(p),
        Err(_) => false,
    }
}

/// Whether the database file exists under the user's home directory; an
/// unknown home directory counts as no file.
pub fn database_exists() -> (r: bool) {
    let path = get_database_path();
    database_exists_at(&path)
}

/// The file name of a backup made at `timestamp`.
pub open spec fn backup_name(timestamp: u64) -> Seq<char> {
    BACKUP_PREFIX@ + decimal(timestamp as nat) + BACKUP_SUFFIX@
}

/// The file name of a backup made at `timestamp` seconds since the epoch:
/// `credentials_<timestamp>.json.bak`.
pub fn backup_file_name(timestamp: u64) -> (r: String)
    ensures
        r@ == backup_name(timestamp),
{
    let mut r = BACKUP_PREFIX.to_owned();
    let digits = decimal_string(timestamp);
    r.push_str(digits.as_str());
    r.push_str(BACKUP_SUFFIX);
    r
}

/// Backups made in different seconds have different file names, so none
/// overwrites another.
pub proof fn lemma_backup_names_distinct(t1: u64, t2: u64)
    requires
        t1 != t2,
    ensures
        backup_name(t1) != backup_name(t2),
{
    if backup_name(t1) == backup_name(t2) {
        lemma_framed_injective(BACKUP_PREFIX@, decimal(t1 as nat), decimal(t2 as nat), BACKUP_SUFFIX@);
        lemma_decimal_injective(t1 as nat, t2 as nat);
    }
}

/// Backup and delete need a database file: `DatabaseNotFound` when there is none.
pub fn require_database(exists: bool) -> (r: CredentialResult<()>)
    ensures
        r is Ok <==> exists,
        r matches Err(e) ==> e is DatabaseNotFound,
{
    if exists {
        Ok(())
    } else {
        Err(CredentialError::database_not_found())
    }
}

/// The database that loading yields from what was found on disk: no file
/// means a new, empty database; a file yields what parsing it gave,
/// its failure included, never an empty database in its place.
pub fn database_from_stored(stored: Option<CredentialResult<CredentialDatabase>>) -> (r:
    CredentialResult<CredentialDatabase>)
    ensures
        stored is None ==> (r matches Ok(db) && db.entries@.len() == 0 && db.version@
            == CURRENT_VERSION@),
        stored matches Some(found) ==> r == found,
{
    match stored {
        None => Ok(CredentialDatabase::new()),
        Some(found) => found,
    }
}

} // verus!
