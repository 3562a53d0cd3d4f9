use vstd::prelude::*;

verus! {

#[verifier::external_type_specification]
#[verifier::external_body]
pub struct ExIoError(std::io::Error);

#[verifier::external_type_specification]
#[verifier::external_body]
pub struct ExJsonError(serde_json::Error);

/// Everything that can go wrong while managing credentials.
#[derive(Debug)]
pub enum CredentialError {
    /// Backup or delete was asked of a database file that does not exist.
    DatabaseNotFound,
    /// A listing was asked of a database that holds no entry.
    CredentialNotStored,
    /// No entry has the named service.
    CredentialNotFound(String),
    /// The home directory, and so the database path, could not be determined.
    PathResolution,
    /// Reading, writing, copying or removing a file failed.
    IoError(std::io::Error),
    /// The stored text is not a valid database, or the database could not be written as text.
    SerializationError(serde_json::Error),
    /// An interactive step was aborted.
    UserCancelled,
}

pub type CredentialResult<T> = Result<T, CredentialError>;

/// The process exit code of each kind of error: cancellation stands apart
/// from the failures.
pub open spec fn exit_code_of(e: CredentialError) -> i32 {
    match e {
        CredentialError::UserCancelled => 100,
        CredentialError::DatabaseNotFound => 1,
        CredentialError::CredentialNotFound(_) => 2,
        CredentialError::CredentialNotStored => 3,
        CredentialError::IoError(_) => 4,
        CredentialError::SerializationError(_) => 5,
        CredentialError::PathResolution => 6,
    }
}

/// Relies on `std::io::Error`'s `Display`; the text comes from the system.
#[verifier::external_body]
fn io_error_text(e: &std::io::Error) -> (r: String) {
    e.to_string()
}

/// Relies on `serde_json::Error`'s `Display`: the cause and where it was found.
#[verifier::external_body]
fn json_error_text(e: &serde_json::Error) -> (r: String) {
    e.to_string()
}

impl CredentialError {
    pub fn credential_not_found(service: &str) -> (r: Self)
        ensures
            r matches CredentialError::CredentialNotFound(s) && s@ == service@,
    {
        CredentialError::CredentialNotFound(service.to_owned())
    }

    pub fn database_not_found() -> (r: Self)
        ensures
            r == CredentialError::DatabaseNotFound,
    {
        CredentialError::DatabaseNotFound
    }

    pub fn credentials_not_stored() -> (r: Self)
        ensures
            r == CredentialError::CredentialNotStored,
    {
        CredentialError::CredentialNotStored
    }

    pub fn user_cancelled() -> (r: Self)
        ensures
            r == CredentialError::UserCancelled,
    {
        CredentialError::UserCancelled
    }

    /// The exit code a process reports for this error.
    pub fn exit_code(&self) -> (r: i32)
        ensures
            r == exit_code_of(*self),
    {
        match self {
            CredentialError::UserCancelled => 100,
            CredentialError::DatabaseNotFound => 1,
            CredentialError::CredentialNotFound(_) => 2,
            CredentialError::CredentialNotStored => 3,
            CredentialError::IoError(_) => 4,
            CredentialError::SerializationError(_) => 5,
            CredentialError::PathResolution => 6,
        }
    }

    /// The text shown to a person for this error.
    pub fn message(&self) -> (r: String)
        ensures
            match *self {
                CredentialError::DatabaseNotFound => r@
                    == "Database file not found. Use 'add' command to create your first entry."@,
                CredentialError::CredentialNotStored => r@ == "No Credentials Stored yet."@,
                CredentialError::CredentialNotFound(s) => r@ == "No credential found for '"@ + s@
                    + "'"@,
                CredentialError::PathResolution => r@ == "Home directory not found"@,
                CredentialError::IoError(_) => r@.len() >= 23 && r@.subrange(0, 23)
                    == "File operation failed: "@,
                CredentialError::SerializationError(_) => r@.len() >= 27 && r@.subrange(0, 27)
                    == "Data serialization failed: "@,
                CredentialError::UserCancelled => r@ == "Operation cancelled by user"@,
            },
    {
        match self {
            CredentialError::DatabaseNotFound => {
                "Database file not found. Use 'add' command to create your first entry.".to_owned()
            },
            CredentialError::CredentialNotStored => "No Credentials Stored yet.".to_owned(),
            CredentialError::CredentialNotFound(service) => {
                let mut r = "No credential found for '".to_owned();
                r.push_str(service.as_str());
                r.push_str("'");
                r
            },
            CredentialError::PathResolution => "Home directory not found".to_owned(),
            CredentialError::IoError(err) => {
                let mut r = "File operation failed: ".to_owned();
                let detail = io_error_text(err);
                r.push_str(detail.as_str());
                proof {
                    reveal_strlit("File operation failed: ");
                    assert(r@.subrange(0, 23) =~= "File operation failed: "@);
                }
                r
            },
            CredentialError::SerializationError(err) => {
                let mut r = "Data serialization failed: ".to_owned();
                let detail = json_error_text(err);
                r.push_str(detail.as_str());
                proof {
                    reveal_strlit("Data serialization failed: ");
                    assert(r@.subrange(0, 27) =~= "Data serialization failed: "@);
                }
                r
            },
            CredentialError::UserCancelled => "Operation cancelled by user".to_owned(),
        }
    }
}

impl From<std::io::Error> for CredentialError {
    fn from(err: std::io::Error) -> Self {
        CredentialError::IoError(err)
    }
}

impl vstd::std_specs::convert::FromSpecImpl<std::io::Error> for CredentialError {
    open spec fn obeys_from_spec() -> bool {
        true
    }

    open spec fn from_spec(v: std::io::Error) -> Self {
        CredentialError::IoError(v)
    }
}

impl From<serde_json::Error> for CredentialError {
    fn from(err: serde_json::Error) -> Self {
        CredentialError::SerializationError(err)
    }
}

impl vstd::std_specs::convert::FromSpecImpl<serde_json::Error> for CredentialError {
    open spec fn obeys_from_spec() -> bool {
        true
    }

    open spec fn from_spec(v: serde_json::Error) -> Self {
        CredentialError::SerializationError(v)
    }
}

} // verus!
