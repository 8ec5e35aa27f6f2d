use vstd::prelude::*;
use crate::validation::{FieldError, FieldErrorModel};

verus! {

/// What the lookup of a login among the stored accounts came back with.
#[derive(Clone, Copy, Debug, PartialEq, Eq, Structural)]
pub enum UserLookup {
    /// The lookup itself failed.
    Failed,
    /// No stored account has the login.
    Absent,
    /// An account with the login is already stored.
    Present,
}

/// The verdict on a login's uniqueness, as text.
pub open spec fn spec_unique_username(lookup: UserLookup) -> Result<(), FieldErrorModel> {
    match lookup {
        UserLookup::Failed => Err(
            FieldErrorModel { code: "InternalServerErrorOnValidation"@, message: None },
        ),
        UserLookup::Absent => Ok(()),
        UserLookup::Present => Err(FieldErrorModel { code: "InvalidUsername"@, message: None }),
    }
}

/// Decides whether a login may be registered from the lookup of it among
/// the stored accounts: only a login that is surely absent passes.
pub fn validate_unique_username(lookup: UserLookup) -> (res: Result<(), FieldError>)
    ensures
        match (res, spec_unique_username(lookup)) {
            (Ok(()), Ok(())) => true,
            (Err(e), Err(m)) => e@ == m,
            _ => false,
        },
{
    match lookup {
        UserLookup::Failed => Err(
            FieldError { code: "InternalServerErrorOnValidation".to_owned(), message: None },
        ),
        UserLookup::Absent => Ok(()),
        UserLookup::Present => Err(FieldError { code: "InvalidUsername".to_owned(), message: None }),
    }
}

/// Which of the two database clients the service opens.
#[derive(Clone, Copy, Debug, PartialEq, Eq, Structural)]
pub enum ClientMode {
    Async,
    Sync,
}

/// The options the service sets on a database client before opening it.
pub struct MongoSettings {
    pub app_name: String,
    pub connect_timeout_secs: u64,
    pub server_selection_timeout_secs: u64,
    pub default_database: String,
    pub max_connecting: u32,
}

/// The options of each client: its own application name, five seconds to
/// connect and to select a server, the `TaskManager` database, and at most
/// six connections being established at once.
pub fn mongodb_settings(mode: ClientMode) -> (s: MongoSettings)
    ensures
        s.app_name@ == (match mode {
            ClientMode::Async => "TaskManager API async"@,
            ClientMode::Sync => "TaskManager API sync"@,
        }),
        s.connect_timeout_secs == 5,
        s.server_selection_timeout_secs == 5,
        s.default_database@ == "TaskManager"@,
        s.max_connecting == 6,
{
    let app_name = match mode {
        ClientMode::Async => "TaskManager API async".to_owned(),
        ClientMode::Sync => "TaskManager API sync".to_owned(),
    };
    MongoSettings {
        app_name,
        connect_timeout_secs: 5,
        server_selection_timeout_secs: 5,
        default_database: "TaskManager".to_owned(),
        max_connecting: 6,
    }
}

/// Number of connections kept in the pool of the session store.
pub const REDIS_POOL_SIZE: usize = 5;

/// A store the service could not reach at start-up.
#[derive(Clone, Copy, Debug, PartialEq, Eq, Structural)]
pub enum StartupFailure {
    MongoDb,
    Redis,
}

impl StartupFailure {
    /// Status the process exits with: 1 for the database, 2 for the session store.
    pub fn exit_code(&self) -> (code: i32)
        ensures
            code == (match self {
                StartupFailure::MongoDb => 1i32,
                StartupFailure::Redis => 2i32,
            }),
    {
        match self {
            StartupFailure::MongoDb => 1,
            StartupFailure::Redis => 2,
        }
    }
}

} // verus!
