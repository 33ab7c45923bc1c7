use vstd::prelude::*;
use vstd::string::StringExecFns;

verus! {

/// The name of the setting that holds the storage connection string.
pub const DATABASE_URL_KEY: &'static str = "DATABASE_URL";

/// Why the storage pool cannot be set up.
#[derive(Debug, Clone, PartialEq)]
pub enum StartupError {
    /// A required setting is absent; the setting's name.
    MissingVariable(String),
}

/// Takes the storage connection string out of the setting's value, or fails
/// with an error that names the missing setting.
pub fn database_url(value: Option<String>) -> (r: Result<String, StartupError>)
    ensures
        value is Some ==> r == Ok::<String, StartupError>(value->Some_0),
        value is None ==> (r matches Err(StartupError::MissingVariable(k)) && k@ == DATABASE_URL_KEY@),
{
    match value {
        Some(url) => Ok(url),
        None => Err(StartupError::MissingVariable(String::from_str(DATABASE_URL_KEY))),
    }
}

} // verus!
