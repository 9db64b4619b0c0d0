//! Where the jar keeps its files, and what it needs to reach the remote
//! store. The environment is read outside the library; what was found there
//! is handed in.

use vstd::prelude::*;
use vstd::string::*;

verus! {

/// Name of the jar's directory, below the user's home directory.
pub const DIR_NAME: &'static str = ".cookie_jar";

/// Name of the local replica's file, inside the jar's directory.
pub const DB_FILE_NAME: &'static str = "cookie_jar.db";

/// Name of the settings file, inside the jar's directory.
pub const ENV_FILE_NAME: &'static str = ".env";

/// What is missing from the process configuration.
#[derive(Debug, Clone, Copy, PartialEq, Eq, Structural)]
pub enum ConfigError {
    /// Neither `HOME` nor `USERPROFILE` is set.
    HomeNotFound,
    /// `TURSO_DATABASE_URL` is not set.
    MissingDatabaseUrl,
    /// `TURSO_AUTH_TOKEN` is not set.
    MissingAuthToken,
}

/// The home directory to go by: `HOME` where it is set, else `USERPROFILE`.
pub open spec fn chosen_home(home: Option<Seq<char>>, user_profile: Option<Seq<char>>) -> Option<
    Seq<char>,
> {
    match home {
        Some(dir) => Some(dir),
        None => user_profile,
    }
}

/// Whether a separator has to stand between `dir` and a name below it: not
/// after an empty `dir`, which stands for the working directory, and not
/// after a `dir` that ends in one.
pub open spec fn needs_separator(dir: Seq<char>) -> bool {
    dir.len() > 0 && dir.last() != '/'
}

/// `name` below `dir`, for a `name` that is a plain file name. Where a
/// separator is needed it is `/`, which every platform the jar runs on reads
/// as one.
pub open spec fn below(dir: Seq<char>, name: Seq<char>) -> Seq<char> {
    if needs_separator(dir) {
        dir + "/"@ + name
    } else {
        dir + name
    }
}

fn join(dir: &str, name: &str) -> (r: String)
    ensures
        r@ == below(dir@, name@),
{
    let length: usize = dir.unicode_len();
    let mut path = dir.to_owned();
    if length > 0 && dir.get_char(length - 1) != '/' {
        path.append("/");
    }
    path.append(name);
    path
}

/// The jar's directory, given what `HOME` and `USERPROFILE` hold.
pub fn get_cookiejar_dir(home: Option<String>, user_profile: Option<String>) -> (r: Result<
    String,
    ConfigError,
>)
    ensures
        match chosen_home(home.deep_view(), user_profile.deep_view()) {
            Some(dir) => r matches Ok(path) && path@ == below(dir, DIR_NAME@),
            None => r == Err::<String, ConfigError>(ConfigError::HomeNotFound),
        },
{
    let base = match home {
        Some(dir) => dir,
        None => match user_profile {
            Some(dir) => dir,
            None => return Err(ConfigError::HomeNotFound),
        },
    };
    Ok(join(base.as_str(), DIR_NAME))
}

/// The path of the local replica's file.
pub fn get_db_path(home: Option<String>, user_profile: Option<String>) -> (r: Result<
    String,
    ConfigError,
>)
    ensures
        match chosen_home(home.deep_view(), user_profile.deep_view()) {
            Some(dir) => r matches Ok(path) && path@ == below(
                below(dir, DIR_NAME@),
                DB_FILE_NAME@,
            ),
            None => r == Err::<String, ConfigError>(ConfigError::HomeNotFound),
        },
{
    match get_cookiejar_dir(home, user_profile) {
        Ok(dir) => Ok(join(dir.as_str(), DB_FILE_NAME)),
        Err(error) => Err(error),
    }
}

/// The path of the settings file.
pub fn get_env_path(home: Option<String>, user_profile: Option<String>) -> (r: Result<
    String,
    ConfigError,
>)
    ensures
        match chosen_home(home.deep_view(), user_profile.deep_view()) {
            Some(dir) => r matches Ok(path) && path@ == below(
                below(dir, DIR_NAME@),
                ENV_FILE_NAME@,
            ),
            None => r == Err::<String, ConfigError>(ConfigError::HomeNotFound),
        },
{
    match get_cookiejar_dir(home, user_profile) {
        Ok(dir) => Ok(join(dir.as_str(), ENV_FILE_NAME)),
        Err(error) => Err(error),
    }
}

/// What is said when no home directory is found.
pub const HOME_NOT_FOUND: &'static str =
    "Could not determine home directory. Please set HOME or USERPROFILE environment variable.";

/// What is said when the remote endpoint is not configured.
pub const MISSING_DATABASE_URL: &'static str = "TURSO_DATABASE_URL must be set in .env file";

/// What is said when the token for the remote endpoint is not configured.
pub const MISSING_AUTH_TOKEN: &'static str = "TURSO_AUTH_TOKEN must be set in .env file";

/// What a configuration error says of itself.
pub open spec fn config_error_text(error: ConfigError) -> Seq<char> {
    match error {
        ConfigError::HomeNotFound => HOME_NOT_FOUND@,
        ConfigError::MissingDatabaseUrl => MISSING_DATABASE_URL@,
        ConfigError::MissingAuthToken => MISSING_AUTH_TOKEN@,
    }
}

impl ConfigError {
    /// The error in words, for the user.
    pub fn message(self) -> (r: &'static str)
        ensures
            r@ == config_error_text(self),
    {
        match self {
            ConfigError::HomeNotFound => HOME_NOT_FOUND,
            ConfigError::MissingDatabaseUrl => MISSING_DATABASE_URL,
            ConfigError::MissingAuthToken => MISSING_AUTH_TOKEN,
        }
    }
}

} // verus!
