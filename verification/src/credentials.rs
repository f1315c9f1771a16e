//! Where the API key comes from: an environment variable, or else a file in
//! the data directory.
//!
//! Nothing here reads the environment or the disk. The caller looks a
//! variable up and reads the file; the functions here take what was found
//! and decide what it means and what comes next.

use crate::text::{trim, trimmed};
use std::path::PathBuf;
use vstd::prelude::*;

verus! {

/// The variable that names the data directory.
pub const DATA_DIR_ENV_VAR: &'static str = "HOWTO_CLI_DATA_DIR";

/// The variable that holds the API key itself.
pub const OPENAI_API_KEY_ENV_VAR: &'static str = "HOWTO_CLI_OPENAI_API_KEY";

/// The data directory's name inside the home directory.
pub const DEFAULT_DATA_DIR_NAME: &'static str = ".howto-cli";

/// The name of the file, inside the data directory, that holds the API key.
pub const OPENAI_API_KEY_FILE: &'static str = "credentials";

/// `std::path::PathBuf`, carried through and never looked into.
#[verifier::external_type_specification]
#[verifier::external_body]
pub struct ExPathBuf(PathBuf);

/// What looking an environment variable up gave.
#[derive(Debug, PartialEq, Eq)]
pub enum EnvLookup {
    /// The variable is set, to this text.
    Present(String),
    /// The variable is not set.
    NotPresent,
    /// The variable is set to something that is not Unicode.
    NotUnicode,
}

/// One of the two variables that are read.
#[derive(Clone, Copy, Debug, PartialEq, Eq, Structural)]
pub enum Variable {
    ApiKey,
    DataDir,
}

/// Why no API key was found.
#[derive(Debug, PartialEq, Eq)]
pub enum ConfigError {
    /// This variable is set to something that is not Unicode.
    NotUnicode(Variable),
    /// No data directory is named and the home directory is unknown.
    NoHomeDir,
    /// The key file could not be read; the field holds the cause.
    UnreadableKeyFile(String),
}

/// The data directory.
#[derive(Debug, PartialEq, Eq)]
pub enum DataDir {
    /// The directory at this path, which the variable named.
    Given(String),
    /// The directory named `DEFAULT_DATA_DIR_NAME` inside this home
    /// directory.
    UnderHome(PathBuf),
}

/// Where the API key is to be had.
#[derive(Debug, PartialEq, Eq)]
pub enum KeySource {
    /// It is this text.
    Direct(String),
    /// It is in the file named `OPENAI_API_KEY_FILE` in the data directory.
    KeyFile,
}

impl Variable {
    /// The variable's name in the environment.
    pub open spec fn name_text(self) -> Seq<char> {
        match self {
            Variable::ApiKey => OPENAI_API_KEY_ENV_VAR@,
            Variable::DataDir => DATA_DIR_ENV_VAR@,
        }
    }

    /// The variable's name in the environment.
    pub fn name(&self) -> (r: &'static str)
        ensures
            r@ == self.name_text(),
    {
        match self {
            Variable::ApiKey => OPENAI_API_KEY_ENV_VAR,
            Variable::DataDir => DATA_DIR_ENV_VAR,
        }
    }
}

impl ConfigError {
    /// The line that tells a user of this error. Where a variable is at
    /// fault or would help, the line names it.
    pub open spec fn message_text(self) -> Seq<char> {
        match self {
            ConfigError::NotUnicode(variable) => "The value of the "@ + variable.name_text()
                + " environment variable is not valid Unicode."@,
            ConfigError::NoHomeDir => "Unable to determine home directory. Set the "@
                + DATA_DIR_ENV_VAR@ + " environment variable to override."@,
            ConfigError::UnreadableKeyFile(_) => "Unable to read OpenAI API key from file"@,
        }
    }

    /// The line that tells a user of this error.
    pub fn message(&self) -> (r: String)
        ensures
            r@ == self.message_text(),
    {
        match self {
            ConfigError::NotUnicode(variable) => {
                let mut line = "The value of the ".to_owned();
                line.append(variable.name());
                line.append(" environment variable is not valid Unicode.");
                line
            },
            ConfigError::NoHomeDir => {
                let mut line = "Unable to determine home directory. Set the ".to_owned();
                line.append(DATA_DIR_ENV_VAR);
                line.append(" environment variable to override.");
                line
            },
            ConfigError::UnreadableKeyFile(_) => "Unable to read OpenAI API key from file".to_owned(),
        }
    }
}

/// What the key variable's lookup means. A key in the variable is taken as
/// it is, without trimming; without the variable the key file is next; a
/// value that is not Unicode is an error, and the file is not tried.
pub open spec fn key_source_of(key_var: EnvLookup) -> Result<KeySource, ConfigError> {
    match key_var {
        EnvLookup::Present(key) => Ok(KeySource::Direct(key)),
        EnvLookup::NotPresent => Ok(KeySource::KeyFile),
        EnvLookup::NotUnicode => Err(ConfigError::NotUnicode(Variable::ApiKey)),
    }
}

/// Where the key is to be had, given what looking up
/// `OPENAI_API_KEY_ENV_VAR` gave.
pub fn key_source(key_var: EnvLookup) -> (r: Result<KeySource, ConfigError>)
    ensures
        r == key_source_of(key_var),
{
    match key_var {
        EnvLookup::Present(key) => Ok(KeySource::Direct(key)),
        EnvLookup::NotPresent => Ok(KeySource::KeyFile),
        EnvLookup::NotUnicode => Err(ConfigError::NotUnicode(Variable::ApiKey)),
    }
}

/// The data directory, given the lookup of the variable and the home
/// directory. The variable wins; the home directory counts only where the
/// variable is not set.
pub open spec fn data_dir_of(dir_var: EnvLookup, home: Option<PathBuf>) -> Result<
    DataDir,
    ConfigError,
> {
    match dir_var {
        EnvLookup::Present(path) => Ok(DataDir::Given(path)),
        EnvLookup::NotUnicode => Err(ConfigError::NotUnicode(Variable::DataDir)),
        EnvLookup::NotPresent => match home {
            Some(home) => Ok(DataDir::UnderHome(home)),
            None => Err(ConfigError::NoHomeDir),
        },
    }
}

/// The data directory, given what looking up `DATA_DIR_ENV_VAR` gave and the
/// home directory, if there is one.
pub fn data_dir_from(dir_var: EnvLookup, home: Option<PathBuf>) -> (r: Result<DataDir, ConfigError>)
    ensures
        r == data_dir_of(dir_var, home),
{
    match dir_var {
        EnvLookup::Present(path) => Ok(DataDir::Given(path)),
        EnvLookup::NotUnicode => Err(ConfigError::NotUnicode(Variable::DataDir)),
        EnvLookup::NotPresent => match home {
            Some(home) => Ok(DataDir::UnderHome(home)),
            None => Err(ConfigError::NoHomeDir),
        },
    }
}

/// `dirs::home_dir`: the current user's home directory, where the system
/// can tell it. Nothing is claimed of the result: it depends on the
/// environment and on the system's user database.
#[verifier::external_body]
fn home_dir() -> (r: Option<PathBuf>) {
    dirs::home_dir()
}

/// The data directory, given what looking up `DATA_DIR_ENV_VAR` gave. The
/// home directory is asked for only where the variable is not set; the
/// result is then what `data_dir_of` gives for the answer.
pub fn get_data_dir(dir_var: EnvLookup) -> (r: Result<DataDir, ConfigError>)
    ensures
        !(dir_var is NotPresent) ==> r == data_dir_of(dir_var, None),
        dir_var is NotPresent ==> exists|home: Option<PathBuf>|
            r == data_dir_of(dir_var, home),
{
    match dir_var {
        EnvLookup::NotPresent => {
            let home = home_dir();
            data_dir_from(EnvLookup::NotPresent, home)
        },
        other => data_dir_from(other, None),
    }
}

/// The names by which the key file is reached from the directory that
/// `dir` holds: with a directory that the variable named, the file's name;
/// with a home directory, the data directory's name first.
pub open spec fn key_file_steps_of(dir: DataDir) -> Seq<Seq<char>> {
    match dir {
        DataDir::Given(_) => seq![OPENAI_API_KEY_FILE@],
        DataDir::UnderHome(_) => seq![DEFAULT_DATA_DIR_NAME@, OPENAI_API_KEY_FILE@],
    }
}

/// The names by which the key file is reached from the directory that
/// `dir` holds, outermost first.
pub fn key_file_steps(dir: &DataDir) -> (r: Vec<&'static str>)
    ensures
        r@.len() == key_file_steps_of(*dir).len(),
        forall|i: int| 0 <= i < r@.len() ==> (#[trigger] r@[i])@ == key_file_steps_of(*dir)[i],
{
    let mut steps: Vec<&'static str> = Vec::new();
    match dir {
        DataDir::Given(_) => {},
        DataDir::UnderHome(_) => {
            steps.push(DEFAULT_DATA_DIR_NAME);
        },
    }
    steps.push(OPENAI_API_KEY_FILE);
    steps
}

/// The key that reading the key file gives: the file's text, trimmed, or
/// the error that wraps the cause for which it could not be read.
pub open spec fn key_of_file(read: Result<String, String>) -> Result<Seq<char>, ConfigError> {
    match read {
        Ok(text) => Ok(trimmed(text@)),
        Err(cause) => Err(ConfigError::UnreadableKeyFile(cause)),
    }
}

/// The API key, given what reading the key file gave: its text, or the
/// cause of the failure.
pub fn api_key_from_file(read: Result<String, String>) -> (r: Result<String, ConfigError>)
    ensures
        match key_of_file(read) {
            Ok(key) => r.is_ok() && r.unwrap()@ == key,
            Err(e) => r == Err::<String, ConfigError>(e),
        },
{
    match read {
        Ok(text) => Ok(trim(text.as_str())),
        Err(cause) => Err(ConfigError::UnreadableKeyFile(cause)),
    }
}

} // verus!
