use howto_cli::credentials::{
    api_key_from_file, data_dir_from, get_data_dir, key_file_steps, key_source, ConfigError, DataDir, EnvLookup,
    KeySource, Variable, DATA_DIR_ENV_VAR, DEFAULT_DATA_DIR_NAME, OPENAI_API_KEY_ENV_VAR,
    OPENAI_API_KEY_FILE,
};
use std::path::PathBuf;

#[test]
fn names_are_fixed() {
    assert_eq!(DATA_DIR_ENV_VAR, "HOWTO_CLI_DATA_DIR");
    assert_eq!(OPENAI_API_KEY_ENV_VAR, "HOWTO_CLI_OPENAI_API_KEY");
    assert_eq!(DEFAULT_DATA_DIR_NAME, ".howto-cli");
    assert_eq!(OPENAI_API_KEY_FILE, "credentials");
    assert_eq!(Variable::ApiKey.name(), "HOWTO_CLI_OPENAI_API_KEY");
    assert_eq!(Variable::DataDir.name(), "HOWTO_CLI_DATA_DIR");
}

#[test]
fn key_in_the_variable_is_used_directly() {
    assert_eq!(
        key_source(EnvLookup::Present("sk-test".to_string())),
        Ok(KeySource::Direct("sk-test".to_string()))
    );
}

#[test]
fn key_in_the_variable_is_not_trimmed() {
    assert_eq!(
        key_source(EnvLookup::Present(" sk-test\n".to_string())),
        Ok(KeySource::Direct(" sk-test\n".to_string()))
    );
    assert_eq!(
        key_source(EnvLookup::Present(String::new())),
        Ok(KeySource::Direct(String::new()))
    );
}

#[test]
fn without_the_variable_the_key_file_is_next() {
    assert_eq!(key_source(EnvLookup::NotPresent), Ok(KeySource::KeyFile));
}

#[test]
fn malformed_key_variable_fails_at_once() {
    let r = key_source(EnvLookup::NotUnicode);
    assert_eq!(r, Err(ConfigError::NotUnicode(Variable::ApiKey)));
    assert_eq!(
        r.unwrap_err().message(),
        "The value of the HOWTO_CLI_OPENAI_API_KEY environment variable is not valid Unicode."
    );
}

#[test]
fn key_file_is_trimmed() {
    assert_eq!(api_key_from_file(Ok("  sk-file \n".to_string())), Ok("sk-file".to_string()));
    assert_eq!(api_key_from_file(Ok("sk-file".to_string())), Ok("sk-file".to_string()));
    assert_eq!(api_key_from_file(Ok("\n".to_string())), Ok(String::new()));
}

#[test]
fn unreadable_key_file_keeps_its_cause() {
    let r = api_key_from_file(Err("No such file or directory (os error 2)".to_string()));
    assert_eq!(
        r,
        Err(ConfigError::UnreadableKeyFile("No such file or directory (os error 2)".to_string()))
    );
    assert_eq!(r.unwrap_err().message(), "Unable to read OpenAI API key from file");
}

#[test]
fn data_dir_variable_wins() {
    let given = Ok(DataDir::Given("/tmp/howto".to_string()));
    assert_eq!(data_dir_from(EnvLookup::Present("/tmp/howto".to_string()), None), given);
    assert_eq!(
        data_dir_from(EnvLookup::Present("/tmp/howto".to_string()), Some(PathBuf::from("/home/u"))),
        given
    );
    assert_eq!(get_data_dir(EnvLookup::Present("/tmp/howto".to_string())), given);
}

#[test]
fn data_dir_defaults_to_the_home_directory() {
    assert_eq!(
        data_dir_from(EnvLookup::NotPresent, Some(PathBuf::from("/home/u"))),
        Ok(DataDir::UnderHome(PathBuf::from("/home/u")))
    );
}

#[test]
fn unknown_home_directory_names_the_override() {
    let r = data_dir_from(EnvLookup::NotPresent, None);
    assert_eq!(r, Err(ConfigError::NoHomeDir));
    let message = r.unwrap_err().message();
    assert_eq!(
        message,
        "Unable to determine home directory. Set the HOWTO_CLI_DATA_DIR environment variable to override."
    );
    assert!(message.contains(DATA_DIR_ENV_VAR));
}

#[test]
fn malformed_data_dir_variable_is_an_error() {
    let with_home = data_dir_from(EnvLookup::NotUnicode, Some(PathBuf::from("/home/u")));
    assert_eq!(with_home, Err(ConfigError::NotUnicode(Variable::DataDir)));
    let r = get_data_dir(EnvLookup::NotUnicode);
    assert_eq!(r, Err(ConfigError::NotUnicode(Variable::DataDir)));
    assert_eq!(
        r.unwrap_err().message(),
        "The value of the HOWTO_CLI_DATA_DIR environment variable is not valid Unicode."
    );
}

#[test]
fn default_data_dir_follows_the_system() {
    let expected = match dirs::home_dir() {
        Some(home) => Ok(DataDir::UnderHome(home)),
        None => Err(ConfigError::NoHomeDir),
    };
    assert_eq!(get_data_dir(EnvLookup::NotPresent), expected);
}

#[test]
fn key_file_lies_in_the_given_directory() {
    assert_eq!(key_file_steps(&DataDir::Given("/tmp/howto".to_string())), vec!["credentials"]);
}

#[test]
fn key_file_lies_in_the_data_directory_under_home() {
    assert_eq!(
        key_file_steps(&DataDir::UnderHome(PathBuf::from("/home/u"))),
        vec![".howto-cli", "credentials"]
    );
}
