use zero2prod::configuration::{ConfigurationError, DatabaseSettings, Environment, SslMode};

fn database_settings(require_ssl: bool) -> DatabaseSettings {
    DatabaseSettings {
        username: "postgres".to_string(),
        password: "password".to_string(),
        host: "127.0.0.1".to_string(),
        port: 5432,
        database_name: "newsletter".to_string(),
        require_ssl,
    }
}

#[test]
fn the_environments_are_known_by_their_names() {
    assert_eq!(Environment::try_from("local".to_string()), Ok(Environment::Local));
    assert_eq!(Environment::try_from("production".to_string()), Ok(Environment::Production));
    assert_eq!(Environment::parse("Production".to_string()), Ok(Environment::Production));
    assert_eq!(Environment::parse("LOCAL".to_string()), Ok(Environment::Local));
    assert_eq!(
        Environment::parse("staging".to_string()),
        Err(ConfigurationError::UnsupportedEnvironment)
    );
    assert_eq!(Environment::parse("".to_string()), Err(ConfigurationError::UnsupportedEnvironment));
}

#[test]
fn a_name_that_is_not_in_lower_case_is_no_name() {
    assert_eq!(Environment::from_name("local"), Ok(Environment::Local));
    assert_eq!(Environment::from_name("production"), Ok(Environment::Production));
    assert_eq!(Environment::from_name("Local"), Err(ConfigurationError::UnsupportedEnvironment));
    assert_eq!(Environment::from_name("local "), Err(ConfigurationError::UnsupportedEnvironment));
}

#[test]
fn the_environments_name_their_files() {
    assert_eq!(Environment::Local.as_str(), "local");
    assert_eq!(Environment::Production.as_str(), "production");
    assert_eq!(Environment::Local.file_name(), "local.yaml");
    assert_eq!(Environment::Production.file_name(), "production.yaml");
}

#[test]
fn the_connection_to_the_server_names_no_database() {
    let options = database_settings(true).without_db();
    assert_eq!(options.username, "postgres");
    assert_eq!(options.password, "password");
    assert_eq!(options.host, "127.0.0.1");
    assert_eq!(options.port, 5432);
    assert_eq!(options.ssl_mode, SslMode::Require);
    assert_eq!(options.database, None);
}

#[test]
fn the_connection_to_the_database_names_it() {
    let options = database_settings(false).with_db();
    assert_eq!(options.username, "postgres");
    assert_eq!(options.password, "password");
    assert_eq!(options.host, "127.0.0.1");
    assert_eq!(options.port, 5432);
    assert_eq!(options.ssl_mode, SslMode::Prefer);
    assert_eq!(options.database, Some("newsletter".to_string()));
}
