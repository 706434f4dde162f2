use pgnotes::config::{is_debug, Config, ConfigError, Variable};

fn some(text: &str) -> Option<String> {
    Some(text.to_string())
}

fn sample() -> Config {
    Config::from_values(some("postgres://localhost"), some("notebook"), some("notes")).unwrap()
}

#[test]
fn config_holds_the_three_values() {
    let config = sample();
    assert_eq!(config.database_url, "postgres://localhost");
    assert_eq!(config.database_name, "notebook");
    assert_eq!(config.table_name, "notes");
}

#[test]
fn config_needs_the_server() {
    let made = Config::from_values(None, some("notebook"), some("notes"));
    assert_eq!(made, Err(ConfigError::Missing(Variable::DatabaseUrl)));
}

#[test]
fn config_needs_the_database() {
    let made = Config::from_values(some("postgres://localhost"), None, some("notes"));
    assert_eq!(made, Err(ConfigError::Missing(Variable::DatabaseName)));
}

#[test]
fn config_needs_the_table() {
    let made = Config::from_values(some("postgres://localhost"), some("notebook"), None);
    assert_eq!(made, Err(ConfigError::Missing(Variable::TableName)));
}

#[test]
fn config_reports_the_first_missing_value() {
    assert_eq!(
        Config::from_values(None, None, None),
        Err(ConfigError::Missing(Variable::DatabaseUrl))
    );
    assert_eq!(
        Config::from_values(some("postgres://localhost"), None, None),
        Err(ConfigError::Missing(Variable::DatabaseName))
    );
}

#[test]
fn config_error_names_the_variable() {
    assert_eq!(
        ConfigError::Missing(Variable::DatabaseUrl).message(),
        "DATABASE_URL not set in .env"
    );
    assert_eq!(
        ConfigError::Missing(Variable::DatabaseName).message(),
        "DATABASE_NAME not set in .env"
    );
    assert_eq!(ConfigError::Missing(Variable::TableName).message(), "TABLE_NAME not set in .env");
}

#[test]
fn variable_names() {
    assert_eq!(Variable::DatabaseUrl.name(), "DATABASE_URL");
    assert_eq!(Variable::DatabaseName.name(), "DATABASE_NAME");
    assert_eq!(Variable::TableName.name(), "TABLE_NAME");
}

#[test]
fn server_url_is_the_base_address() {
    assert_eq!(sample().server_url(), "postgres://localhost");
}

#[test]
fn target_url_appends_the_database() {
    assert_eq!(sample().target_url(), "postgres://localhost/notebook");
}

#[test]
fn debug_is_on_for_one_only() {
    assert!(is_debug(&some("1")));
    assert!(!is_debug(&some("0")));
    assert!(!is_debug(&some("true")));
    assert!(!is_debug(&some("")));
    assert!(!is_debug(&some("11")));
    assert!(!is_debug(&some(" 1")));
    assert!(!is_debug(&None));
}
