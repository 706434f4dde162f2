//! The settings of one run, read once at startup and handed to whatever
//! needs them.

use vstd::prelude::*;
use vstd::string::*;

verus! {

/// A setting that a run cannot do without.
#[derive(Clone, Copy, Debug, PartialEq, Eq, Structural)]
pub enum Variable {
    DatabaseUrl,
    DatabaseName,
    TableName,
}

/// The text of the name under which each setting is looked up.
pub open spec fn variable_name(variable: Variable) -> Seq<char> {
    match variable {
        Variable::DatabaseUrl => "DATABASE_URL"@,
        Variable::DatabaseName => "DATABASE_NAME"@,
        Variable::TableName => "TABLE_NAME"@,
    }
}

impl Variable {
    /// The name under which the setting is looked up.
    pub fn name(&self) -> (name: &'static str)
        ensures
            name@ == variable_name(*self),
    {
        match self {
            Variable::DatabaseUrl => "DATABASE_URL",
            Variable::DatabaseName => "DATABASE_NAME",
            Variable::TableName => "TABLE_NAME",
        }
    }
}

/// Why no configuration could be made.
#[derive(Clone, Copy, Debug, PartialEq, Eq, Structural)]
pub enum ConfigError {
    /// A required setting has no value.
    Missing(Variable),
}

/// What is said of a missing setting.
pub open spec fn missing_text(variable: Variable) -> Seq<char> {
    variable_name(variable) + " not set in .env"@
}

impl ConfigError {
    /// A sentence for the person who started the program.
    pub fn message(&self) -> (text: String)
        ensures
            match *self {
                ConfigError::Missing(variable) => text@ == missing_text(variable),
            },
    {
        match self {
            ConfigError::Missing(variable) => {
                let mut text = String::from_str(variable.name());
                text.append(" not set in .env");
                text
            },
        }
    }
}

/// The settings of one run. Whether progress is reported is no part of
/// them: see [`is_debug`].
#[derive(Debug, PartialEq, Eq)]
pub struct Config {
    /// Where the database server is reached, without a database name and
    /// without a slash at the end.
    pub database_url: String,
    /// The database that holds the notes.
    pub database_name: String,
    /// The table that holds the notes.
    pub table_name: String,
}

/// What a [`Config`] says, as plain text.
pub struct ConfigSpec {
    pub database_url: Seq<char>,
    pub database_name: Seq<char>,
    pub table_name: Seq<char>,
}

impl View for Config {
    type V = ConfigSpec;

    open spec fn view(&self) -> ConfigSpec {
        ConfigSpec {
            database_url: self.database_url@,
            database_name: self.database_name@,
            table_name: self.table_name@,
        }
    }
}

/// Progress is reported when the switch is set to exactly `1`.
pub open spec fn debug_enabled(switch: Option<String>) -> bool {
    match switch {
        Some(value) => value@ == "1"@,
        None => false,
    }
}

/// The first required setting without a value, in the order in which they
/// are asked for: server, database, table.
pub open spec fn first_missing(
    database_url: Option<String>,
    database_name: Option<String>,
    table_name: Option<String>,
) -> Option<Variable> {
    if database_url is None {
        Some(Variable::DatabaseUrl)
    } else if database_name is None {
        Some(Variable::DatabaseName)
    } else if table_name is None {
        Some(Variable::TableName)
    } else {
        None
    }
}

/// The address of the server alone, used before the database is known to
/// exist.
pub open spec fn server_url(config: ConfigSpec) -> Seq<char> {
    config.database_url
}

/// The address of the notes database: the server's address, a slash, and the
/// database's name.
pub open spec fn target_url(config: ConfigSpec) -> Seq<char> {
    config.database_url + "/"@ + config.database_name
}

/// Decides whether progress is reported.
pub fn is_debug(switch: &Option<String>) -> (on: bool)
    ensures
        on == debug_enabled(*switch),
{
    match switch {
        Some(value) => {
            let one = String::from_str("1");
            *value == one
        },
        None => false,
    }
}

impl Config {
    /// Makes the configuration from the values found for the three
    /// settings, which must all be there. Of several missing ones the first
    /// is reported.
    pub fn from_values(
        database_url: Option<String>,
        database_name: Option<String>,
        table_name: Option<String>,
    ) -> (made: Result<Config, ConfigError>)
        ensures
            match made {
                Ok(config) => {
                    &&& first_missing(database_url, database_name, table_name) is None
                    &&& Some(config.database_url) == database_url
                    &&& Some(config.database_name) == database_name
                    &&& Some(config.table_name) == table_name
                },
                Err(ConfigError::Missing(variable)) => first_missing(
                    database_url,
                    database_name,
                    table_name,
                ) == Some(variable),
            },
    {
        let database_url = match database_url {
            Some(value) => value,
            None => {
                return Err(ConfigError::Missing(Variable::DatabaseUrl));
            },
        };
        let database_name = match database_name {
            Some(value) => value,
            None => {
                return Err(ConfigError::Missing(Variable::DatabaseName));
            },
        };
        let table_name = match table_name {
            Some(value) => value,
            None => {
                return Err(ConfigError::Missing(Variable::TableName));
            },
        };
        Ok(Config { database_url, database_name, table_name })
    }

    /// The address of the server alone.
    pub fn server_url(&self) -> (url: String)
        ensures
            url@ == server_url(self@),
    {
        self.database_url.clone()
    }

    /// The address of the notes database.
    pub fn target_url(&self) -> (url: String)
        ensures
            url@ == target_url(self@),
    {
        let mut url = self.database_url.clone();
        url.append("/");
        url.append(self.database_name.as_str());
        url
    }
}

} // verus!
