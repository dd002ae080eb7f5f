//! Error taxonomy: configuration resolution errors and test-database
//! provisioning errors. All of them are fatal to startup; none is retried.
use vstd::prelude::*;
use vstd::string::*;

verus! {

/// Abstract value of a [`ConfigurationError`].
pub ghost enum ConfigErrorView {
    LayerUnreadable(Seq<char>),
    MissingField(Seq<char>),
    InvalidValue(Seq<char>),
    InvalidEnvironment(Seq<char>),
}

/// A failure to resolve the layered configuration: an unreadable layer,
/// a missing required field, a value of the wrong type, or an invalid
/// deployment-environment name. Loading never returns a partial result.
#[derive(Debug)]
pub enum ConfigurationError {
    /// A configuration layer could not be read; carries a description
    /// of the layer.
    LayerUnreadable(String),
    /// A required field was absent from every layer; carries the key.
    MissingField(String),
    /// A field was present but could not be coerced to its declared
    /// type; carries the key.
    InvalidValue(String),
    /// The deployment-environment name matched no known environment;
    /// carries the rejected name.
    InvalidEnvironment(String),
}

impl View for ConfigurationError {
    type V = ConfigErrorView;

    open spec fn view(&self) -> ConfigErrorView {
        match self {
            ConfigurationError::LayerUnreadable(s) => ConfigErrorView::LayerUnreadable(s@),
            ConfigurationError::MissingField(s) => ConfigErrorView::MissingField(s@),
            ConfigurationError::InvalidValue(s) => ConfigErrorView::InvalidValue(s@),
            ConfigurationError::InvalidEnvironment(s) => ConfigErrorView::InvalidEnvironment(s@),
        }
    }
}

/// The descriptive message of a [`ConfigurationError`].
pub open spec fn spec_config_error_message(e: ConfigErrorView) -> Seq<char> {
    match e {
        ConfigErrorView::LayerUnreadable(s) => "could not read configuration layer `"@ + s + "`"@,
        ConfigErrorView::MissingField(s) => "missing configuration field `"@ + s + "`"@,
        ConfigErrorView::InvalidValue(s) => "invalid value for configuration field `"@ + s + "`"@,
        ConfigErrorView::InvalidEnvironment(s) => s
            + " is not supported environment. Use either `local` or `prod`."@,
    }
}

impl ConfigurationError {
    /// Render the error for diagnostics.
    pub fn message(&self) -> (r: String)
        ensures
            r@ == spec_config_error_message(self@),
    {
        match self {
            ConfigurationError::LayerUnreadable(s) => String::from_str(
                "could not read configuration layer `",
            ).concat(s.as_str()).concat("`"),
            ConfigurationError::MissingField(s) => String::from_str(
                "missing configuration field `",
            ).concat(s.as_str()).concat("`"),
            ConfigurationError::InvalidValue(s) => String::from_str(
                "invalid value for configuration field `",
            ).concat(s.as_str()).concat("`"),
            ConfigurationError::InvalidEnvironment(s) => String::from_str(s.as_str()).concat(
                " is not supported environment. Use either `local` or `prod`.",
            ),
        }
    }
}

/// Abstract value of a [`DatabaseError`].
pub ghost enum DatabaseErrorView {
    AdminConnectFailed(Seq<char>),
    CreateFailed(Seq<char>),
    PoolConnectFailed(Seq<char>),
    MigrationFailed(Seq<char>),
}

/// A failure while provisioning an ephemeral test database. Each variant
/// names the step that failed and carries the underlying driver detail;
/// a migration failure carries the identifier of the first failing
/// migration.
#[derive(Debug)]
pub enum DatabaseError {
    /// The administrative connection (no target database) failed.
    AdminConnectFailed(String),
    /// The create-database statement failed.
    CreateFailed(String),
    /// Opening the connection pool against the new database failed.
    PoolConnectFailed(String),
    /// Applying the schema migrations failed; carries the identifier of
    /// the first failing migration.
    MigrationFailed(String),
}

impl View for DatabaseError {
    type V = DatabaseErrorView;

    open spec fn view(&self) -> DatabaseErrorView {
        match self {
            DatabaseError::AdminConnectFailed(s) => DatabaseErrorView::AdminConnectFailed(s@),
            DatabaseError::CreateFailed(s) => DatabaseErrorView::CreateFailed(s@),
            DatabaseError::PoolConnectFailed(s) => DatabaseErrorView::PoolConnectFailed(s@),
            DatabaseError::MigrationFailed(s) => DatabaseErrorView::MigrationFailed(s@),
        }
    }
}

/// The descriptive message of a [`DatabaseError`].
pub open spec fn spec_database_error_message(e: DatabaseErrorView) -> Seq<char> {
    match e {
        DatabaseErrorView::AdminConnectFailed(s) => "failed to connect to the database server: "@
            + s,
        DatabaseErrorView::CreateFailed(s) => "failed to create the database: "@ + s,
        DatabaseErrorView::PoolConnectFailed(s) => "failed to connect to the new database: "@ + s,
        DatabaseErrorView::MigrationFailed(s) => "failed to migrate the database at migration `"@
            + s + "`"@,
    }
}

impl DatabaseError {
    /// Render the error for diagnostics.
    pub fn message(&self) -> (r: String)
        ensures
            r@ == spec_database_error_message(self@),
    {
        match self {
            DatabaseError::AdminConnectFailed(s) => String::from_str(
                "failed to connect to the database server: ",
            ).concat(s.as_str()),
            DatabaseError::CreateFailed(s) => String::from_str(
                "failed to create the database: ",
            ).concat(s.as_str()),
            DatabaseError::PoolConnectFailed(s) => String::from_str(
                "failed to connect to the new database: ",
            ).concat(s.as_str()),
            DatabaseError::MigrationFailed(s) => String::from_str(
                "failed to migrate the database at migration `",
            ).concat(s.as_str()).concat("`"),
        }
    }
}

} // verus!
