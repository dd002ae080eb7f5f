//! The strongly-typed configuration object and the connection
//! descriptors derived from it. A configuration is only ever handed out
//! fully resolved; the database credential stays behind [`SecretString`]
//! and is exposed only at the point a descriptor is built.
use vstd::prelude::*;
use vstd::string::*;

use crate::errors::{ConfigErrorView, ConfigurationError};
use crate::layers::{
    entries_view, env_name_for, key_encoding, resolve, resolve_value, vars_view, ConfigValue,
    EntryView, EnvVar, EnvVarView, LayerEntry, ValueView,
};
use crate::secret::{spec_redacted_placeholder, SecretString};
use crate::text::{lower_seq, parse_u16, spec_decimal, spec_parse_u16, u16_string};

verus! {

/// Abstract value of [`ApplicationSettings`].
pub ghost struct AppView {
    pub host: Seq<char>,
    pub port: u16,
}

/// Abstract value of [`DatabaseConfig`], the password included: the view
/// is ghost and never printed, so holding the plain secret here is safe.
pub ghost struct DbView {
    pub username: Seq<char>,
    pub password: Seq<char>,
    pub port: u16,
    pub host: Seq<char>,
    pub database_name: Seq<char>,
}

/// Abstract value of [`Configuration`].
pub ghost struct ConfigView {
    pub application: AppView,
    pub database: DbView,
}

/// Where the HTTP side of the service binds.
pub struct ApplicationSettings {
    pub host: String,
    pub port: u16,
}

impl View for ApplicationSettings {
    type V = AppView;

    open spec fn view(&self) -> AppView {
        AppView { host: self.host@, port: self.port }
    }
}

/// The database section of the configuration. The password is wrapped;
/// reading it takes the explicit accessor on [`SecretString`].
pub struct DatabaseConfig {
    pub username: String,
    pub password: SecretString,
    pub port: u16,
    pub host: String,
    pub database_name: String,
}

impl View for DatabaseConfig {
    type V = DbView;

    open spec fn view(&self) -> DbView {
        DbView {
            username: self.username@,
            password: self.password@,
            port: self.port,
            host: self.host@,
            database_name: self.database_name@,
        }
    }
}

/// The fully resolved configuration: both sections present and typed.
pub struct Configuration {
    pub application: ApplicationSettings,
    pub database: DatabaseConfig,
}

impl View for Configuration {
    type V = ConfigView;

    open spec fn view(&self) -> ConfigView {
        ConfigView { application: self.application@, database: self.database@ }
    }
}

/// Abstract value of [`ConnectionDescriptor`].
pub ghost struct DescView {
    pub host: Seq<char>,
    pub port: u16,
    pub username: Seq<char>,
    pub password: Seq<char>,
    pub database: Option<Seq<char>>,
    pub verbose_logging: bool,
}

/// Everything needed to open a connection to the database server: the
/// server address and credentials, optionally a target database, and a
/// driver-facing hint asking for statement-level logging. Built on
/// demand from [`DatabaseConfig`], never stored, and never logged
/// wholesale: the password stands here in the clear, deliberately, for
/// the single hand-off to the driver.
pub struct ConnectionDescriptor {
    pub host: String,
    pub port: u16,
    pub username: String,
    pub password: String,
    pub database: Option<String>,
    pub verbose_logging: bool,
}

impl View for ConnectionDescriptor {
    type V = DescView;

    open spec fn view(&self) -> DescView {
        DescView {
            host: self.host@,
            port: self.port,
            username: self.username@,
            password: self.password@,
            database: match self.database {
                Option::Some(ref d) => Some(d@),
                Option::None => None,
            },
            verbose_logging: self.verbose_logging,
        }
    }
}

/// The server-only descriptor a database section derives: host, port
/// and credentials, no target database, no logging hint.
pub open spec fn spec_without_db(db: DbView) -> DescView {
    DescView {
        host: db.host,
        port: db.port,
        username: db.username,
        password: db.password,
        database: None,
        verbose_logging: false,
    }
}

/// The full descriptor a database section derives: the server-only
/// fields, the configured database name, and the verbose-logging hint.
pub open spec fn spec_with_db(db: DbView) -> DescView {
    DescView {
        host: db.host,
        port: db.port,
        username: db.username,
        password: db.password,
        database: Some(db.database_name),
        verbose_logging: true,
    }
}

/// The diagnostic rendering of a database configuration: the connection
/// parameters with the password replaced by the fixed placeholder. The
/// definition never reads the password field.
pub open spec fn spec_summary(db: DbView) -> Seq<char> {
    "postgres://"@ + db.username + ":"@ + spec_redacted_placeholder() + "@"@ + db.host + ":"@
        + spec_decimal(db.port as int) + "/"@ + db.database_name
}

impl DatabaseConfig {
    /// The server-only descriptor: host, port and credentials, no target
    /// database. Used for administrative work before a database exists.
    pub fn without_db(&self) -> (d: ConnectionDescriptor)
        ensures
            d@ == spec_without_db(self@),
    {
        ConnectionDescriptor {
            host: self.host.clone(),
            port: self.port,
            username: self.username.clone(),
            password: self.password.expose_secret().clone(),
            database: Option::None,
            verbose_logging: false,
        }
    }

    /// The full descriptor: the server-only fields plus the configured
    /// database name, with verbose statement logging requested.
    pub fn with_db(&self) -> (d: ConnectionDescriptor)
        ensures
            d@ == spec_with_db(self@),
    {
        let mut d: ConnectionDescriptor = self.without_db();
        d.database = Option::Some(self.database_name.clone());
        d.verbose_logging = true;
        d
    }

    /// Render the configuration for diagnostics. The password never
    /// appears: its place is taken by the fixed placeholder.
    pub fn summary(&self) -> (r: String)
        ensures
            r@ == spec_summary(self@),
    {
        let port: String = u16_string(self.port);
        let s: String = String::from_str("postgres://").concat(self.username.as_str()).concat(
            ":",
        ).concat("[REDACTED]").concat("@").concat(self.host.as_str()).concat(":").concat(
            port.as_str(),
        ).concat("/").concat(self.database_name.as_str());
        proof {
            assert(s@ =~= spec_summary(self@));
        }
        s
    }
}

/// What a text-typed field resolves to across the layers: the resolved
/// value if it is text, otherwise the first applicable error.
pub open spec fn spec_text_field(
    base: Seq<EntryView>,
    envl: Seq<EntryView>,
    vars: Seq<EnvVarView>,
    key: Seq<char>,
) -> Result<Seq<char>, ConfigErrorView> {
    match resolve(base, envl, vars, key) {
        Some(ValueView::Text(s)) => Ok(s),
        Some(ValueView::Integer(_)) => Err(ConfigErrorView::InvalidValue(key)),
        None => Err(ConfigErrorView::MissingField(key)),
    }
}

/// What a port-typed field resolves to across the layers: a native
/// integer in range, or a numeric string coerced to its value;
/// anything else is the first applicable error.
pub open spec fn spec_port_field(
    base: Seq<EntryView>,
    envl: Seq<EntryView>,
    vars: Seq<EnvVarView>,
    key: Seq<char>,
) -> Result<u16, ConfigErrorView> {
    match resolve(base, envl, vars, key) {
        Some(ValueView::Integer(n)) => if n <= 65535 {
            Ok(n as u16)
        } else {
            Err(ConfigErrorView::InvalidValue(key))
        },
        Some(ValueView::Text(s)) => match spec_parse_u16(s) {
            Some(p) => Ok(p),
            None => Err(ConfigErrorView::InvalidValue(key)),
        },
        None => Err(ConfigErrorView::MissingField(key)),
    }
}

/// The whole resolved configuration, or the first error, checking the
/// application section and then the database section field by field.
pub open spec fn spec_configuration(
    base: Seq<EntryView>,
    envl: Seq<EntryView>,
    vars: Seq<EnvVarView>,
) -> Result<ConfigView, ConfigErrorView> {
    match spec_text_field(base, envl, vars, "application.host"@) {
        Err(e) => Err(e),
        Ok(app_host) => match spec_port_field(base, envl, vars, "application.port"@) {
            Err(e) => Err(e),
            Ok(app_port) => match spec_text_field(base, envl, vars, "database.username"@) {
                Err(e) => Err(e),
                Ok(db_username) => match spec_text_field(base, envl, vars, "database.password"@) {
                    Err(e) => Err(e),
                    Ok(db_password) => match spec_text_field(base, envl, vars, "database.host"@) {
                        Err(e) => Err(e),
                        Ok(db_host) => match spec_port_field(base, envl, vars, "database.port"@) {
                            Err(e) => Err(e),
                            Ok(db_port) => match spec_text_field(
                                base,
                                envl,
                                vars,
                                "database.database_name"@,
                            ) {
                                Err(e) => Err(e),
                                Ok(db_name) => Ok(
                                    ConfigView {
                                        application: AppView { host: app_host, port: app_port },
                                        database: DbView {
                                            username: db_username,
                                            password: db_password,
                                            port: db_port,
                                            host: db_host,
                                            database_name: db_name,
                                        },
                                    },
                                ),
                            },
                        },
                    },
                },
            },
        },
    }
}

/// The seven configuration keys encode to these variable names.
proof fn lemma_env_names()
    ensures
        lower_seq("app__application__host"@) == env_name_for("application.host"@),
        lower_seq("app__application__port"@) == env_name_for("application.port"@),
        lower_seq("app__database__username"@) == env_name_for("database.username"@),
        lower_seq("app__database__password"@) == env_name_for("database.password"@),
        lower_seq("app__database__host"@) == env_name_for("database.host"@),
        lower_seq("app__database__port"@) == env_name_for("database.port"@),
        lower_seq("app__database__database_name"@) == env_name_for("database.database_name"@),
{
    reveal_strlit("app__");
    reveal_strlit("app__application__host");
    reveal_strlit("application.host");
    reveal_strlit("app__application__port");
    reveal_strlit("application.port");
    reveal_strlit("app__database__username");
    reveal_strlit("database.username");
    reveal_strlit("app__database__password");
    reveal_strlit("database.password");
    reveal_strlit("app__database__host");
    reveal_strlit("database.host");
    reveal_strlit("app__database__port");
    reveal_strlit("database.port");
    reveal_strlit("app__database__database_name");
    reveal_strlit("database.database_name");
    reveal_with_fuel(key_encoding, 25);
    assert(lower_seq("app__application__host"@) =~= env_name_for("application.host"@));
    assert(lower_seq("app__application__port"@) =~= env_name_for("application.port"@));
    assert(lower_seq("app__database__username"@) =~= env_name_for("database.username"@));
    assert(lower_seq("app__database__password"@) =~= env_name_for("database.password"@));
    assert(lower_seq("app__database__host"@) =~= env_name_for("database.host"@));
    assert(lower_seq("app__database__port"@) =~= env_name_for("database.port"@));
    assert(lower_seq("app__database__database_name"@) =~= env_name_for("database.database_name"@));
}

/// Resolve one text-typed field across the layers.
fn text_field(
    base: &Vec<LayerEntry>,
    envl: &Vec<LayerEntry>,
    vars: &Vec<EnvVar>,
    key: &str,
    env_name: &str,
) -> (r: Result<String, ConfigurationError>)
    requires
        lower_seq(env_name@) == env_name_for(key@),
    ensures
        match r {
            Ok(s) => spec_text_field(entries_view(base@), entries_view(envl@), vars_view(vars@), key@)
                == Ok::<Seq<char>, ConfigErrorView>(s@),
            Err(e) => spec_text_field(entries_view(base@), entries_view(envl@), vars_view(vars@), key@)
                == Err::<Seq<char>, ConfigErrorView>(e@),
        },
{
    match resolve_value(base, envl, vars, key, env_name) {
        Option::None => Err(ConfigurationError::MissingField(key.to_owned())),
        Option::Some(ConfigValue::Integer(_)) => Err(
            ConfigurationError::InvalidValue(key.to_owned()),
        ),
        Option::Some(ConfigValue::Text(s)) => Ok(s),
    }
}

/// Resolve one port-typed field across the layers, coercing a numeric
/// string to its value.
fn port_field(
    base: &Vec<LayerEntry>,
    envl: &Vec<LayerEntry>,
    vars: &Vec<EnvVar>,
    key: &str,
    env_name: &str,
) -> (r: Result<u16, ConfigurationError>)
    requires
        lower_seq(env_name@) == env_name_for(key@),
    ensures
        match r {
            Ok(p) => spec_port_field(entries_view(base@), entries_view(envl@), vars_view(vars@), key@)
                == Ok::<u16, ConfigErrorView>(p),
            Err(e) => spec_port_field(entries_view(base@), entries_view(envl@), vars_view(vars@), key@)
                == Err::<u16, ConfigErrorView>(e@),
        },
{
    match resolve_value(base, envl, vars, key, env_name) {
        Option::None => Err(ConfigurationError::MissingField(key.to_owned())),
        Option::Some(ConfigValue::Integer(n)) => if n <= 65535 {
            Ok(n as u16)
        } else {
            Err(ConfigurationError::InvalidValue(key.to_owned()))
        },
        Option::Some(ConfigValue::Text(s)) => match parse_u16(s.as_str()) {
            Option::Some(p) => Ok(p),
            Option::None => Err(ConfigurationError::InvalidValue(key.to_owned())),
        },
    }
}

/// Merge the base layer, the environment layer and the
/// process-environment overrides, and decode the result into a
/// [`Configuration`] — all of it, or a single error. The environment
/// layer overrides the base layer key by key; an override variable
/// (prefix `app`, separator `__`, as in `APP__DATABASE__PORT` for
/// `database.port`) beats both files. Numeric strings in port fields
/// are coerced at this step; nothing partial is ever returned.
pub fn get_configuration(
    base: &Vec<LayerEntry>,
    env_layer: &Vec<LayerEntry>,
    env_vars: &Vec<EnvVar>,
) -> (r: Result<Configuration, ConfigurationError>)
    ensures
        match r {
            Ok(c) => spec_configuration(
                entries_view(base@),
                entries_view(env_layer@),
                vars_view(env_vars@),
            ) == Ok::<ConfigView, ConfigErrorView>(c@),
            Err(e) => spec_configuration(
                entries_view(base@),
                entries_view(env_layer@),
                vars_view(env_vars@),
            ) == Err::<ConfigView, ConfigErrorView>(e@),
        },
{
    proof {
        lemma_env_names();
    }
    let app_host: String = match text_field(
        base,
        env_layer,
        env_vars,
        "application.host",
        "app__application__host",
    ) {
        Ok(s) => s,
        Err(e) => { return Err(e); },
    };
    let app_port: u16 = match port_field(
        base,
        env_layer,
        env_vars,
        "application.port",
        "app__application__port",
    ) {
        Ok(p) => p,
        Err(e) => { return Err(e); },
    };
    let db_username: String = match text_field(
        base,
        env_layer,
        env_vars,
        "database.username",
        "app__database__username",
    ) {
        Ok(s) => s,
        Err(e) => { return Err(e); },
    };
    let db_password: String = match text_field(
        base,
        env_layer,
        env_vars,
        "database.password",
        "app__database__password",
    ) {
        Ok(s) => s,
        Err(e) => { return Err(e); },
    };
    let db_host: String = match text_field(
        base,
        env_layer,
        env_vars,
        "database.host",
        "app__database__host",
    ) {
        Ok(s) => s,
        Err(e) => { return Err(e); },
    };
    let db_port: u16 = match port_field(
        base,
        env_layer,
        env_vars,
        "database.port",
        "app__database__port",
    ) {
        Ok(p) => p,
        Err(e) => { return Err(e); },
    };
    let db_name: String = match text_field(
        base,
        env_layer,
        env_vars,
        "database.database_name",
        "app__database__database_name",
    ) {
        Ok(s) => s,
        Err(e) => { return Err(e); },
    };
    Ok(
        Configuration {
            application: ApplicationSettings { host: app_host, port: app_port },
            database: DatabaseConfig {
                username: db_username,
                password: SecretString::new(db_password),
                port: db_port,
                host: db_host,
                database_name: db_name,
            },
        },
    )
}

/// Loading is deterministic: the resolved configuration is a function
/// of the layer contents and the overrides alone, so two loads of
/// identical inputs agree exactly, error or not.
pub proof fn lemma_load_deterministic(
    base: Seq<EntryView>,
    envl: Seq<EntryView>,
    vars: Seq<EnvVarView>,
    r1: Result<ConfigView, ConfigErrorView>,
    r2: Result<ConfigView, ConfigErrorView>,
)
    requires
        r1 == spec_configuration(base, envl, vars),
        r2 == spec_configuration(base, envl, vars),
    ensures
        r1 == r2,
{
}

/// The server-only descriptor never carries a database name — it is
/// one and the same whatever name is configured — while the full
/// descriptor always carries exactly the configured name.
pub proof fn lemma_descriptor_database_discipline(a: DbView, b: DbView)
    requires
        a.username == b.username,
        a.password == b.password,
        a.port == b.port,
        a.host == b.host,
    ensures
        spec_without_db(a).database is None,
        spec_without_db(a) == spec_without_db(b),
        spec_with_db(a).database == Some(a.database_name),
{
}

/// The diagnostic rendering is blind to the password: two database
/// configurations that differ only in their password render alike.
pub proof fn lemma_summary_ignores_password(a: DbView, b: DbView)
    requires
        a.username == b.username,
        a.port == b.port,
        a.host == b.host,
        a.database_name == b.database_name,
    ensures
        spec_summary(a) == spec_summary(b),
{
}

} // verus!
