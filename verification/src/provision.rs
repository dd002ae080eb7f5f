//! Ephemeral test-database provisioning: a linear, fail-fast run that
//! names a fresh database, connects administratively, creates it,
//! connects a pool to it and migrates it. The run itself decides; the
//! caller performs each requested piece of outside work and reports how
//! it went.
use vstd::prelude::*;
use vstd::string::*;

use crate::configuration::{
    spec_with_db, spec_without_db, Configuration, ConnectionDescriptor, DatabaseConfig, DbView,
};
use crate::errors::{DatabaseError, DatabaseErrorView};

verus! {

/// A character that a generated database name may contain: a lowercase
/// hexadecimal digit or a hyphen.
pub open spec fn is_identifier_char(c: char) -> bool {
    (48 <= c as u32 && c as u32 <= 57) || (97 <= c as u32 && c as u32 <= 102) || c == '-'
}

/// Relies on uuid::Uuid::new_v4 and on the Display form of a Uuid,
/// which is the hyphenated lowercase encoding: 36 characters, each a
/// lowercase hexadecimal digit or a hyphen. The value is random;
/// nothing relates one call to the next.
#[verifier::external_body]
fn random_identifier() -> (r: String)
    ensures
        r@.len() == 36,
        forall|i: int| 0 <= i < r@.len() ==> is_identifier_char(#[trigger] r@[i]),
{
    uuid::Uuid::new_v4().to_string()
}

/// The create-database statement for a name, the name quoted so that an
/// arbitrary-looking identifier is tolerated.
pub open spec fn spec_create_statement(name: Seq<char>) -> Seq<char> {
    "CREATE DATABASE \""@ + name + "\";"@
}

/// Build the quoted create-database statement. Quoting is sound only
/// for a name without a double quote, which every generated name is.
pub fn create_database_statement(name: &str) -> (r: String)
    requires
        forall|i: int| 0 <= i < name@.len() ==> name@[i] != '"',
    ensures
        r@ == spec_create_statement(name@),
{
    let s: String = String::from_str("CREATE DATABASE \"").concat(name).concat("\";");
    proof {
        assert(s@ =~= spec_create_statement(name@));
    }
    s
}

/// Where a provisioning run stands: which step is next, or that the run
/// is complete.
#[derive(Clone, Copy, Debug, PartialEq, Eq, Structural)]
pub enum ProvisionPhase {
    AdminConnect,
    CreateDatabase,
    PoolConnect,
    Migrate,
    Ready,
}

/// The linear order of the run: each successful step moves to the next
/// phase, and `Ready` is terminal.
pub open spec fn next_phase(p: ProvisionPhase) -> ProvisionPhase {
    match p {
        ProvisionPhase::AdminConnect => ProvisionPhase::CreateDatabase,
        ProvisionPhase::CreateDatabase => ProvisionPhase::PoolConnect,
        ProvisionPhase::PoolConnect => ProvisionPhase::Migrate,
        ProvisionPhase::Migrate => ProvisionPhase::Ready,
        ProvisionPhase::Ready => ProvisionPhase::Ready,
    }
}

/// Which error a failure in a given phase carries.
pub open spec fn phase_error(p: ProvisionPhase, detail: Seq<char>) -> DatabaseErrorView {
    match p {
        ProvisionPhase::AdminConnect => DatabaseErrorView::AdminConnectFailed(detail),
        ProvisionPhase::CreateDatabase => DatabaseErrorView::CreateFailed(detail),
        ProvisionPhase::PoolConnect => DatabaseErrorView::PoolConnectFailed(detail),
        ProvisionPhase::Migrate => DatabaseErrorView::MigrationFailed(detail),
        ProvisionPhase::Ready => DatabaseErrorView::MigrationFailed(detail),
    }
}

/// One piece of outside work a provisioning run asks its caller for.
pub enum ProvisionAction {
    /// Open a single administrative connection with this descriptor.
    ConnectAdmin(ConnectionDescriptor),
    /// Execute this statement on the administrative connection.
    RunCreate(String),
    /// Open a connection pool with this descriptor.
    ConnectPool(ConnectionDescriptor),
    /// Apply the ordered schema migrations to the pool.
    RunMigrations,
}

/// One provisioning run. The run is a decision procedure: it hands out
/// the next action, the caller does the outside work and reports
/// success or failure, and a failure in any phase is terminal — the run
/// never retries and never hands a partially provisioned database out
/// as ready.
pub struct Provisioner {
    database: DatabaseConfig,
    phase: ProvisionPhase,
    failure: Option<DatabaseError>,
}

impl Provisioner {
    /// The database section the run connects with: the configured
    /// server and credentials, under the generated database name.
    pub closed spec fn spec_database(&self) -> DbView {
        self.database@
    }

    /// Which step is next.
    pub closed spec fn spec_phase(&self) -> ProvisionPhase {
        self.phase
    }

    /// The terminal failure, if one was reported.
    pub closed spec fn spec_failure(&self) -> Option<DatabaseErrorView> {
        match self.failure {
            Option::Some(ref e) => Some(e@),
            Option::None => None,
        }
    }

    /// The generated name is safe to quote.
    pub open spec fn name_ok(&self) -> bool {
        forall|i: int|
            0 <= i < self.spec_database().database_name.len()
                ==> #[trigger] self.spec_database().database_name[i] != '"'
    }

    /// Read the database section, generated name included.
    pub fn database(&self) -> (d: &DatabaseConfig)
        ensures
            d@ == self.spec_database(),
    {
        &self.database
    }

    /// Start a run: take the configured database section, but under a
    /// fresh random database name, so that the run is isolated from
    /// every other. The name is never reused and the run never deletes
    /// the database; teardown is left to the surrounding harness.
    pub fn begin(config: &Configuration) -> (p: Provisioner)
        ensures
            p.spec_phase() == ProvisionPhase::AdminConnect,
            p.spec_failure() is None,
            p.spec_database().username == config@.database.username,
            p.spec_database().password == config@.database.password,
            p.spec_database().host == config@.database.host,
            p.spec_database().port == config@.database.port,
            p.spec_database().database_name.len() == 36,
            forall|i: int|
                0 <= i < p.spec_database().database_name.len() ==> is_identifier_char(
                    #[trigger] p.spec_database().database_name[i],
                ),
            p.name_ok(),
    {
        let name: String = random_identifier();
        let p = Provisioner {
            database: DatabaseConfig {
                username: config.database.username.clone(),
                password: config.database.password.clone(),
                port: config.database.port,
                host: config.database.host.clone(),
                database_name: name,
            },
            phase: ProvisionPhase::AdminConnect,
            failure: Option::None,
        };
        proof {
            assert forall|i: int| 0 <= i < p.spec_database().database_name.len() implies #[trigger] p.spec_database().database_name[i]
                != '"' by {
                assert(is_identifier_char(p.spec_database().database_name[i]));
            }
        }
        p
    }

    /// The next piece of outside work, or nothing when the run is ready
    /// or has failed. Admin connection and create statement come before
    /// the pool, the pool before the migrations; the descriptors are
    /// exactly those the database section derives.
    pub fn next_action(&self) -> (a: Option<ProvisionAction>)
        requires
            self.name_ok(),
        ensures
            match a {
                Some(act) => self.spec_failure() is None && match act {
                    ProvisionAction::ConnectAdmin(d) => self.spec_phase()
                        == ProvisionPhase::AdminConnect && d@ == spec_without_db(
                        self.spec_database(),
                    ),
                    ProvisionAction::RunCreate(s) => self.spec_phase()
                        == ProvisionPhase::CreateDatabase && s@ == spec_create_statement(
                        self.spec_database().database_name,
                    ),
                    ProvisionAction::ConnectPool(d) => self.spec_phase()
                        == ProvisionPhase::PoolConnect && d@ == spec_with_db(
                        self.spec_database(),
                    ),
                    ProvisionAction::RunMigrations => self.spec_phase()
                        == ProvisionPhase::Migrate,
                },
                None => self.spec_failure() is Some || self.spec_phase()
                    == ProvisionPhase::Ready,
            },
    {
        if self.failure.is_some() {
            return Option::None;
        }
        match self.phase {
            ProvisionPhase::AdminConnect => Option::Some(
                ProvisionAction::ConnectAdmin(self.database.without_db()),
            ),
            ProvisionPhase::CreateDatabase => Option::Some(
                ProvisionAction::RunCreate(
                    create_database_statement(self.database.database_name.as_str()),
                ),
            ),
            ProvisionPhase::PoolConnect => Option::Some(
                ProvisionAction::ConnectPool(self.database.with_db()),
            ),
            ProvisionPhase::Migrate => Option::Some(ProvisionAction::RunMigrations),
            ProvisionPhase::Ready => Option::None,
        }
    }

    /// The caller reports that the requested work succeeded: the run
    /// moves to the next phase and nothing else changes.
    pub fn report_success(&mut self)
        requires
            old(self).spec_failure() is None,
            old(self).spec_phase() != ProvisionPhase::Ready,
        ensures
            final(self).spec_phase() == next_phase(old(self).spec_phase()),
            final(self).spec_failure() is None,
            final(self).spec_database() == old(self).spec_database(),
    {
        self.phase = match self.phase {
            ProvisionPhase::AdminConnect => ProvisionPhase::CreateDatabase,
            ProvisionPhase::CreateDatabase => ProvisionPhase::PoolConnect,
            ProvisionPhase::PoolConnect => ProvisionPhase::Migrate,
            ProvisionPhase::Migrate => ProvisionPhase::Ready,
            ProvisionPhase::Ready => ProvisionPhase::Ready,
        };
    }

    /// The caller reports that the requested work failed, with the
    /// driver's detail — for a migration failure, the identifier of the
    /// first failing migration. The failure is terminal for this run:
    /// the phase it struck is recorded and no further action follows.
    pub fn report_failure(&mut self, detail: String)
        requires
            old(self).spec_failure() is None,
            old(self).spec_phase() != ProvisionPhase::Ready,
        ensures
            final(self).spec_phase() == old(self).spec_phase(),
            final(self).spec_database() == old(self).spec_database(),
            final(self).spec_failure() == Some(phase_error(old(self).spec_phase(), detail@)),
    {
        let e: DatabaseError = match self.phase {
            ProvisionPhase::AdminConnect => DatabaseError::AdminConnectFailed(detail),
            ProvisionPhase::CreateDatabase => DatabaseError::CreateFailed(detail),
            ProvisionPhase::PoolConnect => DatabaseError::PoolConnectFailed(detail),
            ProvisionPhase::Migrate => DatabaseError::MigrationFailed(detail),
            ProvisionPhase::Ready => DatabaseError::MigrationFailed(detail),
        };
        self.failure = Option::Some(e);
    }

    /// Whether the run has fully succeeded: every phase passed and the
    /// pool against the migrated database is the caller's to use.
    pub fn is_ready(&self) -> (r: bool)
        ensures
            r == (self.spec_phase() == ProvisionPhase::Ready && self.spec_failure() is None),
    {
        self.failure.is_none() && self.phase == ProvisionPhase::Ready
    }

    /// The recorded failure, if the run failed.
    pub fn failure(&self) -> (r: Option<&DatabaseError>)
        ensures
            match r {
                Some(e) => self.spec_failure() == Some(e@),
                None => self.spec_failure() is None,
            },
    {
        self.failure.as_ref()
    }
}

} // verus!
