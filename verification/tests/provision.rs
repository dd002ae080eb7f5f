use z2p::configuration::{get_configuration, Configuration};
use z2p::errors::DatabaseError;
use z2p::layers::{ConfigValue, EnvVar, LayerEntry};
use z2p::provision::{ProvisionAction, Provisioner};

fn text(key: &str, value: &str) -> LayerEntry {
    LayerEntry {
        key: key.to_string(),
        value: ConfigValue::Text(value.to_string()),
    }
}

fn integer(key: &str, value: u64) -> LayerEntry {
    LayerEntry {
        key: key.to_string(),
        value: ConfigValue::Integer(value),
    }
}

fn config() -> Configuration {
    let base = vec![
        text("application.host", "127.0.0.1"),
        integer("application.port", 8000),
        text("database.username", "postgres"),
        text("database.password", "password"),
        text("database.host", "localhost"),
        integer("database.port", 5432),
        text("database.database_name", "newsletter"),
    ];
    get_configuration(&base, &Vec::new(), &Vec::<EnvVar>::new()).unwrap()
}

#[test]
fn two_runs_generate_distinct_database_names() {
    let cfg = config();
    let a = Provisioner::begin(&cfg);
    let b = Provisioner::begin(&cfg);
    let name_a = a.database().database_name.clone();
    let name_b = b.database().database_name.clone();
    assert_ne!(name_a, name_b);
    for name in [name_a, name_b] {
        assert_eq!(name.len(), 36);
        assert!(name
            .chars()
            .all(|c| c == '-' || c.is_ascii_hexdigit() && !c.is_ascii_uppercase()));
        assert_ne!(name, "newsletter");
    }
}

#[test]
fn a_successful_run_is_linear_and_ends_ready() {
    let cfg = config();
    let mut p = Provisioner::begin(&cfg);
    let generated = p.database().database_name.clone();

    match p.next_action().expect("an admin connection comes first") {
        ProvisionAction::ConnectAdmin(d) => {
            assert_eq!(d.host, "localhost");
            assert_eq!(d.port, 5432);
            assert_eq!(d.username, "postgres");
            assert_eq!(d.password, "password");
            assert!(d.database.is_none());
        }
        _ => panic!("expected the admin connection"),
    }
    p.report_success();

    match p.next_action().expect("the create statement comes second") {
        ProvisionAction::RunCreate(statement) => {
            assert_eq!(statement, format!("CREATE DATABASE \"{generated}\";"));
        }
        _ => panic!("expected the create statement"),
    }
    p.report_success();

    match p.next_action().expect("the pool connection comes third") {
        ProvisionAction::ConnectPool(d) => {
            assert_eq!(d.database.as_deref(), Some(generated.as_str()));
            assert!(d.verbose_logging);
        }
        _ => panic!("expected the pool connection"),
    }
    p.report_success();

    match p.next_action().expect("the migrations come last") {
        ProvisionAction::RunMigrations => {}
        _ => panic!("expected the migrations"),
    }
    assert!(!p.is_ready());
    p.report_success();

    assert!(p.is_ready());
    assert!(p.next_action().is_none());
    assert!(p.failure().is_none());
    assert_eq!(p.database().database_name, generated);
}

#[test]
fn an_admin_connect_failure_is_terminal() {
    let cfg = config();
    let mut p = Provisioner::begin(&cfg);
    p.report_failure("connection refused".to_string());
    assert!(p.next_action().is_none());
    assert!(!p.is_ready());
    match p.failure() {
        Some(DatabaseError::AdminConnectFailed(detail)) => {
            assert_eq!(detail.as_str(), "connection refused");
        }
        _ => panic!("expected the admin-connect failure"),
    }
}

#[test]
fn a_migration_failure_reports_the_failing_migration() {
    let cfg = config();
    let mut p = Provisioner::begin(&cfg);
    p.report_success();
    p.report_success();
    p.report_success();
    match p.next_action().unwrap() {
        ProvisionAction::RunMigrations => {}
        _ => panic!("expected the migrations"),
    }
    p.report_failure("20230409_create_subscriptions".to_string());
    assert!(!p.is_ready());
    match p.failure() {
        Some(DatabaseError::MigrationFailed(id)) => {
            assert_eq!(id.as_str(), "20230409_create_subscriptions");
            let msg = DatabaseError::MigrationFailed(id.clone()).message();
            assert!(msg.contains("20230409_create_subscriptions"));
        }
        _ => panic!("expected the migration failure"),
    }
}

#[test]
fn each_failure_variant_names_its_step() {
    let cfg = config();

    let mut p = Provisioner::begin(&cfg);
    p.report_success();
    p.report_failure("denied".to_string());
    assert!(matches!(p.failure(), Some(DatabaseError::CreateFailed(_))));
    assert_eq!(
        p.failure().unwrap().message(),
        "failed to create the database: denied"
    );

    let mut p = Provisioner::begin(&cfg);
    p.report_success();
    p.report_success();
    p.report_failure("timeout".to_string());
    assert!(matches!(
        p.failure(),
        Some(DatabaseError::PoolConnectFailed(_))
    ));
}
