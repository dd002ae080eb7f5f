use z2p::environment::{resolve_environment, AppEnvironment};
use z2p::errors::ConfigurationError;

#[test]
fn unset_defaults_to_local() {
    let r = resolve_environment(&None);
    assert_eq!(r.unwrap(), AppEnvironment::Local);
}

#[test]
fn local_any_case_is_local() {
    assert_eq!(
        resolve_environment(&Some("local".to_string())).unwrap(),
        AppEnvironment::Local
    );
    assert_eq!(
        resolve_environment(&Some("LOCAL".to_string())).unwrap(),
        AppEnvironment::Local
    );
    assert_eq!(
        resolve_environment(&Some("Local".to_string())).unwrap(),
        AppEnvironment::Local
    );
}

#[test]
fn prod_any_case_is_production() {
    assert_eq!(
        resolve_environment(&Some("prod".to_string())).unwrap(),
        AppEnvironment::Production
    );
    assert_eq!(
        resolve_environment(&Some("PROD".to_string())).unwrap(),
        AppEnvironment::Production
    );
    assert_eq!(
        resolve_environment(&Some("pRoD".to_string())).unwrap(),
        AppEnvironment::Production
    );
}

#[test]
fn staging_is_rejected_listing_the_accepted_values() {
    let r = resolve_environment(&Some("staging".to_string()));
    match r {
        Ok(_) => panic!("staging must be rejected"),
        Err(ConfigurationError::InvalidEnvironment(got)) => {
            assert_eq!(got, "staging");
            let msg = ConfigurationError::InvalidEnvironment(got).message();
            assert_eq!(
                msg,
                "staging is not supported environment. Use either `local` or `prod`."
            );
            assert!(msg.contains("local"));
            assert!(msg.contains("prod"));
        }
        Err(_) => panic!("wrong error variant"),
    }
}

#[test]
fn empty_name_is_rejected() {
    assert!(resolve_environment(&Some(String::new())).is_err());
}

#[test]
fn layer_names() {
    assert_eq!(AppEnvironment::Local.as_str(), "local");
    assert_eq!(AppEnvironment::Production.as_str(), "prod");
}

#[test]
fn try_from_parses_directly() {
    assert_eq!(
        AppEnvironment::try_from("prod").unwrap(),
        AppEnvironment::Production
    );
    assert!(AppEnvironment::try_from("production").is_err());
}
