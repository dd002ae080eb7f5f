use z2p::secret::SecretString;

#[test]
fn expose_secret_is_the_only_way_back_to_the_value() {
    let s = SecretString::new("hunter2".to_string());
    assert_eq!(s.expose_secret().as_str(), "hunter2");
}

#[test]
fn redacted_is_a_fixed_placeholder_whatever_the_secret() {
    let a = SecretString::new("hunter2".to_string());
    let b = SecretString::new("completely different".to_string());
    assert_eq!(a.redacted(), "[REDACTED]");
    assert_eq!(b.redacted(), "[REDACTED]");
    assert!(!a.redacted().contains("hunter2"));
}

#[test]
fn cloning_keeps_the_wrapped_value() {
    let a = SecretString::new("pw".to_string());
    let b = a.clone();
    assert_eq!(b.expose_secret().as_str(), "pw");
}
