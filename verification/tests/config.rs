use ssh_tunnel::config::{AuthMethod, TunnelConfig};

fn config(password: Option<&str>, private_key: Option<&str>) -> TunnelConfig {
    TunnelConfig {
        host: "example.com".to_string(),
        port: 22,
        username: "alice".to_string(),
        password: password.map(|s| s.to_string()),
        private_key: private_key.map(|s| s.to_string()),
    }
}

#[test]
fn private_key_wins_over_password() {
    let cfg = config(Some("secret"), Some("KEY MATERIAL"));
    // Public-key authentication is attempted; the password is never used.
    assert_eq!(
        cfg.auth_method(),
        Some(AuthMethod::PrivateKey("KEY MATERIAL".to_string()))
    );
}

#[test]
fn private_key_alone_selects_public_key_auth() {
    let cfg = config(None, Some("KEY MATERIAL"));
    assert_eq!(
        cfg.auth_method(),
        Some(AuthMethod::PrivateKey("KEY MATERIAL".to_string()))
    );
}

#[test]
fn password_alone_selects_password_auth() {
    let cfg = config(Some("secret"), None);
    assert_eq!(cfg.auth_method(), Some(AuthMethod::Password("secret".to_string())));
}

#[test]
fn no_credential_selects_nothing() {
    let cfg = config(None, None);
    assert_eq!(cfg.auth_method(), None);
}
