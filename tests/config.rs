use veddb_client::{AuthConfig, AuthCredentials, AuthMethod, AuthResponse, Error, TlsConfig, TlsMode};

#[test]
fn tls_modes() {
    assert_eq!(TlsConfig::default().mode().unwrap(), TlsMode::Plain);
    let cfg = TlsConfig::new("db.example").with_ca_cert("/ca.pem");
    assert_eq!(cfg.mode().unwrap(), TlsMode::Verified);
    assert_eq!(cfg.sni_name(), "db.example");
    assert_eq!(cfg.ca_cert_path.as_deref(), Some("/ca.pem"));
    assert_eq!(TlsConfig::new("h").accept_invalid_certs().mode().unwrap(), TlsMode::AcceptAnyCertificate);
    assert_eq!(TlsConfig::new("h").with_client_cert("c", "k").mode().unwrap_err(), Error::NotSupported);
    let mut half = TlsConfig::new("h");
    half.client_cert_path = Some("c".to_string());
    assert!(matches!(half.mode(), Err(Error::InvalidArgument(_))));
    let mut unnamed = TlsConfig::default();
    unnamed.enabled = true;
    assert_eq!(unnamed.sni_name(), "localhost");
}

#[test]
fn auth_requests() {
    let req = AuthConfig::username_password("u", "p").request().unwrap();
    assert_eq!(req.method, AuthMethod::UsernamePassword);
    assert!(matches!(req.credentials, AuthCredentials::UsernamePassword { ref username, ref password } if username == "u" && password == "p"));
    let req = AuthConfig::jwt_token("t").request().unwrap();
    assert!(matches!(req.credentials, AuthCredentials::JwtToken { ref token } if token == "t"));
    let mut missing = AuthConfig::username_password("u", "p");
    missing.password = None;
    assert_eq!(missing.request().unwrap_err(), Error::InvalidArgument("Password required".to_string()));
    let mut no_token = AuthConfig::jwt_token("t");
    no_token.token = None;
    assert_eq!(no_token.request().unwrap_err(), Error::InvalidArgument("JWT token required".to_string()));
}

#[test]
fn auth_outcomes() {
    let granted = AuthResponse { success: true, token: Some("tok".to_string()), expires_at: None, error: None };
    assert_eq!(granted.outcome().unwrap(), Some("tok".to_string()));
    let refused = AuthResponse { success: false, token: None, expires_at: None, error: Some("bad".to_string()) };
    assert_eq!(refused.outcome().unwrap_err(), Error::AuthenticationRejected("bad".to_string()));
    let silent = AuthResponse { success: false, token: None, expires_at: None, error: None };
    assert_eq!(silent.outcome().unwrap_err(), Error::AuthenticationRejected("Authentication failed".to_string()));
}
