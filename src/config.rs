//! Transport security and authentication settings, and the authentication
//! handshake's messages.

use vstd::prelude::*;

use crate::error::Error;

verus! {

/// TLS settings of client connections.
#[derive(Debug, Clone)]
pub struct TlsConfig {
    /// Enable TLS encryption
    pub enabled: bool,
    /// Server name for SNI (Server Name Indication)
    pub server_name: Option<String>,
    /// Path to CA certificate file for server verification
    pub ca_cert_path: Option<String>,
    /// Path to client certificate file (for mutual TLS)
    pub client_cert_path: Option<String>,
    /// Path to client private key file (for mutual TLS)
    pub client_key_path: Option<String>,
    /// Accept invalid certificates (for testing only; never the default)
    pub accept_invalid_certs: bool,
}

/// How a TLS configuration is to be used when connecting.
#[derive(Debug, Clone, Copy, PartialEq, Eq, Structural)]
pub enum TlsMode {
    /// A plain TCP stream
    Plain,
    /// TLS, verifying the server against the trust store
    Verified,
    /// TLS that accepts any server certificate (testing only)
    AcceptAnyCertificate,
}

impl Default for TlsConfig {
    fn default() -> (r: Self)
        ensures
            !r.enabled,
            r.server_name is None,
            r.ca_cert_path is None,
            r.client_cert_path is None,
            r.client_key_path is None,
            !r.accept_invalid_certs,
    {
        TlsConfig {
            enabled: false,
            server_name: None,
            ca_cert_path: None,
            client_cert_path: None,
            client_key_path: None,
            accept_invalid_certs: false,
        }
    }
}

impl TlsConfig {
    /// TLS enabled, presenting `server_name`, verifying the server.
    pub fn new(server_name: &str) -> (r: Self)
        ensures
            r.enabled,
            r.server_name matches Some(n) && n@ == server_name@,
            r.ca_cert_path is None,
            r.client_cert_path is None,
            r.client_key_path is None,
            !r.accept_invalid_certs,
    {
        TlsConfig {
            enabled: true,
            server_name: Some(server_name.to_owned()),
            ca_cert_path: None,
            client_cert_path: None,
            client_key_path: None,
            accept_invalid_certs: false,
        }
    }

    /// The same settings with a CA certificate to verify the server against.
    pub fn with_ca_cert(self, ca_cert_path: &str) -> (r: Self)
        ensures
            r.ca_cert_path matches Some(p) && p@ == ca_cert_path@,
            r.enabled == self.enabled,
            r.server_name == self.server_name,
            r.client_cert_path == self.client_cert_path,
            r.client_key_path == self.client_key_path,
            r.accept_invalid_certs == self.accept_invalid_certs,
    {
        TlsConfig { ca_cert_path: Some(ca_cert_path.to_owned()), ..self }
    }

    /// The same settings with a client certificate and key (mutual TLS).
    pub fn with_client_cert(self, cert_path: &str, key_path: &str) -> (r: Self)
        ensures
            r.client_cert_path matches Some(p) && p@ == cert_path@,
            r.client_key_path matches Some(p) && p@ == key_path@,
            r.enabled == self.enabled,
            r.server_name == self.server_name,
            r.ca_cert_path == self.ca_cert_path,
            r.accept_invalid_certs == self.accept_invalid_certs,
    {
        TlsConfig {
            client_cert_path: Some(cert_path.to_owned()),
            client_key_path: Some(key_path.to_owned()),
            ..self
        }
    }

    /// The same settings, accepting any server certificate (testing only).
    pub fn accept_invalid_certs(self) -> (r: Self)
        ensures
            r.accept_invalid_certs,
            r.enabled == self.enabled,
            r.server_name == self.server_name,
            r.ca_cert_path == self.ca_cert_path,
            r.client_cert_path == self.client_cert_path,
            r.client_key_path == self.client_key_path,
    {
        TlsConfig { accept_invalid_certs: true, ..self }
    }

    /// How to connect with these settings. Client certificates (mutual TLS)
    /// are not supported and are refused rather than ignored: half of a pair
    /// is an invalid argument, a whole pair is not supported.
    pub fn mode(&self) -> (r: Result<TlsMode, Error>)
        ensures
            !self.enabled ==> r == Ok::<TlsMode, Error>(TlsMode::Plain),
            self.enabled && (self.client_cert_path is Some) != (self.client_key_path is Some)
                ==> r matches Err(Error::InvalidArgument(_)),
            self.enabled && self.client_cert_path is Some && self.client_key_path is Some ==> r
                == Err::<TlsMode, Error>(Error::NotSupported),
            self.enabled && self.client_cert_path is None && self.client_key_path is None ==> r
                == Ok::<TlsMode, Error>(
                if self.accept_invalid_certs {
                    TlsMode::AcceptAnyCertificate
                } else {
                    TlsMode::Verified
                },
            ),
    {
        if !self.enabled {
            return Ok(TlsMode::Plain);
        }
        match (&self.client_cert_path, &self.client_key_path) {
            (Some(_), Some(_)) => Err(Error::NotSupported),
            (None, None) => {
                if self.accept_invalid_certs {
                    Ok(TlsMode::AcceptAnyCertificate)
                } else {
                    Ok(TlsMode::Verified)
                }
            },
            _ => Err(Error::InvalidArgument("client certificate and key must be given together".to_owned())),
        }
    }

    /// The name presented for SNI: the configured one, else `localhost`.
    pub fn sni_name(&self) -> (r: String)
        ensures
            self.server_name matches Some(n) ==> r@ == n@,
            self.server_name is None ==> r@ == "localhost"@,
    {
        match &self.server_name {
            Some(n) => n.clone(),
            None => "localhost".to_owned(),
        }
    }
}

/// Authentication method.
#[derive(Debug, Clone, Copy, PartialEq, Eq, Structural)]
pub enum AuthMethod {
    /// Username and password
    UsernamePassword,
    /// A JWT token
    JwtToken,
}

/// Credentials sent in an authentication request.
#[derive(Debug, Clone)]
pub enum AuthCredentials {
    /// Username and password
    UsernamePassword { username: String, password: String },
    /// A JWT token
    JwtToken { token: String },
}

/// Authentication request payload.
#[derive(Debug, Clone)]
pub struct AuthRequest {
    /// The method
    pub method: AuthMethod,
    /// The credentials
    pub credentials: AuthCredentials,
}

/// Authentication response payload.
#[derive(Debug, Clone)]
pub struct AuthResponse {
    /// Whether the server accepted the credentials
    pub success: bool,
    /// The session token granted
    pub token: Option<String>,
    /// Expiry of the token (Unix timestamp)
    pub expires_at: Option<u64>,
    /// Why the server refused
    pub error: Option<String>,
}

/// Whether the settings hold the credentials their method needs.
pub open spec fn has_credentials(cfg: AuthConfig) -> bool {
    match cfg.method {
        AuthMethod::UsernamePassword => cfg.username is Some && cfg.password is Some,
        AuthMethod::JwtToken => cfg.token is Some,
    }
}

/// `req` is the request that `cfg` makes: same method, and its credentials.
pub open spec fn request_for(cfg: AuthConfig, req: AuthRequest) -> bool {
    req.method == cfg.method && match req.credentials {
        AuthCredentials::UsernamePassword { username, password } => {
            &&& cfg.method == AuthMethod::UsernamePassword
            &&& cfg.username matches Some(u) && username@ == u@
            &&& cfg.password matches Some(p) && password@ == p@
        },
        AuthCredentials::JwtToken { token } => {
            &&& cfg.method == AuthMethod::JwtToken
            &&& cfg.token matches Some(t) && token@ == t@
        },
    }
}

/// Authentication settings.
#[derive(Debug, Clone)]
pub struct AuthConfig {
    /// Authentication method
    pub method: AuthMethod,
    /// Username for username/password authentication
    pub username: Option<String>,
    /// Password for username/password authentication
    pub password: Option<String>,
    /// JWT token for token authentication
    pub token: Option<String>,
}

impl AuthConfig {
    /// Username/password authentication.
    pub fn username_password(username: &str, password: &str) -> (r: Self)
        ensures
            r.method == AuthMethod::UsernamePassword,
            r.username matches Some(u) && u@ == username@,
            r.password matches Some(p) && p@ == password@,
            r.token is None,
    {
        AuthConfig {
            method: AuthMethod::UsernamePassword,
            username: Some(username.to_owned()),
            password: Some(password.to_owned()),
            token: None,
        }
    }

    /// JWT token authentication.
    pub fn jwt_token(token: &str) -> (r: Self)
        ensures
            r.method == AuthMethod::JwtToken,
            r.username is None,
            r.password is None,
            r.token matches Some(t) && t@ == token@,
    {
        AuthConfig {
            method: AuthMethod::JwtToken,
            username: None,
            password: None,
            token: Some(token.to_owned()),
        }
    }

    /// The authentication request these settings make: fails with an
    /// invalid-argument error where the method's credentials are missing.
    pub fn request(&self) -> (r: Result<AuthRequest, Error>)
        ensures
            r is Ok <==> has_credentials(*self),
            r matches Err(e) ==> e is InvalidArgument,
            r matches Ok(req) ==> request_for(*self, req),
    {
        match self.method {
            AuthMethod::UsernamePassword => {
                let username = match &self.username {
                    Some(u) => u.clone(),
                    None => {
                        return Err(Error::InvalidArgument("Username required".to_owned()));
                    },
                };
                let password = match &self.password {
                    Some(p) => p.clone(),
                    None => {
                        return Err(Error::InvalidArgument("Password required".to_owned()));
                    },
                };
                Ok(
                    AuthRequest {
                        method: AuthMethod::UsernamePassword,
                        credentials: AuthCredentials::UsernamePassword { username, password },
                    },
                )
            },
            AuthMethod::JwtToken => {
                let token = match &self.token {
                    Some(t) => t.clone(),
                    None => {
                        return Err(Error::InvalidArgument("JWT token required".to_owned()));
                    },
                };
                Ok(
                    AuthRequest {
                        method: AuthMethod::JwtToken,
                        credentials: AuthCredentials::JwtToken { token },
                    },
                )
            },
        }
    }
}

impl AuthResponse {
    /// What the server's answer to an authentication request means: the token
    /// to cache (if the server granted one), or, where the server rejected the
    /// handshake, an authentication error carrying the server's reason
    /// (`Authentication failed` where it gave none).
    pub fn outcome(self) -> (r: Result<Option<String>, Error>)
        ensures
            self.success ==> r == Ok::<Option<String>, Error>(self.token),
            !self.success && self.error is Some ==> r == Err::<Option<String>, Error>(
                Error::AuthenticationRejected(self.error->Some_0),
            ),
            !self.success && self.error is None ==> (r matches Err(Error::AuthenticationRejected(m)) && m@
                == "Authentication failed"@),
    {
        if self.success {
            Ok(self.token)
        } else {
            match self.error {
                Some(e) => Err(Error::AuthenticationRejected(e)),
                None => Err(Error::AuthenticationRejected("Authentication failed".to_owned())),
            }
        }
    }
}

} // verus!
