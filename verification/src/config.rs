//! Configuration of a connection: the server's own settings and the
//! settings for reaching the authentication server.
//!
//! Both types are assembled through builders: every field has a default, a
//! setter overrides one field and leaves the rest untouched, and `build`
//! produces the finished configuration.  The contracts state the resulting
//! value field by field, so a caller knows exactly which defaults apply.

use vstd::prelude::*;

verus! {

broadcast use vstd::string::to_string_from_display_ensures_for_str;

/// Configuration for the connection to the authentication server.
#[derive(Clone, Debug, Eq, PartialEq)]
pub struct AuthServer {
    /// Host of the authentication server to connect to.
    pub host: String,
    /// Port of the authentication server to connect to.
    pub port: u16,
    /// Username to log in to the authentication server.
    pub username: String,
    /// Password to log in to the authentication server.
    pub password: String,
}

/// The failure type of building an [`AuthServer`].  Every field has a
/// default, so a build in fact always succeeds.
#[derive(Clone, Debug, Eq, PartialEq)]
pub enum AuthServerBuilderError {
    /// A field was required but not set.
    UninitializedField,
}

/// Builder for [`AuthServer`]: unset fields fall back to their defaults.
#[derive(Clone, Debug, Eq, PartialEq)]
pub struct AuthServerBuilder {
    /// Overrides the host when set.
    pub host: Option<String>,
    /// Overrides the port when set.
    pub port: Option<u16>,
    /// Overrides the username when set.
    pub username: Option<String>,
    /// Overrides the password when set.
    pub password: Option<String>,
}

impl AuthServer {
    /// An empty builder of `AuthServer`: nothing set, every default in
    /// force.
    pub fn builder() -> (b: AuthServerBuilder)
        ensures
            b == (AuthServerBuilder {
                host: None::<String>,
                port: None::<u16>,
                username: None::<String>,
                password: None::<String>,
            }),
    {
        AuthServerBuilder { host: None, port: None, username: None, password: None }
    }
}

impl AuthServerBuilder {
    /// Set the host.
    pub fn host(self, value: String) -> (b: Self)
        ensures
            b == (AuthServerBuilder { host: Some(value), ..self }),
    {
        AuthServerBuilder { host: Some(value), ..self }
    }

    /// Set the port.
    pub fn port(self, value: u16) -> (b: Self)
        ensures
            b == (AuthServerBuilder { port: Some(value), ..self }),
    {
        AuthServerBuilder { port: Some(value), ..self }
    }

    /// Set the username.
    pub fn username(self, value: String) -> (b: Self)
        ensures
            b == (AuthServerBuilder { username: Some(value), ..self }),
    {
        AuthServerBuilder { username: Some(value), ..self }
    }

    /// Set the password.
    pub fn password(self, value: String) -> (b: Self)
        ensures
            b == (AuthServerBuilder { password: Some(value), ..self }),
    {
        AuthServerBuilder { password: Some(value), ..self }
    }

    /// Finish the build.  Every field has a default, so this always
    /// succeeds: each set field is taken over, each unset field gets its
    /// default.
    pub fn build(self) -> (r: Result<AuthServer, AuthServerBuilderError>)
        ensures
            r matches Ok(c) && {
                &&& (match self.host {
                    Some(v) => c.host == v,
                    None => c.host@ == "127.0.0.1"@,
                })
                &&& c.port == (match self.port {
                    Some(v) => v,
                    None => 8080u16,
                })
                &&& (match self.username {
                    Some(v) => c.username == v,
                    None => c.username@ == "cubby-auth"@,
                })
                &&& (match self.password {
                    Some(v) => c.password == v,
                    None => c.password@ == "cubby-auth"@,
                })
            },
    {
        Ok(
            AuthServer {
                host: match self.host {
                    Some(v) => v,
                    None => "127.0.0.1".to_string(),
                },
                port: match self.port {
                    Some(v) => v,
                    None => 8080,
                },
                username: match self.username {
                    Some(v) => v,
                    None => "cubby-auth".to_string(),
                },
                password: match self.password {
                    Some(v) => v,
                    None => "cubby-auth".to_string(),
                },
            },
        )
    }
}

/// Configuration for the connection.
pub struct Config {
    /// Host address to run this server on.
    pub host: (u8, u8, u8, u8),
    /// Port to bind the transport connection to.
    pub quic_port: u16,
    /// Directory of the message-schema files for the connection.
    pub protobuf_dir: String,
    /// Key file of the secure connection; `None` means no secure
    /// connection.
    pub key_path: Option<String>,
    /// Certificate file of the secure connection; `None` means no secure
    /// connection.
    pub cert_path: Option<String>,
    /// Authentication-server configuration.
    pub auth_config: AuthServer,
    /// Logging level of the server, from nothing at 0 to everything at 5.
    pub verbose: u8,
    /// Whether the server watches its schema and configuration files and
    /// restarts when they change.
    pub watch: bool,
}

/// The failure type of building a [`Config`].  Every field has a default,
/// so a build in fact always succeeds.
#[derive(Clone, Debug, Eq, PartialEq)]
pub enum ConfigBuilderError {
    /// A field was required but not set.
    UninitializedField,
}

/// Builder for [`Config`]: unset fields fall back to their defaults.
pub struct ConfigBuilder {
    /// Overrides the host address when set.
    pub host: Option<(u8, u8, u8, u8)>,
    /// Overrides the transport port when set.
    pub quic_port: Option<u16>,
    /// Overrides the schema directory when set.
    pub protobuf_dir: Option<String>,
    /// Sets the key file when set.
    pub key_path: Option<String>,
    /// Sets the certificate file when set.
    pub cert_path: Option<String>,
    /// Overrides the authentication-server configuration when set.
    pub auth_config: Option<AuthServer>,
    /// Overrides the logging level when set.
    pub verbose: Option<u8>,
    /// Overrides the watch flag when set.
    pub watch: Option<bool>,
}

impl Config {
    /// An empty builder of `Config`: nothing set, every default in force.
    pub fn builder() -> (b: ConfigBuilder)
        ensures
            b == (ConfigBuilder {
                host: None::<(u8, u8, u8, u8)>,
                quic_port: None::<u16>,
                protobuf_dir: None::<String>,
                key_path: None::<String>,
                cert_path: None::<String>,
                auth_config: None::<AuthServer>,
                verbose: None::<u8>,
                watch: None::<bool>,
            }),
    {
        ConfigBuilder {
            host: None,
            quic_port: None,
            protobuf_dir: None,
            key_path: None,
            cert_path: None,
            auth_config: None,
            verbose: None,
            watch: None,
        }
    }
}

impl ConfigBuilder {
    /// Set the host address.
    pub fn host(self, value: (u8, u8, u8, u8)) -> (b: Self)
        ensures
            b == (ConfigBuilder { host: Some(value), ..self }),
    {
        ConfigBuilder { host: Some(value), ..self }
    }

    /// Set the transport port.
    pub fn quic_port(self, value: u16) -> (b: Self)
        ensures
            b == (ConfigBuilder { quic_port: Some(value), ..self }),
    {
        ConfigBuilder { quic_port: Some(value), ..self }
    }

    /// Set the schema directory.
    pub fn protobuf_dir(self, value: String) -> (b: Self)
        ensures
            b == (ConfigBuilder { protobuf_dir: Some(value), ..self }),
    {
        ConfigBuilder { protobuf_dir: Some(value), ..self }
    }

    /// Set the key file.
    pub fn key_path(self, value: String) -> (b: Self)
        ensures
            b == (ConfigBuilder { key_path: Some(value), ..self }),
    {
        ConfigBuilder { key_path: Some(value), ..self }
    }

    /// Set the certificate file.
    pub fn cert_path(self, value: String) -> (b: Self)
        ensures
            b == (ConfigBuilder { cert_path: Some(value), ..self }),
    {
        ConfigBuilder { cert_path: Some(value), ..self }
    }

    /// Set the authentication-server configuration.
    pub fn auth_config(self, value: AuthServer) -> (b: Self)
        ensures
            b == (ConfigBuilder { auth_config: Some(value), ..self }),
    {
        ConfigBuilder { auth_config: Some(value), ..self }
    }

    /// Set the logging level.
    pub fn verbose(self, value: u8) -> (b: Self)
        ensures
            b == (ConfigBuilder { verbose: Some(value), ..self }),
    {
        ConfigBuilder { verbose: Some(value), ..self }
    }

    /// Set the watch flag.
    pub fn watch(self, value: bool) -> (b: Self)
        ensures
            b == (ConfigBuilder { watch: Some(value), ..self }),
    {
        ConfigBuilder { watch: Some(value), ..self }
    }

    /// Finish the build.  Every field has a default, so this always
    /// succeeds: each set field is taken over, each unset field gets its
    /// default; in particular the default authentication-server
    /// configuration is the one its own empty builder produces.
    pub fn build(self) -> (r: Result<Config, ConfigBuilderError>)
        ensures
            r matches Ok(c) && {
                &&& c.host == (match self.host {
                    Some(v) => v,
                    None => (0u8, 0u8, 0u8, 0u8),
                })
                &&& c.quic_port == (match self.quic_port {
                    Some(v) => v,
                    None => 20202u16,
                })
                &&& (match self.protobuf_dir {
                    Some(v) => c.protobuf_dir == v,
                    None => c.protobuf_dir@ == "./protobuf"@,
                })
                &&& c.key_path == self.key_path
                &&& c.cert_path == self.cert_path
                &&& (match self.auth_config {
                    Some(v) => c.auth_config == v,
                    None => {
                        &&& c.auth_config.host@ == "127.0.0.1"@
                        &&& c.auth_config.port == 8080u16
                        &&& c.auth_config.username@ == "cubby-auth"@
                        &&& c.auth_config.password@ == "cubby-auth"@
                    },
                })
                &&& c.verbose == (match self.verbose {
                    Some(v) => v,
                    None => 3u8,
                })
                &&& c.watch == (match self.watch {
                    Some(v) => v,
                    None => true,
                })
            },
    {
        let auth_config = match self.auth_config {
            Some(v) => v,
            None => match AuthServer::builder().build() {
                Ok(a) => a,
                Err(_) => {
                    return Err(ConfigBuilderError::UninitializedField);
                },
            },
        };
        Ok(
            Config {
                host: match self.host {
                    Some(v) => v,
                    None => (0, 0, 0, 0),
                },
                quic_port: match self.quic_port {
                    Some(v) => v,
                    None => 20202,
                },
                protobuf_dir: match self.protobuf_dir {
                    Some(v) => v,
                    None => "./protobuf".to_string(),
                },
                key_path: self.key_path,
                cert_path: self.cert_path,
                auth_config,
                verbose: match self.verbose {
                    Some(v) => v,
                    None => 3,
                },
                watch: match self.watch {
                    Some(v) => v,
                    None => true,
                },
            },
        )
    }
}

} // verus!
