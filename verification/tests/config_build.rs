use cubby_connect_server::config::{AuthServer, Config};

#[test]
fn auth_server_defaults() {
    let auth = AuthServer::builder().build().unwrap();
    assert_eq!(auth.host, "127.0.0.1");
    assert_eq!(auth.port, 8080);
    assert_eq!(auth.username, "cubby-auth");
    assert_eq!(auth.password, "cubby-auth");
}

#[test]
fn auth_server_overrides() {
    let auth = AuthServer::builder()
        .password(String::from("password"))
        .build()
        .unwrap();
    assert_eq!(auth.host, "127.0.0.1");
    assert_eq!(auth.port, 8080);
    assert_eq!(auth.username, "cubby-auth");
    assert_eq!(auth.password, "password");
}

#[test]
fn config_defaults() {
    let config = Config::builder().build().unwrap();
    assert_eq!(config.host, (0, 0, 0, 0));
    assert_eq!(config.quic_port, 20202);
    assert_eq!(config.protobuf_dir, "./protobuf");
    assert_eq!(config.key_path, None);
    assert_eq!(config.cert_path, None);
    assert_eq!(config.auth_config, AuthServer::builder().build().unwrap());
    assert_eq!(config.verbose, 3);
    assert!(config.watch);
}

#[test]
fn config_overrides() {
    let config = Config::builder()
        .auth_config(
            AuthServer::builder()
                .password(String::from("password"))
                .build()
                .unwrap(),
        )
        .verbose(3)
        .quic_port(4433)
        .key_path(String::from("key.pem"))
        .cert_path(String::from("cert.pem"))
        .watch(false)
        .build()
        .unwrap();
    assert_eq!(config.quic_port, 4433);
    assert_eq!(config.key_path, Some(String::from("key.pem")));
    assert_eq!(config.cert_path, Some(String::from("cert.pem")));
    assert_eq!(config.auth_config.password, "password");
    assert_eq!(config.verbose, 3);
    assert!(!config.watch);
}
