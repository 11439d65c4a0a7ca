use admin_console::config::{BindAddr, Config, ConfigError, DEFAULT_BIND_ADDR};

fn some(text: &str) -> Option<String> {
    Some(text.to_string())
}

/// An address as the program hands it in: a text that is a socket address.
fn addr(text: &str) -> Option<BindAddr> {
    Some(BindAddr { text: text.to_string(), parses: true })
}

/// A text that is no socket address, as the program hands it in.
fn bad_addr(text: &str) -> Option<BindAddr> {
    Some(BindAddr { text: text.to_string(), parses: false })
}

#[test]
fn complete_environment_gives_a_configuration() {
    let config =
        Config::from_env(some("tenant.example.com"), some("id"), some("secret"), addr("127.0.0.1:8080"))
            .unwrap();
    assert_eq!(config.auth0_domain, "tenant.example.com");
    assert_eq!(config.auth0_client_id, "id");
    assert_eq!(config.auth0_client_secret, "secret");
    assert_eq!(config.bind_addr, "127.0.0.1:8080");
}

#[test]
fn bind_address_has_a_default() {
    let config = Config::from_env(some("d"), some("id"), some("secret"), None).unwrap();
    assert_eq!(config.bind_addr, "0.0.0.0:3000");
    assert_eq!(DEFAULT_BIND_ADDR, "0.0.0.0:3000");
}

#[test]
fn ipv6_address_is_taken() {
    let config = Config::from_env(some("d"), some("id"), some("secret"), addr("[::1]:3000")).unwrap();
    assert_eq!(config.bind_addr, "[::1]:3000");
}

#[test]
fn address_that_does_not_parse_is_an_error() {
    for text in ["not-an-address", "", "localhost", "127.0.0.1", "127.0.0.1:99999", ":3000"] {
        match Config::from_env(some("d"), some("id"), some("secret"), bad_addr(text)) {
            Err(ConfigError::Addr) => {}
            other => panic!("{:?} gave {:?}", text, other),
        }
    }
}

#[test]
fn address_goes_by_what_was_found_of_it() {
    assert!(matches!(
        Config::from_env(some("d"), some("id"), some("secret"), bad_addr("127.0.0.1:8080")),
        Err(ConfigError::Addr)
    ));
    let config =
        Config::from_env(some("d"), some("id"), some("secret"), addr("127.0.0.1:8080")).unwrap();
    assert_eq!(config.bind_addr, "127.0.0.1:8080");
}

#[test]
fn missing_variable_is_reported_before_a_bad_address() {
    match Config::from_env(None, some("id"), some("secret"), bad_addr("not-an-address")) {
        Err(ConfigError::Missing(name)) => assert_eq!(name, "AUTH0_DOMAIN"),
        other => panic!("unexpected: {:?}", other),
    }
    match Config::from_env(some("d"), None, some("secret"), bad_addr("not-an-address")) {
        Err(ConfigError::Missing(name)) => assert_eq!(name, "AUTH0_CLIENT_ID"),
        other => panic!("unexpected: {:?}", other),
    }
    match Config::from_env(some("d"), some("id"), None, bad_addr("not-an-address")) {
        Err(ConfigError::Missing(name)) => assert_eq!(name, "AUTH0_CLIENT_SECRET"),
        other => panic!("unexpected: {:?}", other),
    }
    match Config::from_env(None, None, None, bad_addr("")) {
        Err(ConfigError::Missing(name)) => assert_eq!(name, "AUTH0_DOMAIN"),
        other => panic!("unexpected: {:?}", other),
    }
}

#[test]
fn missing_domain_is_reported() {
    match Config::from_env(None, some("id"), some("secret"), None) {
        Err(ConfigError::Missing(name)) => assert_eq!(name, "AUTH0_DOMAIN"),
        other => panic!("unexpected: {:?}", other),
    }
}

#[test]
fn missing_client_id_is_reported() {
    match Config::from_env(some("d"), None, some("secret"), None) {
        Err(ConfigError::Missing(name)) => assert_eq!(name, "AUTH0_CLIENT_ID"),
        other => panic!("unexpected: {:?}", other),
    }
}

#[test]
fn missing_client_secret_is_reported() {
    match Config::from_env(some("d"), some("id"), None, addr("0.0.0.0:1")) {
        Err(ConfigError::Missing(name)) => assert_eq!(name, "AUTH0_CLIENT_SECRET"),
        other => panic!("unexpected: {:?}", other),
    }
}

#[test]
fn first_missing_variable_is_the_one_reported() {
    match Config::from_env(None, None, None, None) {
        Err(ConfigError::Missing(name)) => assert_eq!(name, "AUTH0_DOMAIN"),
        other => panic!("unexpected: {:?}", other),
    }
    match Config::from_env(some("d"), None, None, None) {
        Err(ConfigError::Missing(name)) => assert_eq!(name, "AUTH0_CLIENT_ID"),
        other => panic!("unexpected: {:?}", other),
    }
}

#[test]
fn config_error_in_words() {
    assert_eq!(
        ConfigError::Missing("AUTH0_DOMAIN").message(),
        "missing environment variable: AUTH0_DOMAIN"
    );
    assert_eq!(ConfigError::Addr.message(), "invalid bind address");
}
