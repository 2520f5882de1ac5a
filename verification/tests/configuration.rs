use bubble_services::configuration::{
    ApplicationConfiguration, Configuration, DatabaseConfiguration, SslMode,
};
use bubble_services::startup::{listen_address, port_text, ApplicationBaseUrl};
use secrecy::{ExposeSecret, Secret};

fn database(require_ssl: bool) -> DatabaseConfiguration<Secret<String>> {
    DatabaseConfiguration {
        username: "postgres".to_string(),
        password: Secret::new("password".to_string()),
        port: 5432,
        host: "127.0.0.1".to_string(),
        database_name: "bubble_services".to_string(),
        require_ssl,
    }
}

#[test]
fn without_db_names_no_database() {
    let database = database(false);
    let options = database.without_db();
    assert_eq!(options.host, "127.0.0.1");
    assert_eq!(options.port, 5432);
    assert_eq!(options.username, "postgres");
    assert_eq!(options.password.expose_secret(), "password");
    assert_eq!(options.ssl_mode, SslMode::Prefer);
    assert_eq!(options.database, None);
}

#[test]
fn with_db_names_the_database() {
    let database = database(false);
    let options = database.with_db();
    assert_eq!(options.host, "127.0.0.1");
    assert_eq!(options.port, 5432);
    assert_eq!(options.username, "postgres");
    assert_eq!(options.password.expose_secret(), "password");
    assert_eq!(options.ssl_mode, SslMode::Prefer);
    assert_eq!(options.database, Some("bubble_services"));
}

#[test]
fn ssl_is_required_when_configured() {
    assert_eq!(database(true).without_db().ssl_mode, SslMode::Require);
    assert_eq!(database(true).with_db().ssl_mode, SslMode::Require);
    assert_eq!(database(false).without_db().ssl_mode, SslMode::Prefer);
}

#[test]
fn ports_are_written_in_decimal() {
    assert_eq!(port_text(0), "0");
    assert_eq!(port_text(7), "7");
    assert_eq!(port_text(9), "9");
    assert_eq!(port_text(10), "10");
    assert_eq!(port_text(80), "80");
    assert_eq!(port_text(101), "101");
    assert_eq!(port_text(8000), "8000");
    assert_eq!(port_text(65535), "65535");
    for port in 0..=u16::MAX {
        assert_eq!(port_text(port), port.to_string());
    }
}

#[test]
fn listen_address_is_host_colon_port() {
    let mut application = ApplicationConfiguration {
        port: 8000,
        host: "127.0.0.1".to_string(),
        base_url: "http://127.0.0.1".to_string(),
        hmac_secret: Secret::new("k".repeat(64)),
    };
    assert_eq!(listen_address(&application), "127.0.0.1:8000");
    application.port = 0;
    application.host = "0.0.0.0".to_string();
    assert_eq!(listen_address(&application), "0.0.0.0:0");
}

#[test]
fn configuration_holds_both_parts() {
    let configuration = Configuration {
        application: ApplicationConfiguration {
            port: 8000,
            host: "localhost".to_string(),
            base_url: "http://localhost".to_string(),
            hmac_secret: Secret::new("k".repeat(64)),
        },
        database: database(true),
    };
    let copy = configuration.clone();
    assert_eq!(copy.application.hmac_secret.expose_secret(), &"k".repeat(64));
    assert_eq!(copy.database.password.expose_secret(), "password");
    assert_eq!(copy.application.port, 8000);
    assert_eq!(copy.application.host, "localhost");
    assert_eq!(copy.application.base_url, "http://localhost");
    assert_eq!(copy.database.database_name, "bubble_services");
    assert!(copy.database.require_ssl);
    let base_url = ApplicationBaseUrl(copy.application.base_url);
    assert_eq!(base_url.0, "http://localhost");
}

#[test]
fn secrets_pass_through_unopened() {
    // A secret of a type that cannot be read at all still passes through.
    #[derive(Debug)]
    struct Sealed;
    let database = DatabaseConfiguration {
        username: "postgres".to_string(),
        password: Sealed,
        port: 5432,
        host: "localhost".to_string(),
        database_name: "bubble_services".to_string(),
        require_ssl: true,
    };
    let options = database.with_db();
    assert!(std::ptr::eq(options.password, &database.password));
    assert_eq!(options.ssl_mode, SslMode::Require);
    let printed = format!("{:?}", Configuration {
        application: ApplicationConfiguration {
            port: 1,
            host: "h".to_string(),
            base_url: "b".to_string(),
            hmac_secret: Secret::new("signing key".to_string()),
        },
        database: self::database(false),
    });
    assert!(!printed.contains("signing key"));
    assert!(!printed.contains("password\""));
    assert!(printed.contains("REDACTED"));
}
