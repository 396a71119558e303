use apoll::configuration::ApplicationSettings;
use apoll::configuration::DatabaseSettings;
use apoll::configuration::Environment;
use apoll::configuration::Settings;

fn settings(host: &str, port: u16) -> Settings {
    Settings {
        database: DatabaseSettings {
            username: "postgres".to_string(),
            password: "password".to_string(),
            port: 5432,
            host: "127.0.0.1".to_string(),
            database_name: "apoll".to_string(),
            require_ssl: false,
        },
        application: ApplicationSettings {
            port,
            host: host.to_string(),
            hmac_secret: "secret".to_string(),
        },
        redis_uri: "redis://127.0.0.1:6379".to_string(),
    }
}

#[test]
fn address_joins_host_and_port() {
    assert_eq!(settings("127.0.0.1", 8000).address(), "127.0.0.1:8000");
    assert_eq!(settings("localhost", 0).address(), "localhost:0");
    assert_eq!(settings("0.0.0.0", 65535).address(), "0.0.0.0:65535");
}

#[test]
fn environment_names_round_trip() {
    assert_eq!(Environment::Local.as_str(), "local");
    assert_eq!(Environment::Production.as_str(), "production");
    assert!(matches!(
        Environment::try_from("local".to_string()),
        Ok(Environment::Local)
    ));
    assert!(matches!(
        Environment::try_from("PRODUCTION".to_string()),
        Ok(Environment::Production)
    ));
    let err = Environment::try_from("staging".to_string()).unwrap_err();
    assert_eq!(
        err,
        "staging is not a supported environment. Use either `local` or `production`"
    );
}
