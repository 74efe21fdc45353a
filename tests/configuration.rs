use newsletter::configuration::{ApplicationBaseUrl, ApplicationSettings, Environment};

#[test]
fn environments_name_their_files() {
    assert_eq!(Environment::Local.as_str(), "local");
    assert_eq!(Environment::Production.as_str(), "production");
}

#[test]
fn environment_names_are_read_in_any_case() {
    assert_eq!(Environment::try_from("local".to_string()), Ok(Environment::Local));
    assert_eq!(Environment::try_from("PRODUCTION".to_string()), Ok(Environment::Production));
    assert_eq!(Environment::try_from("Local".to_string()), Ok(Environment::Local));
}

#[test]
fn unknown_environments_are_refused() {
    assert_eq!(
        Environment::try_from("Staging".to_string()),
        Err("staging is not supported environment. Use either 'local' or 'production'.".to_string())
    );
    assert_eq!(
        Environment::from_lowercase(&"LOCAL".to_string()),
        Err("LOCAL is not supported environment. Use either 'local' or 'production'.".to_string())
    );
}

#[test]
fn application_address_joins_host_and_port() {
    let settings = ApplicationSettings {
        port: 8000,
        host: "127.0.0.1".to_string(),
        base_url: "http://127.0.0.1".to_string(),
    };
    assert_eq!(settings.address(), "127.0.0.1:8000");
    let settings = ApplicationSettings { port: 0, host: "0.0.0.0".to_string(), base_url: String::new() };
    assert_eq!(settings.address(), "0.0.0.0:0");
    let settings = ApplicationSettings { port: 65535, host: "h".to_string(), base_url: String::new() };
    assert_eq!(settings.address(), "h:65535");
    let url = ApplicationBaseUrl("http://127.0.0.1".to_string());
    assert_eq!(url.0, "http://127.0.0.1");
}
