use clifton_config::config::{DEFAULT_CLIENT_ID, DEFAULT_KEYCLOAK_URL, DEFAULT_WALDUR_API_URL};
use clifton_config::{AbsoluteUrl, Config, ConfigError, Environment, Overrides, UrlField};

fn empty_home() -> Environment {
    Environment { home: Some("/home/alice".to_string()), probes: vec![Some(false); 3] }
}

fn no_home() -> Environment {
    Environment { home: None, probes: vec![] }
}

fn all_supplied() -> Overrides {
    Overrides {
        keycloak_url: Some("https://id.example.org/realms/test".to_string()),
        waldur_api_url: Some("https://api.example.org/v1/".to_string()),
        client_id: Some("tester".to_string()),
        identity: Some("/keys/id_test".to_string()),
    }
}

#[test]
fn no_override_is_empty() {
    let none = Overrides::none();
    assert_eq!(
        none,
        Overrides { keycloak_url: None, waldur_api_url: None, client_id: None, identity: None }
    );
}

#[test]
fn the_default_urls_are_the_built_in_ones() {
    let config = Config::resolve(Overrides::none(), &empty_home()).unwrap();
    assert_eq!(config.keycloak_url.as_str(), "https://keycloak.isambard.ac.uk/realms/isambard/");
    assert_eq!(config.waldur_api_url.as_str(), "https://portal-api.isambard.ac.uk/");
}

#[test]
fn the_default_client_id_is_clifton() {
    let config = Config::resolve(Overrides::none(), &empty_home()).unwrap();
    assert_eq!(config.client_id, "clifton");
    assert_eq!(Config::default_client_id(), "clifton");
    assert_eq!(DEFAULT_CLIENT_ID, "clifton");
}

#[test]
fn the_built_in_urls_parse_to_themselves() {
    assert_eq!(DEFAULT_KEYCLOAK_URL, "https://keycloak.isambard.ac.uk/realms/isambard/");
    assert_eq!(DEFAULT_WALDUR_API_URL, "https://portal-api.isambard.ac.uk/");
    assert_eq!(Config::default_keycloak_url().unwrap().as_str(), DEFAULT_KEYCLOAK_URL);
    assert_eq!(Config::default_waldur_api_url().unwrap().as_str(), DEFAULT_WALDUR_API_URL);
}

#[test]
fn every_field_takes_its_override() {
    let config = Config::resolve(all_supplied(), &no_home()).unwrap();
    assert_eq!(config.keycloak_url.as_str(), "https://id.example.org/realms/test");
    assert_eq!(config.waldur_api_url.as_str(), "https://api.example.org/v1/");
    assert_eq!(config.client_id, "tester");
    assert_eq!(config.identity, Some("/keys/id_test".to_string()));
}

#[test]
fn a_url_override_is_stored_in_its_parsed_form() {
    let mut overrides = all_supplied();
    overrides.keycloak_url = Some("HTTPS://ID.Example.ORG:443/a/./b/../c".to_string());
    overrides.waldur_api_url = Some(" http://api.example.org ".to_string());
    let config = Config::resolve(overrides, &no_home()).unwrap();
    assert_eq!(config.keycloak_url.as_str(), "https://id.example.org/a/c");
    assert_eq!(config.waldur_api_url.as_str(), "http://api.example.org/");
    assert_eq!(
        config.keycloak_url.as_str(),
        url::Url::parse("HTTPS://ID.Example.ORG:443/a/./b/../c").unwrap().as_str()
    );
    assert_eq!(Some(config.waldur_api_url), AbsoluteUrl::parse(" http://api.example.org "));
}

#[test]
fn each_field_is_defaulted_on_its_own() {
    let overrides = Overrides {
        keycloak_url: None,
        waldur_api_url: Some("https://api.example.org/".to_string()),
        client_id: None,
        identity: Some("/keys/id_test".to_string()),
    };
    let config = Config::resolve(overrides, &no_home()).unwrap();
    assert_eq!(config.keycloak_url.as_str(), DEFAULT_KEYCLOAK_URL);
    assert_eq!(config.waldur_api_url.as_str(), "https://api.example.org/");
    assert_eq!(config.client_id, "clifton");
    assert_eq!(config.identity, Some("/keys/id_test".to_string()));

    let overrides = Overrides {
        keycloak_url: Some("https://id.example.org/".to_string()),
        waldur_api_url: None,
        client_id: Some("tester".to_string()),
        identity: None,
    };
    let config = Config::resolve(overrides, &empty_home()).unwrap();
    assert_eq!(config.keycloak_url.as_str(), "https://id.example.org/");
    assert_eq!(config.waldur_api_url.as_str(), DEFAULT_WALDUR_API_URL);
    assert_eq!(config.client_id, "tester");
    assert_eq!(config.identity, None);
}

#[test]
fn a_malformed_keycloak_url_is_rejected() {
    for input in ["", "   ", "\t\n", "keycloak.example.org/realms/test", "//id.example.org/", "https://"] {
        let mut overrides = all_supplied();
        overrides.keycloak_url = Some(input.to_string());
        assert_eq!(
            Config::resolve(overrides, &empty_home()),
            Err(ConfigError::ParseError { field: UrlField::KeycloakUrl, input: input.to_string() })
        );
    }
}

#[test]
fn a_malformed_waldur_api_url_is_rejected() {
    for input in ["", "   ", "\t\n", "api.example.org/v1", "//api.example.org/", "https://"] {
        let mut overrides = all_supplied();
        overrides.waldur_api_url = Some(input.to_string());
        assert_eq!(
            Config::resolve(overrides, &empty_home()),
            Err(ConfigError::ParseError { field: UrlField::WaldurApiUrl, input: input.to_string() })
        );
    }
}

#[test]
fn the_keycloak_url_is_looked_at_first() {
    let mut overrides = all_supplied();
    overrides.keycloak_url = Some("not a url".to_string());
    overrides.waldur_api_url = Some("neither".to_string());
    overrides.identity = None;
    assert_eq!(
        Config::resolve(overrides, &no_home()),
        Err(ConfigError::ParseError {
            field: UrlField::KeycloakUrl,
            input: "not a url".to_string()
        })
    );
}

#[test]
fn a_malformed_url_is_reported_before_a_missing_home_directory() {
    let mut overrides = all_supplied();
    overrides.waldur_api_url = Some("neither".to_string());
    overrides.identity = None;
    assert_eq!(
        Config::resolve(overrides, &no_home()),
        Err(ConfigError::ParseError { field: UrlField::WaldurApiUrl, input: "neither".to_string() })
    );
}

#[test]
fn the_client_id_is_taken_as_it_is() {
    for id in ["", " ", "Clifton", "a client/with?odd#characters"] {
        let mut overrides = all_supplied();
        overrides.client_id = Some(id.to_string());
        assert_eq!(Config::resolve(overrides, &no_home()).unwrap().client_id, id);
    }
}

#[test]
fn a_supplied_identity_is_returned_verbatim() {
    for path in ["/does/not/exist/id_nothing", "relative/key", "", "~/.ssh/id_rsa"] {
        let mut overrides = all_supplied();
        overrides.identity = Some(path.to_string());
        let config = Config::resolve(overrides, &empty_home()).unwrap();
        assert_eq!(config.identity, Some(path.to_string()));
    }
}

#[test]
fn a_supplied_identity_needs_no_home_directory() {
    let config = Config::resolve(all_supplied(), &no_home()).unwrap();
    assert_eq!(config.identity, Some("/keys/id_test".to_string()));
    let elsewhere = Environment { home: Some("/root".to_string()), probes: vec![Some(true); 3] };
    assert_eq!(Config::resolve(all_supplied(), &elsewhere).unwrap(), config);
}

#[test]
fn without_identity_and_home_directory_resolution_fails() {
    assert_eq!(
        Config::resolve(Overrides::none(), &no_home()),
        Err(ConfigError::HomeDirectoryUnavailable)
    );
}

#[test]
fn the_identity_is_discovered_where_none_is_supplied() {
    let env = Environment {
        home: Some("/home/alice".to_string()),
        probes: vec![Some(false), Some(false), Some(true)],
    };
    let config = Config::resolve(Overrides::none(), &env).unwrap();
    assert_eq!(config.identity, Some("/home/alice/.ssh/id_rsa".to_string()));

    let env = Environment {
        home: Some("/home/alice".to_string()),
        probes: vec![Some(true), Some(false), Some(true)],
    };
    let config = Config::resolve(Overrides::none(), &env).unwrap();
    assert_eq!(config.identity, Some("/home/alice/.ssh/id_ed25519".to_string()));
}

#[test]
fn a_home_directory_without_keys_gives_no_identity() {
    let config = Config::resolve(Overrides::none(), &empty_home()).unwrap();
    assert_eq!(config.identity, None);
}

#[test]
fn resolving_twice_gives_the_same_configuration() {
    let env = Environment {
        home: Some("/home/alice".to_string()),
        probes: vec![Some(false), Some(true), Some(false)],
    };
    let first = Config::resolve(Overrides::none(), &env);
    let second = Config::resolve(Overrides::none(), &env);
    assert_eq!(first, second);
    let config = first.unwrap();
    assert_eq!(config.identity, Some("/home/alice/.ssh/id_ecdsa".to_string()));

    assert_eq!(
        Config::resolve(all_supplied(), &no_home()),
        Config::resolve(all_supplied(), &no_home())
    );
    let mut broken = all_supplied();
    broken.keycloak_url = Some("".to_string());
    let mut again = all_supplied();
    again.keycloak_url = Some("".to_string());
    assert_eq!(Config::resolve(broken, &env), Config::resolve(again, &env));
}

#[test]
fn a_supplied_identity_is_not_looked_for_on_disk() {
    let mut overrides = all_supplied();
    overrides.identity = Some("/keys/id_test".to_string());
    assert!(!std::path::Path::new("/keys/id_test").exists());
    let mut env = Environment::new(dirs::home_dir().map(|path| path.to_str().unwrap().to_string()));
    while let Some(path) = env.next_probe() {
        env.record(std::path::Path::new(&path).try_exists().ok());
    }
    let config = Config::resolve(overrides, &env).unwrap();
    assert_eq!(config.identity, Some("/keys/id_test".to_string()));
}

#[test]
fn the_environment_is_needed_only_without_an_identity() {
    assert!(Overrides::none().needs_environment());
    assert!(!all_supplied().needs_environment());
    let mut overrides = all_supplied();
    overrides.identity = None;
    assert!(overrides.needs_environment());
    let mut overrides = Overrides::none();
    overrides.identity = Some(String::new());
    assert!(!overrides.needs_environment());
}
