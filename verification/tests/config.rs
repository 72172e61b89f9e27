use auth_flow::config::{Config, ConfigError, ConfigKey, Environment};
use auth_flow::provider::ProviderConfig;

fn env_of(pairs: &[(&str, &str)]) -> Environment {
    pairs.iter().map(|(k, v)| (k.to_string(), v.to_string())).collect()
}

fn full_env() -> Environment {
    env_of(&[
        ("CLIENT_ID", "my-client"),
        ("CLIENT_SECRET", "s3cret"),
        ("AUTH_URL", "https://provider.example/authorize"),
        ("TOKEN_URL", "https://provider.example/token"),
        ("REDIRECT_URL", "http://localhost:8080/callback"),
        ("HOST", "0.0.0.0"),
        ("PORT", "9000"),
        ("REDIS_URL", "redis://127.0.0.1/"),
    ])
}

fn without(env: &Environment, name: &str) -> Environment {
    env.iter().filter(|(k, _)| k != name).cloned().collect()
}

#[test]
fn key_names_are_the_variable_names() {
    assert_eq!(ConfigKey::ClientId.name(), "CLIENT_ID");
    assert_eq!(ConfigKey::ClientSecret.name(), "CLIENT_SECRET");
    assert_eq!(ConfigKey::AuthUrl.name(), "AUTH_URL");
    assert_eq!(ConfigKey::TokenUrl.name(), "TOKEN_URL");
    assert_eq!(ConfigKey::RedirectUrl.name(), "REDIRECT_URL");
    assert_eq!(ConfigKey::Host.name(), "HOST");
    assert_eq!(ConfigKey::Port.name(), "PORT");
    assert_eq!(ConfigKey::RedisUrl.name(), "REDIS_URL");
}

#[test]
fn full_environment_gives_every_field() {
    let config = Config::from_env(&full_env()).unwrap();
    assert_eq!(config.client_id, "my-client");
    assert_eq!(config.client_secret, "s3cret");
    assert_eq!(config.auth_url, "https://provider.example/authorize");
    assert_eq!(config.token_url, "https://provider.example/token");
    assert_eq!(config.redirect_url, "http://localhost:8080/callback");
    assert_eq!(config.host, "0.0.0.0");
    assert_eq!(config.port, "9000");
    assert_eq!(config.redis_url, Some("redis://127.0.0.1/".to_string()));
}

#[test]
fn host_and_port_have_defaults() {
    let env = without(&without(&full_env(), "HOST"), "PORT");
    let config = Config::from_env(&env).unwrap();
    assert_eq!(config.host, "127.0.0.1");
    assert_eq!(config.port, "8080");
}

#[test]
fn redis_url_is_optional() {
    let config = Config::from_env(&without(&full_env(), "REDIS_URL")).unwrap();
    assert_eq!(config.redis_url, None);
}

#[test]
fn each_required_variable_is_reported_when_missing() {
    let cases = [
        ("CLIENT_ID", ConfigKey::ClientId),
        ("CLIENT_SECRET", ConfigKey::ClientSecret),
        ("AUTH_URL", ConfigKey::AuthUrl),
        ("TOKEN_URL", ConfigKey::TokenUrl),
        ("REDIRECT_URL", ConfigKey::RedirectUrl),
    ];
    for (name, key) in cases {
        let res = Config::from_env(&without(&full_env(), name));
        assert_eq!(res.err(), Some(ConfigError::Missing(key)));
    }
}

#[test]
fn first_missing_variable_wins() {
    let env = without(&without(&full_env(), "TOKEN_URL"), "CLIENT_SECRET");
    assert_eq!(Config::from_env(&env).err(), Some(ConfigError::Missing(ConfigKey::ClientSecret)));
}

#[test]
fn empty_environment_lacks_the_client_id() {
    let env: Environment = Vec::new();
    assert_eq!(Config::from_env(&env).err(), Some(ConfigError::Missing(ConfigKey::ClientId)));
}

#[test]
fn first_pair_of_a_name_counts() {
    let mut env = full_env();
    env.push(("CLIENT_ID".to_string(), "other".to_string()));
    assert_eq!(Config::from_env(&env).unwrap().client_id, "my-client");
    assert_eq!(ConfigKey::ClientId.find_in(&env), Some("my-client".to_string()));
}

#[test]
fn find_in_misses_names_that_only_look_alike() {
    let env = env_of(&[("CLIENT_ID_2", "x"), ("client_id", "y"), ("CLIENT", "z")]);
    assert_eq!(ConfigKey::ClientId.find_in(&env), None);
}

#[test]
fn empty_value_counts_as_set() {
    let mut env = without(&full_env(), "CLIENT_SECRET");
    env.push(("CLIENT_SECRET".to_string(), String::new()));
    assert_eq!(Config::from_env(&env).unwrap().client_secret, "");
}

#[test]
fn provider_keeps_credentials_and_urls() {
    let config = Config::from_env(&full_env()).unwrap();
    let provider = ProviderConfig::new(&config).unwrap();
    assert_eq!(provider.client_id(), "my-client");
    assert_eq!(provider.client_secret(), "s3cret");
    assert_eq!(provider.auth_url(), "https://provider.example/authorize");
    assert_eq!(provider.token_url(), "https://provider.example/token");
    assert_eq!(provider.redirect_url(), "http://localhost:8080/callback");
}

#[test]
fn provider_urls_are_kept_in_normal_form() {
    let mut config = Config::from_env(&full_env()).unwrap();
    config.auth_url = "HTTPS://Provider.Example".to_string();
    config.redirect_url = "http://localhost:8080".to_string();
    let provider = ProviderConfig::new(&config).unwrap();
    assert_eq!(provider.auth_url(), "https://provider.example/");
    assert_eq!(provider.redirect_url(), "http://localhost:8080/");
}

#[test]
fn malformed_urls_are_reported_in_order() {
    let good = Config::from_env(&full_env()).unwrap();

    let mut config = good.clone();
    config.auth_url = "not a url".to_string();
    config.token_url = "also not".to_string();
    assert_eq!(ProviderConfig::new(&config).err(), Some(ConfigError::Malformed(ConfigKey::AuthUrl)));

    let mut config = good.clone();
    config.token_url = "/relative/path".to_string();
    config.redirect_url = String::new();
    assert_eq!(ProviderConfig::new(&config).err(), Some(ConfigError::Malformed(ConfigKey::TokenUrl)));

    let mut config = good.clone();
    config.redirect_url = String::new();
    assert_eq!(
        ProviderConfig::new(&config).err(),
        Some(ConfigError::Malformed(ConfigKey::RedirectUrl))
    );
}

#[test]
fn sign_in_link_carries_client_redirect_and_state() {
    let config = Config::from_env(&full_env()).unwrap();
    let provider = ProviderConfig::new(&config).unwrap();
    let link = provider.sign_in_link("abcDEF123");
    assert_ne!(link, "abcDEF123");
    assert_eq!(
        link,
        "https://provider.example/authorize?response_type=code&client_id=my-client\
         &state=abcDEF123&redirect_uri=http%3A%2F%2Flocalhost%3A8080%2Fcallback"
    );
    let url = oauth2::url::Url::parse(&link).unwrap();
    let pairs: Vec<(String, String)> = url.query_pairs().into_owned().collect();
    assert!(pairs.contains(&("response_type".to_string(), "code".to_string())));
    assert!(pairs.contains(&("client_id".to_string(), "my-client".to_string())));
    assert!(pairs.contains(&("state".to_string(), "abcDEF123".to_string())));
    assert!(pairs.contains(&("redirect_uri".to_string(), "http://localhost:8080/callback".to_string())));
}

#[test]
fn sign_in_link_escapes_what_it_carries() {
    let mut config = Config::from_env(&full_env()).unwrap();
    config.client_id = "id with space&amp".to_string();
    let provider = ProviderConfig::new(&config).unwrap();
    let link = provider.sign_in_link("a b");
    let url = oauth2::url::Url::parse(&link).unwrap();
    let pairs: Vec<(String, String)> = url.query_pairs().into_owned().collect();
    assert!(pairs.contains(&("client_id".to_string(), "id with space&amp".to_string())));
    assert!(pairs.contains(&("state".to_string(), "a b".to_string())));
}
