use auth_flow::config::{Config, ConfigError, ConfigKey};
use auth_flow::event::{fresh_event_id, SessionEvent, EVENT_ID_BOUND};
use auth_flow::service::redis::{NotifyError, PublishOutcome, RedisService};

fn field<'a>(value: &'a serde_json::Value, name: &str) -> &'a serde_json::Value {
    value.as_object().unwrap().get(name).unwrap()
}

#[test]
fn event_identifiers_stay_below_the_bound() {
    assert_eq!(EVENT_ID_BOUND, 10_000_000);
    for _ in 0..2000 {
        assert!(fresh_event_id() < 10_000_000);
    }
}

#[test]
fn event_identifiers_vary() {
    let first = fresh_event_id();
    assert!((0..64).any(|_| fresh_event_id() != first));
}

#[test]
fn create_user_event_has_its_fields() {
    let event = SessionEvent::create_user(42, "example_user", "user@example.com");
    assert_eq!(event.event_type, "create_user");
    assert_eq!(event.id, 42);
    assert_eq!(event.username, "example_user");
    assert_eq!(event.email, "user@example.com");
}

#[test]
fn payload_is_the_compact_json_object() {
    let event = SessionEvent::create_user(42, "example_user", "user@example.com");
    assert_eq!(
        event.payload(),
        "{\"email\":\"user@example.com\",\"event_type\":\"create_user\",\"id\":42,\"username\":\"example_user\"}"
    );
}

#[test]
fn payload_reads_back_as_the_event() {
    let event = SessionEvent::create_user(9_999_999, "alice", "alice@example.org");
    let value: serde_json::Value = serde_json::from_str(&event.payload()).unwrap();
    assert_eq!(value.as_object().unwrap().len(), 4);
    assert_eq!(field(&value, "event_type").as_str(), Some("create_user"));
    assert_eq!(field(&value, "id").as_u64(), Some(9_999_999));
    assert_eq!(field(&value, "username").as_str(), Some("alice"));
    assert_eq!(field(&value, "email").as_str(), Some("alice@example.org"));
}

#[test]
fn payload_escapes_quotes_and_control_characters() {
    let event = SessionEvent::create_user(0, "a\"b\\c\n", "\u{e9}@example.com");
    let text = event.payload();
    assert!(text.contains("\"username\":\"a\\\"b\\\\c\\n\""));
    let value: serde_json::Value = serde_json::from_str(&text).unwrap();
    assert_eq!(field(&value, "username").as_str(), Some("a\"b\\c\n"));
    assert_eq!(field(&value, "email").as_str(), Some("\u{e9}@example.com"));
    assert_eq!(field(&value, "id").as_u64(), Some(0));
}

#[test]
fn payload_follows_the_event_type_of_the_record() {
    let mut event = SessionEvent::create_user(1, "u", "e");
    event.event_type = "delete_user".to_string();
    let value: serde_json::Value = serde_json::from_str(&event.payload()).unwrap();
    assert_eq!(field(&value, "event_type").as_str(), Some("delete_user"));
}

#[test]
fn service_opens_on_a_redis_url() {
    let service = RedisService::try_new("redis://127.0.0.1/").unwrap();
    assert_eq!(service.url(), "redis://127.0.0.1/");
    let service = RedisService::new("redis://localhost:6380/2");
    assert_eq!(service.url(), "redis://localhost:6380/2");
    let info = service.client().get_connection_info();
    assert_eq!(info.addr().to_string(), "localhost:6380");
}

#[test]
fn service_rejects_what_is_no_redis_url() {
    assert!(RedisService::try_new("not a url").is_none());
    assert!(RedisService::try_new("").is_none());
    assert!(RedisService::try_new("http://127.0.0.1/").is_none());
}

#[test]
fn message_goes_to_the_events_channel() {
    let service = RedisService::try_new("redis://127.0.0.1/").unwrap();
    let event = SessionEvent::create_user(7, "bob", "bob@example.com");
    let message = service.message_for(&event);
    assert_eq!(message.channel, "events");
    assert_eq!(message.payload, event.payload());
    assert_eq!(
        message.payload,
        "{\"email\":\"bob@example.com\",\"event_type\":\"create_user\",\"id\":7,\"username\":\"bob\"}"
    );
}

#[test]
fn publish_outcomes_map_to_notifier_results() {
    assert_eq!(RedisService::publish_result(PublishOutcome::Delivered), Ok(()));
    assert_eq!(
        RedisService::publish_result(PublishOutcome::Unreachable),
        Err(NotifyError::ConnectionFailed)
    );
    assert_eq!(
        RedisService::publish_result(PublishOutcome::Rejected),
        Err(NotifyError::PublishFailed)
    );
}

fn config_with_redis(redis_url: Option<&str>) -> Config {
    Config {
        client_id: "id".to_string(),
        client_secret: "secret".to_string(),
        auth_url: "https://provider.example/authorize".to_string(),
        token_url: "https://provider.example/token".to_string(),
        redirect_url: "http://localhost:8080/callback".to_string(),
        host: "127.0.0.1".to_string(),
        port: "8080".to_string(),
        redis_url: redis_url.map(|url| url.to_string()),
    }
}

#[test]
fn no_redis_url_means_no_notifier() {
    assert!(matches!(RedisService::from_config(&config_with_redis(None)), Ok(None)));
}

#[test]
fn configured_redis_url_opens_the_notifier() {
    let service = RedisService::from_config(&config_with_redis(Some("redis://cache.internal:6379/")))
        .ok()
        .unwrap()
        .unwrap();
    assert_eq!(service.url(), "redis://cache.internal:6379/");
}

#[test]
fn unusable_redis_url_is_malformed() {
    let res = RedisService::from_config(&config_with_redis(Some("ftp://cache.internal/")));
    assert_eq!(res.err(), Some(ConfigError::Malformed(ConfigKey::RedisUrl)));
    let res = RedisService::from_config(&config_with_redis(Some("redis://")));
    assert_eq!(res.err(), Some(ConfigError::Malformed(ConfigKey::RedisUrl)));
}
