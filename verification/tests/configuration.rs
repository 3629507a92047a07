use rust_shop::config::{redis_connection_info, RedisTarget};
use rust_shop::config::{active_config_path, app_config_path, load_redis_config, mod_config_path, EnvConfig, Profiles, RedisConfig};

#[test]
fn config_file_names() {
    assert_eq!(app_config_path("dev"), "application-dev.yml");
    assert_eq!(mod_config_path("redis"), "redis.yml");
    let env = EnvConfig { profiles: Profiles { active: "prod".to_string() } };
    assert_eq!(active_config_path(&env), "application-prod.yml");
}

#[test]
fn redis_settings_follow_config() {
    let cfg = RedisConfig {
        db: 3,
        server: "127.0.0.1".to_string(),
        port: 6379,
        username: None,
        password: Some("SECRET-REDACTED".to_string()),
    };
    let s = load_redis_config(&cfg);
    assert_eq!(s.host, "127.0.0.1");
    assert_eq!(s.port, 6379);
    assert_eq!(s.db, 3);
    assert_eq!(s.username, None);
    assert_eq!(s.password, Some("SECRET-REDACTED".to_string()));
}

#[test]
fn redis_targets() {
    assert!(redis_connection_info(RedisTarget::Url("redis://localhost".to_string())).is_ok());
    assert!(redis_connection_info(RedisTarget::Url("http://localhost".to_string())).is_err());
    assert!(redis_connection_info(RedisTarget::Url("not a url".to_string())).is_err());
    let config = RedisConfig { db: 2, server: "cache".to_string(), port: 6380, username: None, password: None };
    assert!(redis_connection_info(RedisTarget::Settings(config)).is_ok());
}
