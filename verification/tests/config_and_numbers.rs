use messaging_app_backend::config::{
    environment_from, AppConfig, AppConfigVars, Config, ConfigError, ConfigVar, ConfigVars,
    Environment,
};
use messaging_app_backend::decimal::{i64_to_string, parse_i32, parse_i64, parse_u16, parse_u64, parse_usize, u64_to_string};
use messaging_app_backend::server_settings;

fn s(x: &str) -> Option<String> {
    Some(x.to_string())
}

fn full_vars() -> ConfigVars {
    ConfigVars {
        database_url: s("postgres://db"),
        redis_url: s("redis://cache"),
        frontend_url: None,
        port: None,
        app_env: None,
        cloudinary_cloud_name: s("cloud"),
        cloudinary_api_key: s("key"),
        cloudinary_api_secret: s("secret"),
        jwt_secret: s("jwt"),
        rate_limit_requests: None,
        rate_limit_window: None,
    }
}

#[test]
fn config_defaults_apply_to_unset_variables() {
    let c = Config::from_vars(full_vars()).unwrap();
    assert_eq!(c.database_url, "postgres://db");
    assert_eq!(c.frontend_url, "http://localhost:3000");
    assert_eq!(c.port, 3000);
    assert_eq!(c.environment, Environment::Development);
    assert_eq!(c.rate_limit_requests, 100);
    assert_eq!(c.rate_limit_window, 60);
    assert!(c.is_development());
    assert!(!c.is_production());
    assert!(!c.is_testing());
}

#[test]
fn config_reads_given_values() {
    let mut v = full_vars();
    v.port = s("+8080");
    v.app_env = s("production");
    v.rate_limit_requests = s("7");
    v.rate_limit_window = s("30");
    let c = Config::from_vars(v).unwrap();
    assert_eq!(c.port, 8080);
    assert!(c.is_production());
    assert_eq!(c.rate_limit_requests, 7);
    assert_eq!(c.rate_limit_window, 30);
}

#[test]
fn config_missing_database_url_is_first_error() {
    let mut v = full_vars();
    v.database_url = None;
    v.jwt_secret = None;
    assert_eq!(Config::from_vars(v).err(), Some(ConfigError::Missing(ConfigVar::DatabaseUrl)));
}

#[test]
fn config_bad_port_is_reported() {
    let mut v = full_vars();
    v.port = s("70000");
    assert_eq!(Config::from_vars(v).err(), Some(ConfigError::Invalid(ConfigVar::Port)));
    let mut v = full_vars();
    v.rate_limit_window = s("-1");
    assert_eq!(Config::from_vars(v).err(), Some(ConfigError::Invalid(ConfigVar::RateLimitWindow)));
    let mut v = full_vars();
    v.jwt_secret = None;
    assert_eq!(Config::from_vars(v).err(), Some(ConfigError::Missing(ConfigVar::JwtSecret)));
}

#[test]
fn environment_names() {
    assert_eq!(environment_from("testing"), Environment::Testing);
    assert_eq!(environment_from("production"), Environment::Production);
    assert_eq!(environment_from("Production"), Environment::Development);
    assert_eq!(environment_from(""), Environment::Development);
}

#[test]
fn exactly_one_environment_check_holds() {
    for env in ["production", "testing", "development", "other"] {
        let mut v = full_vars();
        v.app_env = s(env);
        let c = Config::from_vars(v).unwrap();
        let n = c.is_production() as u8 + c.is_development() as u8 + c.is_testing() as u8;
        assert_eq!(n, 1);
    }
}

#[test]
fn app_config_defaults_and_expiration() {
    let vars = AppConfigVars {
        database_url: None,
        redis_url: None,
        server_address: None,
        jwt_secret: None,
        jwt_expiration: None,
        cloudinary_cloud_name: None,
        cloudinary_api_key: None,
        cloudinary_api_secret: None,
    };
    let c = AppConfig::from_vars(vars).unwrap();
    assert_eq!(c.database_url, "postgresql://localhost/whatsapp_clone");
    assert_eq!(c.redis_url, "redis://localhost:6379");
    assert_eq!(c.server_address, "0.0.0.0:8000");
    assert_eq!(c.jwt_secret, "your-secret-key");
    assert_eq!(c.jwt_expiration, 86400);
    assert_eq!(c.cloudinary_api_secret, "your-api-secret");
    let bad = AppConfigVars {
        database_url: None,
        redis_url: None,
        server_address: None,
        jwt_secret: None,
        jwt_expiration: s("soon"),
        cloudinary_cloud_name: None,
        cloudinary_api_key: None,
        cloudinary_api_secret: None,
    };
    assert_eq!(AppConfig::from_vars(bad).err(), Some(ConfigError::Invalid(ConfigVar::JwtExpiration)));
}

#[test]
fn server_settings_default() {
    let c = server_settings::AppConfig::default();
    assert_eq!(c.host, "127.0.0.1");
    assert_eq!(c.port, 8080);
    assert_eq!(c.jwt_expiry, 3600);
    assert_eq!(c.refresh_token_expiry, 2592000);
    assert_eq!(c.verification_token_expiry, 604800);
    assert_eq!(c.password_reset_token_expiry, 3600);
}

#[test]
fn integers_parse_like_std() {
    for t in ["0", "+5", "65535", "65536", "", "+", "-1", "1a", " 1"] {
        assert_eq!(parse_u16(t), t.parse::<u16>().ok(), "{t}");
        assert_eq!(parse_u64(t), t.parse::<u64>().ok(), "{t}");
        assert_eq!(parse_usize(t), t.parse::<usize>().ok(), "{t}");
    }
    for t in ["-2147483648", "2147483647", "2147483648", "-", "-0", "+-1", "12"] {
        assert_eq!(parse_i32(t), t.parse::<i32>().ok(), "{t}");
        assert_eq!(parse_i64(t), t.parse::<i64>().ok(), "{t}");
    }
    assert_eq!(parse_u64("18446744073709551615"), Some(u64::MAX));
    assert_eq!(parse_u64("18446744073709551616"), None);
}

#[test]
fn integers_print_like_std_and_read_back() {
    for n in [0u64, 7, 10, 12345, u64::MAX] {
        let t = u64_to_string(n);
        assert_eq!(t, n.to_string());
        assert_eq!(parse_u64(&t), Some(n));
    }
    for n in [0i64, -1, -90210, i64::MIN, i64::MAX] {
        let t = i64_to_string(n);
        assert_eq!(t, n.to_string());
        assert_eq!(parse_i64(&t), Some(n));
    }
}
