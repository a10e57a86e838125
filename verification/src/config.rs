use vstd::prelude::*;
use crate::decimal::{parse_i64, parse_signed_spec, parse_u16, parse_u32, parse_u64, parse_unsigned_spec};
use crate::text::str_eq;

verus! {

/// The deployment environment the server runs in.
#[derive(Debug, Clone, Copy, PartialEq, Eq, Structural)]
pub enum Environment {
    Development,
    Production,
    Testing,
}

/// Runtime configuration of the server.
#[derive(Debug, Clone)]
pub struct Config {
    pub database_url: String,
    pub redis_url: String,
    pub frontend_url: String,
    pub port: u16,
    pub environment: Environment,
    pub cloudinary_cloud_name: String,
    pub cloudinary_api_key: String,
    pub cloudinary_api_secret: String,
    pub jwt_secret: String,
    pub rate_limit_requests: u32,
    pub rate_limit_window: u64,
}

impl Config {
    /// Whether the server runs in production.
    pub fn is_production(&self) -> (b: bool)
        ensures
            b <==> self.environment == Environment::Production,
    {
        self.environment == Environment::Production
    }

    /// Whether the server runs in development.
    pub fn is_development(&self) -> (b: bool)
        ensures
            b <==> self.environment == Environment::Development,
    {
        self.environment == Environment::Development
    }

    /// Whether the server runs under test.
    pub fn is_testing(&self) -> (b: bool)
        ensures
            b <==> self.environment == Environment::Testing,
    {
        self.environment == Environment::Testing
    }
}


/// A configuration variable that is read from the environment.
#[derive(Debug, Clone, Copy, PartialEq, Eq, Structural)]
pub enum ConfigVar {
    DatabaseUrl,
    RedisUrl,
    Port,
    CloudinaryCloudName,
    CloudinaryApiKey,
    CloudinaryApiSecret,
    JwtSecret,
    RateLimitRequests,
    RateLimitWindow,
    JwtExpiration,
}

/// The name of the environment variable a configuration variable is read from.
pub open spec fn config_var_name(v: ConfigVar) -> Seq<char> {
    match v {
        ConfigVar::DatabaseUrl => "DATABASE_URL"@,
        ConfigVar::RedisUrl => "REDIS_URL"@,
        ConfigVar::Port => "PORT"@,
        ConfigVar::CloudinaryCloudName => "CLOUDINARY_CLOUD_NAME"@,
        ConfigVar::CloudinaryApiKey => "CLOUDINARY_API_KEY"@,
        ConfigVar::CloudinaryApiSecret => "CLOUDINARY_API_SECRET"@,
        ConfigVar::JwtSecret => "JWT_SECRET"@,
        ConfigVar::RateLimitRequests => "RATE_LIMIT_REQUESTS"@,
        ConfigVar::RateLimitWindow => "RATE_LIMIT_WINDOW"@,
        ConfigVar::JwtExpiration => "JWT_EXPIRATION"@,
    }
}

impl ConfigVar {
    /// The name of the environment variable.
    pub fn name(&self) -> (r: &'static str)
        ensures
            r@ == config_var_name(*self),
    {
        match self {
            ConfigVar::DatabaseUrl => "DATABASE_URL",
            ConfigVar::RedisUrl => "REDIS_URL",
            ConfigVar::Port => "PORT",
            ConfigVar::CloudinaryCloudName => "CLOUDINARY_CLOUD_NAME",
            ConfigVar::CloudinaryApiKey => "CLOUDINARY_API_KEY",
            ConfigVar::CloudinaryApiSecret => "CLOUDINARY_API_SECRET",
            ConfigVar::JwtSecret => "JWT_SECRET",
            ConfigVar::RateLimitRequests => "RATE_LIMIT_REQUESTS",
            ConfigVar::RateLimitWindow => "RATE_LIMIT_WINDOW",
            ConfigVar::JwtExpiration => "JWT_EXPIRATION",
        }
    }
}

/// Why a configuration could not be built.
#[derive(Debug, Clone, Copy, PartialEq, Eq, Structural)]
pub enum ConfigError {
    /// A variable without a default is not set.
    Missing(ConfigVar),
    /// A numeric variable does not hold a number of its type.
    Invalid(ConfigVar),
}

/// The environment variables a `Config` is built from; `None` where unset.
pub struct ConfigVars {
    pub database_url: Option<String>,
    pub redis_url: Option<String>,
    pub frontend_url: Option<String>,
    pub port: Option<String>,
    pub app_env: Option<String>,
    pub cloudinary_cloud_name: Option<String>,
    pub cloudinary_api_key: Option<String>,
    pub cloudinary_api_secret: Option<String>,
    pub jwt_secret: Option<String>,
    pub rate_limit_requests: Option<String>,
    pub rate_limit_window: Option<String>,
}

/// The characters of an optional string.
pub open spec fn opt_view(v: Option<String>) -> Option<Seq<char>> {
    match v {
        Some(s) => Some(s@),
        None => None,
    }
}

/// The value of a variable, or `default` when it is unset.
pub open spec fn or_default(v: Option<String>, default: Seq<char>) -> Seq<char> {
    match v {
        Some(s) => s@,
        None => default,
    }
}

/// The environment named by `APP_ENV` (unset means `development`): `production`
/// and `testing` name theirs, anything else is development.
pub open spec fn environment_named(app_env: Seq<char>) -> Environment {
    if app_env == "production"@ {
        Environment::Production
    } else if app_env == "testing"@ {
        Environment::Testing
    } else {
        Environment::Development
    }
}

/// The first variable, in the order the configuration reads them, that is
/// missing or malformed.
pub open spec fn config_error(v: ConfigVars) -> Option<ConfigError> {
    if v.database_url is None {
        Some(ConfigError::Missing(ConfigVar::DatabaseUrl))
    } else if v.redis_url is None {
        Some(ConfigError::Missing(ConfigVar::RedisUrl))
    } else if parse_unsigned_spec(or_default(v.port, "3000"@), u16::MAX as int) is None {
        Some(ConfigError::Invalid(ConfigVar::Port))
    } else if v.cloudinary_cloud_name is None {
        Some(ConfigError::Missing(ConfigVar::CloudinaryCloudName))
    } else if v.cloudinary_api_key is None {
        Some(ConfigError::Missing(ConfigVar::CloudinaryApiKey))
    } else if v.cloudinary_api_secret is None {
        Some(ConfigError::Missing(ConfigVar::CloudinaryApiSecret))
    } else if v.jwt_secret is None {
        Some(ConfigError::Missing(ConfigVar::JwtSecret))
    } else if parse_unsigned_spec(or_default(v.rate_limit_requests, "100"@), u32::MAX as int) is None {
        Some(ConfigError::Invalid(ConfigVar::RateLimitRequests))
    } else if parse_unsigned_spec(or_default(v.rate_limit_window, "60"@), u64::MAX as int) is None {
        Some(ConfigError::Invalid(ConfigVar::RateLimitWindow))
    } else {
        None
    }
}

/// The variable's value, or the default when it is unset.
fn value_or(v: Option<String>, default: &str) -> (r: String)
    ensures
        r@ == or_default(v, default@),
{
    match v {
        Some(s) => s,
        None => crate::text::owned(default),
    }
}

/// A required variable's value.
fn required(v: Option<String>, var: ConfigVar) -> (r: Result<String, ConfigError>)
    ensures
        match v {
            Some(s) => r == Ok::<String, ConfigError>(s),
            None => r == Err::<String, ConfigError>(ConfigError::Missing(var)),
        },
{
    match v {
        Some(s) => Ok(s),
        None => Err(ConfigError::Missing(var)),
    }
}

/// The environment that `APP_ENV` names.
pub fn environment_from(app_env: &str) -> (e: Environment)
    ensures
        e == environment_named(app_env@),
{
    if str_eq(app_env, "production") {
        Environment::Production
    } else if str_eq(app_env, "testing") {
        Environment::Testing
    } else {
        Environment::Development
    }
}

impl Config {
    /// Builds the configuration from the environment's variables: the
    /// database and Redis URLs, the Cloudinary credentials and the JWT secret
    /// must be set; the others have defaults (`http://localhost:3000`, port
    /// `3000`, `development`, 100 requests per 60 seconds).
    pub fn from_vars(vars: ConfigVars) -> (r: Result<Config, ConfigError>)
        ensures
            match r {
                Ok(c) => {
                    &&& config_error(vars) is None
                    &&& Some(c.database_url@) == opt_view(vars.database_url)
                    &&& Some(c.redis_url@) == opt_view(vars.redis_url)
                    &&& c.frontend_url@ == or_default(vars.frontend_url, "http://localhost:3000"@)
                    &&& parse_unsigned_spec(or_default(vars.port, "3000"@), u16::MAX as int) == Some(c.port as int)
                    &&& c.environment == environment_named(or_default(vars.app_env, "development"@))
                    &&& Some(c.cloudinary_cloud_name@) == opt_view(vars.cloudinary_cloud_name)
                    &&& Some(c.cloudinary_api_key@) == opt_view(vars.cloudinary_api_key)
                    &&& Some(c.cloudinary_api_secret@) == opt_view(vars.cloudinary_api_secret)
                    &&& Some(c.jwt_secret@) == opt_view(vars.jwt_secret)
                    &&& parse_unsigned_spec(or_default(vars.rate_limit_requests, "100"@), u32::MAX as int)
                        == Some(c.rate_limit_requests as int)
                    &&& parse_unsigned_spec(or_default(vars.rate_limit_window, "60"@), u64::MAX as int)
                        == Some(c.rate_limit_window as int)
                },
                Err(e) => config_error(vars) == Some(e),
            },
    {
        let ghost v = vars;
        let ConfigVars {
            database_url,
            redis_url,
            frontend_url,
            port,
            app_env,
            cloudinary_cloud_name,
            cloudinary_api_key,
            cloudinary_api_secret,
            jwt_secret,
            rate_limit_requests,
            rate_limit_window,
        } = vars;
        let database_url = required(database_url, ConfigVar::DatabaseUrl)?;
        let redis_url = required(redis_url, ConfigVar::RedisUrl)?;
        let frontend_url = value_or(frontend_url, "http://localhost:3000");
        let port_text = value_or(port, "3000");
        let port = match parse_u16(port_text.as_str()) {
            Some(p) => p,
            None => return Err(ConfigError::Invalid(ConfigVar::Port)),
        };
        let env_text = value_or(app_env, "development");
        let environment = environment_from(env_text.as_str());
        let cloudinary_cloud_name = required(cloudinary_cloud_name, ConfigVar::CloudinaryCloudName)?;
        let cloudinary_api_key = required(cloudinary_api_key, ConfigVar::CloudinaryApiKey)?;
        let cloudinary_api_secret = required(cloudinary_api_secret, ConfigVar::CloudinaryApiSecret)?;
        let jwt_secret = required(jwt_secret, ConfigVar::JwtSecret)?;
        let requests_text = value_or(rate_limit_requests, "100");
        let rate_limit_requests = match parse_u32(requests_text.as_str()) {
            Some(n) => n,
            None => return Err(ConfigError::Invalid(ConfigVar::RateLimitRequests)),
        };
        let window_text = value_or(rate_limit_window, "60");
        let rate_limit_window = match parse_u64(window_text.as_str()) {
            Some(n) => n,
            None => return Err(ConfigError::Invalid(ConfigVar::RateLimitWindow)),
        };
        Ok(Config {
            database_url,
            redis_url,
            frontend_url,
            port,
            environment,
            cloudinary_cloud_name,
            cloudinary_api_key,
            cloudinary_api_secret,
            jwt_secret,
            rate_limit_requests,
            rate_limit_window,
        })
    }
}

/// The settings of the server binary, each with a default.
#[derive(Debug, Clone)]
pub struct AppConfig {
    pub database_url: String,
    pub redis_url: String,
    pub server_address: String,
    pub jwt_secret: String,
    pub jwt_expiration: i64,
    pub cloudinary_cloud_name: String,
    pub cloudinary_api_key: String,
    pub cloudinary_api_secret: String,
}

/// The environment variables an `AppConfig` is built from; `None` where unset.
pub struct AppConfigVars {
    pub database_url: Option<String>,
    pub redis_url: Option<String>,
    pub server_address: Option<String>,
    pub jwt_secret: Option<String>,
    pub jwt_expiration: Option<String>,
    pub cloudinary_cloud_name: Option<String>,
    pub cloudinary_api_key: Option<String>,
    pub cloudinary_api_secret: Option<String>,
}

impl AppConfig {
    /// Builds the settings from the environment's variables, with a default
    /// for each unset one; it fails only when `JWT_EXPIRATION` (default
    /// `86400`) is not an `i64`.
    pub fn from_vars(vars: AppConfigVars) -> (r: Result<AppConfig, ConfigError>)
        ensures
            match r {
                Ok(c) => {
                    &&& c.database_url@ == or_default(vars.database_url, "postgresql://localhost/whatsapp_clone"@)
                    &&& c.redis_url@ == or_default(vars.redis_url, "redis://localhost:6379"@)
                    &&& c.server_address@ == or_default(vars.server_address, "0.0.0.0:8000"@)
                    &&& c.jwt_secret@ == or_default(vars.jwt_secret, "your-secret-key"@)
                    &&& parse_signed_spec(or_default(vars.jwt_expiration, "86400"@), i64::MIN as int, i64::MAX as int)
                        == Some(c.jwt_expiration as int)
                    &&& c.cloudinary_cloud_name@ == or_default(vars.cloudinary_cloud_name, "your-cloud-name"@)
                    &&& c.cloudinary_api_key@ == or_default(vars.cloudinary_api_key, "your-api-key"@)
                    &&& c.cloudinary_api_secret@ == or_default(vars.cloudinary_api_secret, "your-api-secret"@)
                },
                Err(e) => {
                    &&& e == ConfigError::Invalid(ConfigVar::JwtExpiration)
                    &&& parse_signed_spec(or_default(vars.jwt_expiration, "86400"@), i64::MIN as int, i64::MAX as int) is None
                },
            },
    {
        let AppConfigVars {
            database_url,
            redis_url,
            server_address,
            jwt_secret,
            jwt_expiration,
            cloudinary_cloud_name,
            cloudinary_api_key,
            cloudinary_api_secret,
        } = vars;
        let database_url = value_or(database_url, "postgresql://localhost/whatsapp_clone");
        let redis_url = value_or(redis_url, "redis://localhost:6379");
        let server_address = value_or(server_address, "0.0.0.0:8000");
        let jwt_secret = value_or(jwt_secret, "your-secret-key");
        let expiration_text = value_or(jwt_expiration, "86400");
        let jwt_expiration = match parse_i64(expiration_text.as_str()) {
            Some(n) => n,
            None => return Err(ConfigError::Invalid(ConfigVar::JwtExpiration)),
        };
        Ok(AppConfig {
            database_url,
            redis_url,
            server_address,
            jwt_secret,
            jwt_expiration,
            cloudinary_cloud_name: value_or(cloudinary_cloud_name, "your-cloud-name"),
            cloudinary_api_key: value_or(cloudinary_api_key, "your-api-key"),
            cloudinary_api_secret: value_or(cloudinary_api_secret, "your-api-secret"),
        })
    }
}

/// Exactly one of the three environment checks holds of any configuration.
pub proof fn lemma_one_environment(c: Config)
    ensures
        (c.environment == Environment::Production) as int + (c.environment
            == Environment::Development) as int + (c.environment == Environment::Testing) as int == 1,
{
}

} // verus!
