//! Application configuration: the typed settings tree, the defaults, and
//! the startup validation that refuses to run with a required value empty.
//!
//! Reading the environment happens at the process edge; this module owns
//! what is checked and defaulted once the raw values are in hand.

use vstd::prelude::*;
use vstd::string::StringExecFns;

use crate::errors::DomainError;

verus! {

#[derive(Debug, Clone)]
pub struct ServerConfig {
    pub host: String,
    pub port: u16,
    pub environment: String,
}

#[derive(Debug, Clone)]
pub struct DatabaseConfig {
    pub url: String,
    pub max_connections: u32,
    pub min_connections: u32,
    pub acquire_timeout: u64,
    pub idle_timeout: u64,
}

#[derive(Debug, Clone)]
pub struct RedisConfig {
    pub url: String,
    pub max_connections: u32,
    pub connection_timeout: u64,
}

#[derive(Debug, Clone)]
pub struct JwtConfig {
    pub secret: String,
    pub access_token_duration: u64,
    pub refresh_token_duration: u64,
}

#[derive(Debug, Clone)]
pub struct EmailConfig {
    pub smtp_host: String,
    pub smtp_port: u16,
    pub smtp_username: String,
    pub smtp_password: String,
    pub from_email: String,
    pub from_name: String,
}

#[derive(Debug, Clone)]
pub struct AppConfig {
    pub server: ServerConfig,
    pub database: DatabaseConfig,
    pub redis: RedisConfig,
    pub jwt: JwtConfig,
    pub email: EmailConfig,
}

/// The required values are present: without any one of them the process
/// must not start.
pub open spec fn spec_config_complete(c: &AppConfig) -> bool {
    &&& c.database.url@.len() > 0
    &&& c.redis.url@.len() > 0
    &&& c.jwt.secret@.len() > 0
}

impl AppConfig {
    /// Builds a configuration from the three required values, with every
    /// other setting at its documented default.
    pub fn with_defaults(database_url: String, redis_url: String, jwt_secret: String) -> (r: Self)
        ensures
            r.server.host@ == "0.0.0.0"@,
            r.server.port == 3000u16,
            r.server.environment@ == "development"@,
            r.database.url == database_url,
            r.database.max_connections == 10u32,
            r.database.min_connections == 1u32,
            r.database.acquire_timeout == 30u64,
            r.database.idle_timeout == 600u64,
            r.redis.url == redis_url,
            r.redis.max_connections == 10u32,
            r.redis.connection_timeout == 5u64,
            r.jwt.secret == jwt_secret,
            r.jwt.access_token_duration == 900u64,
            r.jwt.refresh_token_duration == 604800u64,
            r.email.smtp_port == 587u16,
    {
        AppConfig {
            server: ServerConfig {
                host: String::from_str("0.0.0.0"),
                port: 3000,
                environment: String::from_str("development"),
            },
            database: DatabaseConfig {
                url: database_url,
                max_connections: 10,
                min_connections: 1,
                acquire_timeout: 30,
                idle_timeout: 600,
            },
            redis: RedisConfig { url: redis_url, max_connections: 10, connection_timeout: 5 },
            jwt: JwtConfig {
                secret: jwt_secret,
                access_token_duration: 900,
                refresh_token_duration: 604800,
            },
            email: EmailConfig {
                smtp_host: String::new(),
                smtp_port: 587,
                smtp_username: String::new(),
                smtp_password: String::new(),
                from_email: String::new(),
                from_name: String::new(),
            },
        }
    }

    /// Checks the required values, in the order the process reports them:
    /// the database URL, then the session-store URL, then the signing
    /// secret. The first missing one names itself in the error.
    pub fn validate(&self) -> (r: Result<(), DomainError>)
        ensures
            r is Ok <==> spec_config_complete(self),
            r matches Err(e) ==> (e matches DomainError::ValidationFailed { message } && (message@
                == "DATABASE_URL is required"@ || message@ == "REDIS_URL is required"@ || message@
                == "JWT_SECRET is required"@)),
            self.database.url@.len() == 0 ==> (r matches Err(e) && e
                matches DomainError::ValidationFailed { message } && message@
                == "DATABASE_URL is required"@),
            (self.database.url@.len() > 0 && self.redis.url@.len() == 0) ==> (r matches Err(e) && e
                matches DomainError::ValidationFailed { message } && message@
                == "REDIS_URL is required"@),
            (self.database.url@.len() > 0 && self.redis.url@.len() > 0 && self.jwt.secret@.len()
                == 0) ==> (r matches Err(e) && e matches DomainError::ValidationFailed { message }
                && message@ == "JWT_SECRET is required"@),
    {
        if self.database.url.as_str().is_empty() {
            return Err(
                DomainError::ValidationFailed {
                    message: String::from_str("DATABASE_URL is required"),
                },
            );
        }
        if self.redis.url.as_str().is_empty() {
            return Err(
                DomainError::ValidationFailed { message: String::from_str("REDIS_URL is required") },
            );
        }
        if self.jwt.secret.as_str().is_empty() {
            return Err(
                DomainError::ValidationFailed { message: String::from_str("JWT_SECRET is required") },
            );
        }
        Ok(())
    }
}

} // verus!
