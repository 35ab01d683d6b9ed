//! Configuration handed to every orchestrator: the platform base URL and the
//! privileged service credential.

use vstd::prelude::*;

use crate::error::AppError;
use crate::error::ConfigVar;

verus! {

/// The configuration values as found in the environment, each possibly
/// absent.  The shell reads them; this module decides whether they suffice.
#[derive(Debug, PartialEq, Eq)]
pub struct EnvValues {
    /// The platform base URL under its primary name.
    pub platform_url: Option<String>,
    /// The platform base URL under its fallback alternate name.
    pub vite_platform_url: Option<String>,
    /// The privileged service credential.
    pub service_role_key: Option<String>,
}

/// A complete configuration: both required values present.
#[derive(Debug, PartialEq, Eq)]
pub struct Config {
    pub base_url: String,
    pub service_role_key: String,
}

/// What the raw environment values resolve to: the complete configuration
/// where both required values are present (the primary URL name winning over
/// the fallback), otherwise an error naming the first missing value, the URL
/// being checked before the credential.
pub open spec fn resolve_config_result(env: EnvValues) -> Result<Config, AppError> {
    if env.platform_url is None && env.vite_platform_url is None {
        Err(AppError::ConfigError { variable: ConfigVar::PlatformUrl })
    } else if env.service_role_key is None {
        Err(AppError::ConfigError { variable: ConfigVar::ServiceRoleKey })
    } else {
        Ok(
            Config {
                base_url: if env.platform_url is Some {
                    env.platform_url->0
                } else {
                    env.vite_platform_url->0
                },
                service_role_key: env.service_role_key->0,
            },
        )
    }
}

/// Turns the raw environment values into a complete configuration, or says
/// which required value is missing, exactly as `resolve_config_result`
/// prescribes.
pub fn resolve_config(env: EnvValues) -> (r: Result<Config, AppError>)
    ensures
        r == resolve_config_result(env),
{
    let EnvValues { platform_url, vite_platform_url, service_role_key } = env;
    let base_url = match platform_url {
        Some(u) => u,
        None => match vite_platform_url {
            Some(u) => u,
            None => {
                return Err(AppError::ConfigError { variable: ConfigVar::PlatformUrl });
            },
        },
    };
    let key = match service_role_key {
        Some(k) => k,
        None => {
            return Err(AppError::ConfigError { variable: ConfigVar::ServiceRoleKey });
        },
    };
    Ok(Config { base_url, service_role_key: key })
}

} // verus!
