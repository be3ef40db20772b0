//! The service's configuration, as taken from its environment.

use vstd::prelude::*;

verus! {

/// The names of the variables that hold the configuration.
pub const REDIS_URI: &'static str = "BACKEND_REDIS_URI";

pub const AUTH_BASE_URL: &'static str = "BACKEND_AUTH_BASE_URL";

pub const AUTH_PROJECT_ID: &'static str = "BACKEND_AUTH_PROJECT_ID";

pub const AUTH_CLIENT_ID: &'static str = "BACKEND_AUTH_CLIENT_ID";

pub const AUTH_CLIENT_SECRET: &'static str = "BACKEND_AUTH_CLIENT_SECRET";

pub const PULSAR_URL: &'static str = "BACKEND_PULSAR_URL";

/// The service's configuration.
#[derive(Clone, Debug)]
pub struct Env {
    // Redis
    pub redis_uri: String,
    // Zitadel
    pub auth_base_url: String,
    pub auth_project_id: String,
    pub auth_client_id: String,
    pub auth_client_secret: String,
    // Pulsar
    pub pulsar_url: String,
}

/// What the environment gave for each variable: its value, or the reason for
/// which it could not be had.
pub struct Lookups {
    pub redis_uri: Result<String, String>,
    pub auth_base_url: Result<String, String>,
    pub auth_project_id: Result<String, String>,
    pub auth_client_id: Result<String, String>,
    pub auth_client_secret: Result<String, String>,
    pub pulsar_url: Result<String, String>,
}

impl Lookups {
    /// The reason given for the first variable that could not be had, in the
    /// order in which the variables are declared.
    pub open spec fn first_failure(self) -> Option<String> {
        if self.redis_uri is Err {
            Some(self.redis_uri->Err_0)
        } else if self.auth_base_url is Err {
            Some(self.auth_base_url->Err_0)
        } else if self.auth_project_id is Err {
            Some(self.auth_project_id->Err_0)
        } else if self.auth_client_id is Err {
            Some(self.auth_client_id->Err_0)
        } else if self.auth_client_secret is Err {
            Some(self.auth_client_secret->Err_0)
        } else if self.pulsar_url is Err {
            Some(self.pulsar_url->Err_0)
        } else {
            None
        }
    }
}

/// Assembles the configuration from what the environment gave. It holds
/// every value as found; where a variable is wanting, the reason given for
/// the first such is returned.
pub fn read_env(found: Lookups) -> (r: Result<Env, String>)
    ensures
        match r {
            Ok(env) => {
                &&& found.redis_uri == Ok::<String, String>(env.redis_uri)
                &&& found.auth_base_url == Ok::<String, String>(env.auth_base_url)
                &&& found.auth_project_id == Ok::<String, String>(env.auth_project_id)
                &&& found.auth_client_id == Ok::<String, String>(env.auth_client_id)
                &&& found.auth_client_secret == Ok::<String, String>(env.auth_client_secret)
                &&& found.pulsar_url == Ok::<String, String>(env.pulsar_url)
            },
            Err(reason) => found.first_failure() == Some(reason),
        },
{
    let redis_uri = match found.redis_uri {
        Ok(value) => value,
        Err(reason) => { return Err(reason); },
    };
    let auth_base_url = match found.auth_base_url {
        Ok(value) => value,
        Err(reason) => { return Err(reason); },
    };
    let auth_project_id = match found.auth_project_id {
        Ok(value) => value,
        Err(reason) => { return Err(reason); },
    };
    let auth_client_id = match found.auth_client_id {
        Ok(value) => value,
        Err(reason) => { return Err(reason); },
    };
    let auth_client_secret = match found.auth_client_secret {
        Ok(value) => value,
        Err(reason) => { return Err(reason); },
    };
    let pulsar_url = match found.pulsar_url {
        Ok(value) => value,
        Err(reason) => { return Err(reason); },
    };
    Ok(Env { redis_uri, auth_base_url, auth_project_id, auth_client_id, auth_client_secret, pulsar_url })
}

} // verus!
